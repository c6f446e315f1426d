use glycin::api_common::SandboxMechanism;
use glycin::config::{
    config_dir, data_dirs, parse_header, parse_operations, Config, ConfigEntry, ConfigGroup,
    GroupKind, ImageEditorConfig, ImageLoaderConfig, MimeType, COMPAT_VERSION,
};
use glycin::error::Error;
use glycin::operations::OperationId;

fn group(name: &str, program: Option<&str>) -> ConfigGroup {
    ConfigGroup {
        name: name.to_string(),
        program: program.map(|x| x.to_string()),
        expose_base_dir: None,
        fontconfig: None,
        operations: None,
    }
}

fn mime(name: &str) -> MimeType {
    MimeType::new(name.to_string())
}

#[test]
fn mime_types_are_equal_by_their_text() {
    assert_eq!(MimeType::new("image/png".to_string()), MimeType::new_static("image/png"));
    assert_eq!(MimeType::png(), mime("image/png"));
    assert_ne!(MimeType::png(), MimeType::jpeg());
    assert_eq!(MimeType::jpeg().as_str(), "image/jpeg");
    assert_eq!(MimeType::avif().to_text(), "image/avif");
    assert_eq!(COMPAT_VERSION, 2);
}

#[test]
fn group_headers() {
    assert_eq!(
        parse_header("loader:image/png"),
        (Some(GroupKind::Loader), Some("image/png".to_string()))
    );
    assert_eq!(
        parse_header("  editor:image/jpeg\t"),
        (Some(GroupKind::Editor), Some("image/jpeg".to_string()))
    );
    assert_eq!(
        parse_header("loader:image/png:more"),
        (Some(GroupKind::Loader), Some("image/png".to_string()))
    );
    assert_eq!(parse_header("loader"), (Some(GroupKind::Loader), None));
    assert_eq!(parse_header("loader:"), (Some(GroupKind::Loader), Some(String::new())));
    assert_eq!(parse_header("viewer:image/png"), (None, Some("image/png".to_string())));
    assert_eq!(parse_header("Loader:image/png").0, None);
    assert_eq!(parse_header(""), (None, None));
    assert_eq!(parse_header("loader :image/png").0, None);
}

#[test]
fn empty_registry() {
    let config = Config::new();
    assert_eq!(config.loader(&MimeType::png()), Err(Error::NoLoadersConfigured));
    assert_eq!(
        config.editor(&MimeType::png()),
        Err(Error::UnknownImageFormat("image/png".to_string()))
    );
}

#[test]
fn loader_group() {
    let mut config = Config::new();
    config.load_group(&ConfigGroup {
        expose_base_dir: Some(true),
        ..group("loader:image/svg+xml", Some("/usr/libexec/glycin-svg"))
    });
    assert_eq!(
        config.loader(&mime("image/svg+xml")),
        Ok(&ImageLoaderConfig {
            program: "/usr/libexec/glycin-svg".to_string(),
            expose_base_dir: true,
            fontconfig: false,
        })
    );
    assert_eq!(config.expose_base_dir(&mime("image/svg+xml")), Ok(true));
    assert_eq!(
        config.loader(&MimeType::png()),
        Err(Error::UnknownImageFormat("image/png".to_string()))
    );
    // a loader is no editor
    assert!(config.editor(&mime("image/svg+xml")).is_err());
}

#[test]
fn editor_group() {
    let mut config = Config::new();
    config.load_group(&ConfigGroup {
        fontconfig: Some(true),
        operations: Some(vec![
            "Clip".to_string(),
            "Sharpen".to_string(),
            "Rotate".to_string(),
            "clip".to_string(),
        ]),
        ..group("editor:image/png", Some("/usr/libexec/glycin-image-rs"))
    });
    assert_eq!(
        config.editor(&MimeType::png()),
        Ok(&ImageEditorConfig {
            program: "/usr/libexec/glycin-image-rs".to_string(),
            expose_base_dir: false,
            fontconfig: true,
            operations: vec![OperationId::Clip, OperationId::Rotate],
        })
    );
    assert_eq!(config.loader(&MimeType::png()), Err(Error::NoLoadersConfigured));
}

#[test]
fn groups_that_describe_no_helper() {
    let mut config = Config::new();
    config.load_groups(&vec![
        group("loader:image/png", None),
        group("loader", Some("/bin/a")),
        group("viewer:image/png", Some("/bin/b")),
        group("Desktop Entry", Some("/bin/c")),
    ]);
    assert_eq!(config, Config::new());
}

#[test]
fn later_group_wins() {
    let mut config = Config::new();
    config.load_groups(&vec![
        group("loader:image/png", Some("/usr/bin/first")),
        group("loader:image/jpeg", Some("/usr/bin/jpeg")),
        ConfigGroup {
            fontconfig: Some(true),
            ..group("loader:image/png", Some("/home/me/second"))
        },
    ]);
    let loader = config.loader(&MimeType::png()).unwrap();
    assert_eq!(loader.program, "/home/me/second");
    assert!(loader.fontconfig);
    assert_eq!(config.loader(&MimeType::jpeg()).unwrap().program, "/usr/bin/jpeg");
}

#[test]
fn operations_of_a_group() {
    assert_eq!(parse_operations(&vec![]), vec![]);
    assert_eq!(
        parse_operations(&vec![
            "MirrorVertically".to_string(),
            "".to_string(),
            "MirrorHorizontally".to_string()
        ]),
        vec![OperationId::MirrorVertically, OperationId::MirrorHorizontally]
    );
}

#[test]
fn config_entries() {
    let loader = ConfigEntry::Loader(ImageLoaderConfig {
        program: "/usr/bin/loader".to_string(),
        expose_base_dir: true,
        fontconfig: false,
    });
    let editor = ConfigEntry::Editor(ImageEditorConfig {
        program: "/usr/bin/editor".to_string(),
        expose_base_dir: false,
        fontconfig: true,
        operations: vec![],
    });
    assert_eq!(loader.exec(), "/usr/bin/loader");
    assert!(loader.expose_base_dir());
    assert!(!loader.fontconfig());
    assert_eq!(editor.exec(), "/usr/bin/editor");
    assert!(!editor.expose_base_dir());
    assert!(editor.fontconfig());
}

#[test]
fn pool_keys() {
    let loader = ConfigEntry::Loader(ImageLoaderConfig {
        program: "/usr/bin/loader".to_string(),
        expose_base_dir: true,
        fontconfig: false,
    });
    let key = loader.hash_value(Some("/home/me".to_string()), SandboxMechanism::Bwrap);
    assert_eq!(key.exec(), "/usr/bin/loader");
    assert!(key.same(&key.duplicate()));
    assert!(key.same(&loader.hash_value(Some("/home/me".to_string()), SandboxMechanism::Bwrap)));
    // another directory, no directory or another sandbox make another key
    assert!(!key.same(&loader.hash_value(Some("/home/you".to_string()), SandboxMechanism::Bwrap)));
    assert!(!key.same(&loader.hash_value(None, SandboxMechanism::Bwrap)));
    assert!(!key.same(&loader.hash_value(
        Some("/home/me".to_string()),
        SandboxMechanism::NotSandboxed
    )));
    let other = ConfigEntry::Loader(ImageLoaderConfig {
        program: "/usr/bin/other".to_string(),
        expose_base_dir: true,
        fontconfig: false,
    });
    assert!(!key.same(&other.hash_value(Some("/home/me".to_string()), SandboxMechanism::Bwrap)));
}

#[test]
fn data_directories() {
    assert_eq!(
        data_dirs(
            Some("/forced".to_string()),
            vec!["/usr/share".to_string()],
            "/home/me/.local/share".to_string()
        ),
        vec!["/forced".to_string()]
    );
    assert_eq!(
        data_dirs(
            None,
            vec!["/usr/local/share".to_string(), "/usr/share".to_string()],
            "/home/me/.local/share".to_string()
        ),
        vec![
            "/usr/local/share".to_string(),
            "/usr/share".to_string(),
            "/home/me/.local/share".to_string()
        ]
    );
    assert_eq!(config_dir("/usr/share"), "/usr/share/glycin-loaders/2+/conf.d");
}
