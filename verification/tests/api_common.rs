use glycin::api_common::{
    base_dir_for, guess_mime_type, needs_file_name, run_environment, ContentTypeGuess,
    RunEnvironment, SandboxMechanism, SandboxSelector,
};
use glycin::error::Error;
use glycin::instruction_handler::{dbus_fd, served_interfaces, StartError};

fn guess(content_type: &str, mime_type: Option<&str>, uncertain: bool) -> ContentTypeGuess {
    ContentTypeGuess {
        content_type: content_type.to_string(),
        mime_type: mime_type.map(|x| x.to_string()),
        uncertain,
    }
}

fn args(list: &[&str]) -> Vec<String> {
    list.iter().map(|x| x.to_string()).collect()
}

#[test]
fn xml_with_the_name_of_an_svg() {
    let content = guess("application/xml", Some("application/xml"), false);
    assert!(needs_file_name(&content));
    let with_name = guess("image/svg+xml", Some("image/svg+xml"), false);
    let mime = guess_mime_type(&content, Some(&with_name)).unwrap();
    assert_eq!(mime.as_str(), "image/svg+xml");
    // without a name the content decides
    assert_eq!(guess_mime_type(&content, None).unwrap().as_str(), "application/xml");
}

#[test]
fn sure_guesses_stand() {
    let content = guess("image/png", Some("image/png"), false);
    assert!(!needs_file_name(&content));
    let with_name = guess("image/jpeg", Some("image/jpeg"), false);
    assert_eq!(
        guess_mime_type(&content, Some(&with_name)).unwrap().as_str(),
        "image/png"
    );
}

#[test]
fn unsure_and_ambiguous_guesses_ask_the_name() {
    for content in [
        guess("image/png", Some("image/png"), true),
        guess("image/tiff", Some("image/tiff"), false),
        guess("application/gzip", Some("application/gzip"), false),
        guess("application/x-unknown", None, true),
    ] {
        assert!(needs_file_name(&content));
        let with_name = guess("image/x-canon-cr2", Some("image/x-canon-cr2"), false);
        assert_eq!(
            guess_mime_type(&content, Some(&with_name)).unwrap().as_str(),
            "image/x-canon-cr2"
        );
    }
    assert!(!needs_file_name(&guess("application/x-unknown", None, false)));
    assert!(!needs_file_name(&guess("text/xml", Some("text/xml"), false)));
}

#[test]
fn unknown_content_type() {
    let content = guess("application/x-zerosize", None, false);
    assert_eq!(
        guess_mime_type(&content, None),
        Err(Error::UnknownContentType("application/x-zerosize".to_string()))
    );
    // the guess with the name is the one that fails
    let content = guess("application/xml", Some("application/xml"), true);
    let with_name = guess("application/x-strange", None, false);
    assert_eq!(
        guess_mime_type(&content, Some(&with_name)),
        Err(Error::UnknownContentType("application/x-strange".to_string()))
    );
}

#[test]
fn sandbox_for_each_environment() {
    assert_eq!(run_environment(false, false), RunEnvironment::Host);
    assert_eq!(run_environment(false, true), RunEnvironment::Host);
    assert_eq!(run_environment(true, false), RunEnvironment::Flatpak);
    assert_eq!(run_environment(true, true), RunEnvironment::FlatpakDevel);
    assert_eq!(SandboxMechanism::detect(RunEnvironment::Host), SandboxMechanism::Bwrap);
    assert_eq!(
        SandboxMechanism::detect(RunEnvironment::Flatpak),
        SandboxMechanism::FlatpakSpawn
    );
    assert_eq!(
        SandboxMechanism::detect(RunEnvironment::FlatpakDevel),
        SandboxMechanism::NotSandboxed
    );
}

#[test]
fn sandbox_selectors() {
    assert_eq!(SandboxSelector::default(), SandboxSelector::Auto);
    for environment in [RunEnvironment::Host, RunEnvironment::Flatpak, RunEnvironment::FlatpakDevel] {
        assert_eq!(
            SandboxSelector::Auto.determine_sandbox_mechanism(environment),
            SandboxMechanism::detect(environment)
        );
        for mechanism in [
            SandboxMechanism::Bwrap,
            SandboxMechanism::FlatpakSpawn,
            SandboxMechanism::NotSandboxed,
        ] {
            assert_eq!(
                mechanism.into_selector().determine_sandbox_mechanism(environment),
                mechanism
            );
        }
    }
}

#[test]
fn base_directory() {
    let parent = Some("/home/me/Pictures".to_string());
    assert_eq!(base_dir_for(true, true, parent.clone()), parent);
    assert_eq!(base_dir_for(true, false, parent.clone()), None);
    assert_eq!(base_dir_for(false, true, parent.clone()), None);
    assert_eq!(base_dir_for(true, true, None), None);
}

#[test]
fn socket_of_a_helper() {
    assert_eq!(dbus_fd(&args(&["glycin-svg", "--dbus-fd", "5"])), Ok(5));
    assert_eq!(dbus_fd(&args(&["glycin-svg", "--dbus-fd", "+12", "more"])), Ok(12));
    assert_eq!(dbus_fd(&args(&["glycin-svg", "--dbus-fd", "2147483647"])), Ok(i32::MAX));
    assert_eq!(dbus_fd(&args(&["glycin-svg", "--dbus-fd", "-2147483648"])), Ok(i32::MIN));
    assert_eq!(dbus_fd(&args(&["glycin-svg", "--dbus-fd", "007"])), Ok(7));
}

#[test]
fn helper_without_socket() {
    for list in [
        args(&[]),
        args(&["glycin-svg"]),
        args(&["glycin-svg", "5"]),
        args(&["glycin-svg", "--dbus_fd", "5"]),
        args(&["--dbus-fd", "5"]),
    ] {
        assert_eq!(dbus_fd(&list), Err(StartError::MissingFd), "{list:?}");
    }
    for list in [
        args(&["glycin-svg", "--dbus-fd"]),
        args(&["glycin-svg", "--dbus-fd", ""]),
        args(&["glycin-svg", "--dbus-fd", "five"]),
        args(&["glycin-svg", "--dbus-fd", " 5"]),
        args(&["glycin-svg", "--dbus-fd", "5 "]),
        args(&["glycin-svg", "--dbus-fd", "2147483648"]),
        args(&["glycin-svg", "--dbus-fd", "-2147483649"]),
        args(&["glycin-svg", "--dbus-fd", "-"]),
        args(&["glycin-svg", "--dbus-fd", "0x5"]),
    ] {
        assert_eq!(dbus_fd(&list), Err(StartError::InvalidFd), "{list:?}");
        assert_eq!(list.get(2).and_then(|x| x.parse::<i32>().ok()), None);
    }
    assert_eq!(StartError::MissingFd.exit_code(), 2);
    assert_eq!(StartError::InvalidFd.exit_code(), 2);
}

#[test]
fn interfaces_of_a_helper() {
    assert_eq!(served_interfaces(false), vec!["org.gnome.glycin.Loader"]);
    assert_eq!(
        served_interfaces(true),
        vec!["org.gnome.glycin.Loader", "org.gnome.glycin.Editor"]
    );
}
