use glycin::api_common::SandboxMechanism;
use glycin::config::{ConfigEntry, ConfigEntryHash, ImageLoaderConfig, MimeType};
use glycin::order::precedes;

const TEXTS: [&str; 12] = [
    "",
    "a",
    "ab",
    "abc",
    "b",
    "B",
    "image/jpeg",
    "image/png",
    "image/svg+xml",
    "é",
    "z",
    "\u{10000}",
];

#[test]
fn texts_are_ordered_as_the_standard_library_orders_them() {
    for a in TEXTS {
        for b in TEXTS {
            assert_eq!(precedes(a, b), a < b, "{a:?} and {b:?}");
        }
    }
}

#[test]
fn a_text_stands_before_what_continues_it() {
    assert!(precedes("image/x", "image/x-foo"));
    assert!(!precedes("image/x-foo", "image/x"));
    assert!(!precedes("image/x", "image/x"));
    assert!(precedes("", "a"));
    assert!(!precedes("", ""));
}

#[test]
fn the_first_difference_decides() {
    assert!(precedes("image/jpeg", "image/png"));
    assert!(!precedes("image/png", "image/jpeg"));
    assert!(precedes("ab", "b"));
    assert!(precedes("Z", "a"));
}

#[test]
fn mime_types_are_ordered_by_their_text() {
    let jpeg = MimeType::jpeg();
    let png = MimeType::png();
    let owned = MimeType::new("image/png".to_string());
    assert!(jpeg.precedes(&png));
    assert!(!png.precedes(&jpeg));
    assert!(!png.precedes(&owned));
    assert!(!owned.precedes(&png));
    assert!(MimeType::avif().precedes(&jpeg));
}

fn key(
    fontconfig: bool,
    program: &str,
    expose_base_dir: bool,
    base_dir: Option<&str>,
    mechanism: SandboxMechanism,
) -> ConfigEntryHash {
    ConfigEntry::Loader(ImageLoaderConfig {
        program: program.to_string(),
        expose_base_dir,
        fontconfig,
    })
    .hash_value(base_dir.map(|x| x.to_string()), mechanism)
}

#[test]
fn keys_are_ordered_part_by_part() {
    let bwrap = SandboxMechanism::Bwrap;
    let keys = [
        key(false, "/usr/bin/a", false, None, bwrap),
        key(false, "/usr/bin/a", false, None, SandboxMechanism::FlatpakSpawn),
        key(false, "/usr/bin/a", false, None, SandboxMechanism::NotSandboxed),
        key(false, "/usr/bin/a", false, Some("/home"), bwrap),
        key(false, "/usr/bin/a", false, Some("/home/x"), bwrap),
        key(false, "/usr/bin/a", true, None, bwrap),
        key(false, "/usr/bin/b", false, None, bwrap),
        key(true, "/usr/bin/a", false, None, bwrap),
    ];
    for (i, a) in keys.iter().enumerate() {
        for (j, b) in keys.iter().enumerate() {
            assert_eq!(a.precedes(b), i < j, "keys {i} and {j}");
            assert_eq!(a.same(b), i == j, "keys {i} and {j}");
        }
    }
}
