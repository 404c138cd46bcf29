use dbus_router::fake_name::{
    from_fake_name, get_bus_from_fake_name, is_fake_unique_name, is_unique_name, to_fake_name,
};
use dbus_router::Bus;

#[test]
fn test_to_fake_name_unique() {
    assert_eq!(to_fake_name(":1.45", Bus::Host), ":h.1.45");
    assert_eq!(to_fake_name(":1.45", Bus::Sandbox), ":s.1.45");
    assert_eq!(to_fake_name(":1.123", Bus::Host), ":h.1.123");
    assert_eq!(to_fake_name(":10.999", Bus::Sandbox), ":s.10.999");
}

#[test]
fn test_to_fake_name_wellknown() {
    // Well-known names should not be transformed
    assert_eq!(to_fake_name("org.fcitx.Fcitx5", Bus::Host), "org.fcitx.Fcitx5");
    assert_eq!(to_fake_name("org.freedesktop.DBus", Bus::Sandbox), "org.freedesktop.DBus");
}

#[test]
fn test_from_fake_name_host() {
    let result = from_fake_name(":h.1.45");
    assert_eq!(result, Some((":1.45".to_string(), Bus::Host)));

    let result = from_fake_name(":h.10.999");
    assert_eq!(result, Some((":10.999".to_string(), Bus::Host)));
}

#[test]
fn test_from_fake_name_sandbox() {
    let result = from_fake_name(":s.1.23");
    assert_eq!(result, Some((":1.23".to_string(), Bus::Sandbox)));

    let result = from_fake_name(":s.5.678");
    assert_eq!(result, Some((":5.678".to_string(), Bus::Sandbox)));
}

#[test]
fn test_from_fake_name_not_fake() {
    // Well-known names
    assert_eq!(from_fake_name("org.fcitx.Fcitx5"), None);
    assert_eq!(from_fake_name("org.freedesktop.DBus"), None);

    // Unique names without our prefix
    assert_eq!(from_fake_name(":1.45"), None);
    assert_eq!(from_fake_name(":10.999"), None);
}

#[test]
fn test_roundtrip() {
    // Host bus roundtrip
    let original = ":1.45";
    let fake = to_fake_name(original, Bus::Host);
    let (restored, bus) = from_fake_name(&fake).unwrap();
    assert_eq!(restored, original);
    assert_eq!(bus, Bus::Host);

    // Sandbox bus roundtrip
    let original = ":1.23";
    let fake = to_fake_name(original, Bus::Sandbox);
    let (restored, bus) = from_fake_name(&fake).unwrap();
    assert_eq!(restored, original);
    assert_eq!(bus, Bus::Sandbox);
}

#[test]
fn test_is_unique_name() {
    assert!(is_unique_name(":1.45"));
    assert!(is_unique_name(":h.1.45"));
    assert!(is_unique_name(":s.1.23"));
    assert!(!is_unique_name("org.fcitx.Fcitx5"));
    assert!(!is_unique_name(""));
}

#[test]
fn test_is_fake_unique_name() {
    assert!(is_fake_unique_name(":h.1.45"));
    assert!(is_fake_unique_name(":s.1.23"));
    assert!(!is_fake_unique_name(":1.45"));
    assert!(!is_fake_unique_name("org.fcitx.Fcitx5"));
}

#[test]
fn test_get_bus_from_fake_name() {
    assert_eq!(get_bus_from_fake_name(":h.1.45"), Some(Bus::Host));
    assert_eq!(get_bus_from_fake_name(":s.1.23"), Some(Bus::Sandbox));
    assert_eq!(get_bus_from_fake_name(":1.45"), None);
    assert_eq!(get_bus_from_fake_name("org.fcitx.Fcitx5"), None);
}

#[test]
fn fake_names_are_prefixed_again_and_undone_once() {
    // A fake name is itself unique and gets another prefix.
    assert_eq!(to_fake_name(":h.1.45", Bus::Sandbox), ":s.h.1.45");
    assert_eq!(from_fake_name(":s.h.1.45"), Some((":h.1.45".to_string(), Bus::Sandbox)));
    assert_eq!(from_fake_name(":h."), Some((":".to_string(), Bus::Host)));
    assert_eq!(to_fake_name(":", Bus::Host), ":h.");
}
