use dbus_router::config::HostPass;
use dbus_router::{Config, RouteRule};

#[test]
fn test_exact_match() {
    let rule = RouteRule {
        destination: "org.freedesktop.DBus".to_string(),
    };
    assert!(rule.matches("org.freedesktop.DBus"));
    assert!(!rule.matches("org.freedesktop.DBus.Peer"));
    assert!(!rule.matches("org.freedesktop"));
}

#[test]
fn test_wildcard_match() {
    let rule = RouteRule {
        destination: "org.freedesktop.portal.*".to_string(),
    };
    assert!(rule.matches("org.freedesktop.portal.Desktop"));
    assert!(rule.matches("org.freedesktop.portal.FileChooser"));
    assert!(rule.matches("org.freedesktop.portal")); // prefix itself matches
    assert!(!rule.matches("org.freedesktop.portals")); // no dot separator
    assert!(!rule.matches("org.freedesktop.DBus"));
}

#[test]
fn test_should_route_to_host() {
    let config = Config {
        host_routes: vec![
            RouteRule {
                destination: "org.freedesktop.DBus".to_string(),
            },
            RouteRule {
                destination: "org.freedesktop.portal.*".to_string(),
            },
        ],
        ..Default::default()
    };

    assert!(config.should_route_to_host("org.freedesktop.DBus"));
    assert!(config.should_route_to_host("org.freedesktop.portal.Desktop"));
    assert!(!config.should_route_to_host("org.example.Test"));
}

#[test]
fn test_empty_config() {
    let config = Config::default();
    assert!(!config.should_route_to_host("org.freedesktop.DBus"));
}

#[test]
fn test_has_hostpass() {
    let config = Config {
        host_routes: vec![],
        hostpass: vec![
            HostPass {
                process: "/usr/bin/my-sandbox-app".to_string(),
            },
            HostPass {
                process: "/opt/app/bin/service".to_string(),
            },
        ],
    };

    assert!(config.has_hostpass("/usr/bin/my-sandbox-app"));
    assert!(config.has_hostpass("/opt/app/bin/service"));
    assert!(!config.has_hostpass("/usr/bin/other-app"));
    assert!(!config.has_hostpass("/usr/bin/my-sandbox-app-extra"));
}

#[test]
fn wildcard_rule_matches_subnames_only_after_a_dot() {
    let rule = RouteRule {
        destination: "org.fcitx.*".to_string(),
    };
    assert!(rule.matches("org.fcitx.Fcitx5"));
    assert!(rule.matches("org.fcitx.Fcitx5.Controller1"));
    assert!(rule.matches("org.fcitx"));
    assert!(!rule.matches("org.fcitxx"));
    assert!(!rule.matches("org"));
}

#[test]
fn hostpass_patterns_are_globs() {
    let config = Config {
        host_routes: vec![],
        hostpass: vec![HostPass {
            process: "*/python3*".to_string(),
        }],
    };
    assert!(config.has_hostpass("/usr/bin/python3"));
    assert!(config.has_hostpass("/usr/bin/python3.12"));
    assert!(!config.has_hostpass("/usr/bin/node"));

    // A pattern without wildcards matches only the same path.
    let literal = Config {
        host_routes: vec![],
        hostpass: vec![HostPass {
            process: "/usr/bin/my-app".to_string(),
        }],
    };
    assert!(literal.has_hostpass("/usr/bin/my-app"));
    assert!(!literal.has_hostpass("/usr//bin/my-app"));
    assert!(!literal.has_hostpass("/usr/bin/my-ap"));

    // An invalid pattern matches nothing; the next one is still tried.
    let invalid = Config {
        host_routes: vec![],
        hostpass: vec![
            HostPass {
                process: "/usr/bin/***".to_string(),
            },
            HostPass {
                process: "/opt/[ab]pp".to_string(),
            },
        ],
    };
    assert!(!invalid.has_hostpass("/usr/bin/app"));
    assert!(invalid.has_hostpass("/opt/app"));
    assert!(!invalid.has_hostpass("/opt/cpp"));
}
