use servo_bridge::build_profile::{is_production, profile_cfg_directives};

#[test]
fn production_profiles() {
    assert!(is_production("production"));
    assert!(is_production("production-stripped"));
    assert!(is_production("production-"));
    assert!(!is_production("release"));
    assert!(!is_production("debug"));
    assert!(!is_production("productionx"));
    assert!(!is_production("producti"));
    assert!(!is_production(""));
}

#[test]
fn directives_for_profiles() {
    assert_eq!(
        profile_cfg_directives("production-stripped"),
        vec![
            "cargo::rustc-check-cfg=cfg(servo_production)".to_string(),
            "cargo::rustc-check-cfg=cfg(servo_do_not_use_in_production)".to_string(),
            "cargo:rustc-cfg=servo_production".to_string(),
        ]
    );
    assert_eq!(
        profile_cfg_directives("release")[2],
        "cargo:rustc-cfg=servo_do_not_use_in_production"
    );
}
