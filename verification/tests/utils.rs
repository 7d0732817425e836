use honeybee::utils::{config_candidates, join_path};

#[test]
fn joining_paths() {
    assert_eq!(join_path("/home/me/.config", "honeybee/config.toml"), "/home/me/.config/honeybee/config.toml");
    assert_eq!(join_path("/etc/xdg/", "honeybee/config.toml"), "/etc/xdg/honeybee/config.toml");
    assert_eq!(join_path("", "a"), "a");
    assert_eq!(join_path("/tmp", "/etc/passwd"), "/etc/passwd");
}

#[test]
fn configuration_search_order() {
    let c = config_candidates(
        Some("/home/me/.config".into()),
        None,
        Some("/home/me".into()),
        vec![Some("/usr/local/share".into()), None, Some("/usr/share".into())],
        vec![Some("/etc/xdg".into())],
    );
    assert_eq!(
        c,
        vec![
            "/home/me/.config/honeybee/config.toml".to_string(),
            "/home/me/.honeybee.toml".to_string(),
            "/usr/local/share/honeybee/config.toml".to_string(),
            "/usr/share/honeybee/config.toml".to_string(),
            "/etc/xdg/honeybee/config.toml".to_string(),
        ]
    );
    assert!(config_candidates(None, None, None, vec![], vec![]).is_empty());
}
