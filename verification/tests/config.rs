use weiback::config::{
    config_file_candidates, find_config_file, get_config, init, init_default, save_config,
    save_path, Config, ConfigCell,
};
use weiback::error::Error;

#[test]
fn default_paths_use_the_next_namespace() {
    let config = Config::from_roots("config-root", "data-root");

    assert_eq!(config.db_path, "data-root/weiback-next/weiback.db");
    assert_eq!(config.session_path, "config-root/weiback-next/session.json");
    assert_eq!(config.picture_path, "data-root/weiback-next/media/pictures");
    assert_eq!(config.video_path, "data-root/weiback-next/media/videos");
}

#[test]
fn config_candidates_never_include_the_legacy_namespace() {
    let candidates = config_file_candidates("config-local", "config", "bin");

    assert_eq!(
        candidates,
        [
            "config-local/weiback-next/config.toml",
            "config/weiback-next/config.toml",
            "bin/weiback-next/config.toml",
        ]
    );
    assert!(candidates.iter().all(|path| !path.contains("weiback/config.toml")));
}

#[test]
fn first_existing_candidate_is_taken() {
    let candidates = config_file_candidates("a", "b", "c");
    assert_eq!(find_config_file(&candidates, &[false, false, false]), None);
    assert_eq!(
        find_config_file(&candidates, &[false, true, true]).as_deref(),
        Some("b/weiback-next/config.toml")
    );
    assert_eq!(save_path(Some("x.toml".into()), "local"), "x.toml");
    assert_eq!(save_path(None, "local"), "local/weiback-next/config.toml");
}

#[test]
fn settings_are_set_by_force_and_saved_over() {
    let mut other = Config::from_roots("x", "y");
    other.posts_count = 7;
    let mut cell = ConfigCell { current: None };
    assert!(matches!(init(&mut cell, Err(Error::Io("gone".into()))), Err(Error::Io(_))));
    init(&mut cell, Ok(Config::from_roots("a", "b"))).unwrap();
    init(&mut cell, Ok(Config::from_roots("g", "h"))).unwrap();
    assert_eq!(
        get_config(&mut cell, Ok(None), Config::from_roots("e", "f")).db_path,
        "b/weiback-next/weiback.db"
    );
    init_default(&mut cell, Config::from_roots("c", "d"));
    assert_eq!(
        get_config(&mut cell, Ok(None), Config::from_roots("e", "f")).db_path,
        "d/weiback-next/weiback.db"
    );
    save_config(&mut cell, other);
    assert_eq!(get_config(&mut cell, Ok(None), Config::from_roots("e", "f")).posts_count, 7);
}

#[test]
fn defaults_hold_where_nothing_is_found() {
    let mut cell = ConfigCell { current: None };
    let config = get_config(&mut cell, Ok(None), Config::from_roots("e", "f"));
    assert_eq!(config.session_path, "e/weiback-next/session.json");
    assert_eq!(config.posts_per_html, 200);
    assert_eq!(config.backup_task_interval_secs, 3);
}
