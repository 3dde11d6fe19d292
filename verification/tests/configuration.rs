use linkura::config::{
    push_path, startup_action, ConfigLoad, ConfigManager, Credential, StartupAction, VersionChange, DEFAULT_MRS_PORT,
};

#[test]
fn path_push_like_pathbuf() {
    assert_eq!(push_path(&"/home/u".to_string(), ".config"), "/home/u/.config");
    assert_eq!(push_path(&"/home/u/".to_string(), ".config"), "/home/u/.config");
    assert_eq!(push_path(&String::new(), "a"), "a");
    assert_eq!(push_path(&"/tmp".to_string(), "/etc"), "/etc");
    let mut p = std::path::PathBuf::from("/home/u");
    p.push(".config");
    p.push("linkura-cli");
    p.push("config.json");
    let m = ConfigManager::new(None, Some("/home/u".to_string()));
    assert_eq!(m.home_dir_config_path(), p.to_str().unwrap());
}

#[test]
fn new_manager_uses_home_config() {
    let m = ConfigManager::new(Some("my.json".to_string()), Some("/root".to_string()));
    assert_eq!(m.home_dir_config_path(), "/root/.config/linkura-cli/config.json");
    assert_eq!(m.current_dir_config_path(), "linkura-cli_config.json");
    assert_eq!(m.args_config_path(), Some(&"my.json".to_string()));
    assert_eq!(m.get_config_path(), "/root/.config/linkura-cli/config.json");
}

#[test]
fn config_priority() {
    let mut m = ConfigManager::new(Some("my.json".to_string()), Some("/h".to_string()));
    assert_eq!(m.choose_config_path(true, true, true), Some("my.json".to_string()));
    assert_eq!(m.get_config_path(), "my.json");

    let mut m = ConfigManager::new(Some("my.json".to_string()), Some("/h".to_string()));
    assert_eq!(m.choose_config_path(false, true, true), Some("linkura-cli_config.json".to_string()));
    assert_eq!(m.get_config_path(), "linkura-cli_config.json");

    let mut m = ConfigManager::new(None, Some("/h".to_string()));
    assert_eq!(m.choose_config_path(true, false, true), Some("/h/.config/linkura-cli/config.json".to_string()));

    let mut m = ConfigManager::new(None, Some("/h".to_string()));
    assert_eq!(m.choose_config_path(false, false, false), None);
    assert_eq!(m.get_config_path(), "/h/.config/linkura-cli/config.json");
}

#[test]
fn startup_decisions() {
    assert_eq!(startup_action(ConfigLoad::Failed, false), StartupAction::CreateCredential);
    assert_eq!(startup_action(ConfigLoad::Failed, true), StartupAction::CreateCredential);
    assert_eq!(startup_action(ConfigLoad::Missing, false), StartupAction::CreateCredential);
    assert_eq!(startup_action(ConfigLoad::Found, false), StartupAction::CheckVersions);
    assert_eq!(startup_action(ConfigLoad::Found, true), StartupAction::UseStored);
}

fn credential() -> Credential {
    Credential {
        player_id: "p".to_string(),
        device_specific_id: "d".to_string(),
        session_token: Some("s".to_string()),
        res_version: "R1".to_string(),
        client_version: "1.0.0".to_string(),
    }
}

#[test]
fn version_check_updates_changed_versions() {
    let mut c = credential();
    let (res, client) = c.apply_versions(Some("R2".to_string()), Some("1.0.0".to_string()));
    assert_eq!(res, Some(VersionChange { from: "R1".to_string(), to: "R2".to_string() }));
    assert_eq!(client, None);
    assert_eq!(c.res_version, "R2");
    assert_eq!(c.client_version, "1.0.0");
    assert_eq!(c.player_id, "p");
    assert_eq!(c.session_token, Some("s".to_string()));

    let (res, client) = c.apply_versions(None, Some("2.0.0".to_string()));
    assert_eq!(res, None);
    assert_eq!(client, Some(VersionChange { from: "1.0.0".to_string(), to: "2.0.0".to_string() }));
    assert_eq!(c.res_version, "R2");
    assert_eq!(c.client_version, "2.0.0");
}

#[test]
fn version_check_is_idempotent() {
    let mut c = credential();
    c.apply_versions(Some("R9".to_string()), Some("9.9.9".to_string()));
    let after_first = c.clone();
    let (res, client) = c.apply_versions(Some("R9".to_string()), Some("9.9.9".to_string()));
    assert_eq!((res, client), (None, None));
    assert_eq!(c, after_first);
}

#[test]
fn archive_limit_defaults_to_four() {
    let given = linkura::config::ArgsArchive { save_json: None, limit: Some(10) };
    assert_eq!(given.archive_limit(), 10);
    let absent = linkura::config::ArgsArchive { save_json: None, limit: None };
    assert_eq!(absent.archive_limit(), 4);
}

#[test]
fn mrs_default_port() {
    assert_eq!(DEFAULT_MRS_PORT, 21011);
}
