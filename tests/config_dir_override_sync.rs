use cc_switch::{
    get_codex_auth_path, get_codex_config_path, get_codex_override_dir,
    get_codex_override_dir_configured, get_settings, update_settings, write_codex_live_atomic,
    AppError, AppSettings, FsReply, FsRequest, SettingsStore, WriteAction,
};
use std::collections::HashMap;
use std::path::PathBuf;

fn test_home() -> PathBuf {
    PathBuf::from("/tmp/cc-switch-test-home")
}

fn home_opt(home: &PathBuf) -> Option<String> {
    Some(home.to_string_lossy().to_string())
}

/// The record that is persisted to settings.json for `settings`.
fn persisted(settings: &AppSettings) -> AppSettings {
    let mut s = settings.clone();
    s.normalize_paths();
    s
}

#[test]
fn settings_override_toggle_preserves_configured_paths_and_switches_effective_dir() {
    let home = test_home();
    let h = home_opt(&home);
    let mut store = SettingsStore::new(AppSettings::default());

    let override_codex_dir = home.join("wsl").join(".codex");
    let override_codex_dir_str = override_codex_dir.to_string_lossy().to_string();

    let default_dir = home.join(".codex");

    let mut settings = AppSettings::default();
    settings.codex_config_dir = Some(override_codex_dir_str.clone());
    settings.enable_config_dir_overrides = false;
    settings.sync_provider_switch_to_both_config_dirs = false;
    let on_disk = persisted(&settings);
    update_settings(&mut store, settings, Ok(())).expect("update settings");

    assert_eq!(
        get_codex_override_dir(&store, &h).map(PathBuf::from),
        None,
        "override disabled should make override dir non-effective"
    );
    assert_eq!(
        get_codex_override_dir_configured(&store, &h).map(PathBuf::from),
        Some(override_codex_dir.clone()),
        "override dir should remain configured even when disabled"
    );

    assert_eq!(
        PathBuf::from(get_codex_auth_path(&store, &h)),
        default_dir.join("auth.json"),
        "override disabled should make default codex dir effective"
    );

    assert_eq!(
        on_disk.codex_config_dir.as_deref(),
        Some(override_codex_dir_str.as_str()),
        "settings.json should retain codexConfigDir"
    );
    assert_eq!(
        Some(on_disk.enable_config_dir_overrides),
        Some(false),
        "settings.json should reflect overrides disabled"
    );

    let mut settings = AppSettings::default();
    settings.codex_config_dir = Some(override_codex_dir_str);
    settings.enable_config_dir_overrides = true;
    settings.sync_provider_switch_to_both_config_dirs = false;
    update_settings(&mut store, settings, Ok(())).expect("re-enable overrides");

    assert_eq!(
        get_codex_override_dir(&store, &h).map(PathBuf::from),
        Some(override_codex_dir),
        "override enabled should make override dir effective"
    );
}

#[test]
fn config_dir_override_sync_override_toggle_preserves_configured_paths_and_switches_effective_dir() {
    let home = test_home();
    let h = home_opt(&home);
    let mut store = SettingsStore::new(AppSettings::default());

    let override_codex_dir = home.join("wsl").join(".codex");
    let override_codex_dir_str = override_codex_dir.to_string_lossy().to_string();

    let default_auth_path = home.join(".codex").join("auth.json");
    let override_auth_path = override_codex_dir.join("auth.json");

    let mut settings = AppSettings::default();
    settings.codex_config_dir = Some(override_codex_dir_str.clone());
    settings.enable_config_dir_overrides = false;
    settings.sync_provider_switch_to_both_config_dirs = false;
    let on_disk = persisted(&settings);
    update_settings(&mut store, settings, Ok(())).expect("update settings");

    assert_eq!(
        PathBuf::from(get_codex_auth_path(&store, &h)),
        default_auth_path,
        "override disabled should make default codex dir effective"
    );

    assert_eq!(
        on_disk.codex_config_dir.as_deref(),
        Some(override_codex_dir_str.as_str()),
        "settings.json should retain codexConfigDir"
    );
    assert_eq!(
        Some(on_disk.enable_config_dir_overrides),
        Some(false),
        "settings.json should reflect overrides disabled"
    );

    let mut settings = AppSettings::default();
    settings.codex_config_dir = Some(override_codex_dir_str);
    settings.enable_config_dir_overrides = true;
    settings.sync_provider_switch_to_both_config_dirs = false;
    update_settings(&mut store, settings, Ok(())).expect("re-enable overrides");

    assert_eq!(
        PathBuf::from(get_codex_auth_path(&store, &h)),
        override_auth_path,
        "override enabled should restore override codex dir effective"
    );
}

#[test]
fn toggling_overrides_twice_keeps_configured_dir() {
    let home = test_home();
    let h = home_opt(&home);
    let mut store = SettingsStore::new(AppSettings::default());
    let configured = "~/wsl/.codex";
    let expected_configured = home.join("wsl").join(".codex");
    let mut effective = Vec::new();
    for enabled in [true, false, true] {
        let mut s = get_settings(&store);
        s.codex_config_dir = Some(configured.to_string());
        s.enable_config_dir_overrides = enabled;
        update_settings(&mut store, s, Ok(())).expect("update settings");
        assert_eq!(
            get_codex_override_dir_configured(&store, &h).map(PathBuf::from),
            Some(expected_configured.clone())
        );
        effective.push(PathBuf::from(get_codex_config_path(&store, &h)));
    }
    assert_eq!(
        effective,
        vec![
            expected_configured.join("config.toml"),
            home.join(".codex").join("config.toml"),
            expected_configured.join("config.toml"),
        ]
    );
}

fn run_in_memory(files: &mut HashMap<String, Vec<u8>>, first: WriteAction, w: &mut cc_switch::LiveWrite) -> Result<(), AppError> {
    let mut act = first;
    loop {
        match act {
            WriteAction::Request(req) => {
                let reply = match req {
                    FsRequest::CreateDir(_) => FsReply::Succeeded,
                    FsRequest::Read(p) => match files.get(&p) {
                        Some(b) => FsReply::Contents(b.clone()),
                        None => FsReply::NotFound,
                    },
                    FsRequest::Write(p, b) => {
                        files.insert(p, b);
                        FsReply::Succeeded
                    }
                    FsRequest::Remove(p) => {
                        files.remove(&p);
                        FsReply::Succeeded
                    }
                };
                act = w.step(reply);
            }
            WriteAction::Finish { result, .. } => return result,
        }
    }
}

#[test]
fn codex_switch_respects_override_enable_and_syncs_to_both_dirs() {
    let home = test_home();
    let h = home_opt(&home);
    let default_dir = home.join(".codex");
    let override_dir = home.join("wsl").join(".codex");
    let key = |p: PathBuf| p.to_string_lossy().to_string();

    let override_dir_str = override_dir.to_string_lossy().to_string();
    let mut settings = AppSettings::default();
    settings.codex_config_dir = Some(override_dir_str.clone());
    settings.enable_config_dir_overrides = false;
    settings.sync_provider_switch_to_both_config_dirs = true;
    let on_disk = persisted(&settings);
    let mut store = SettingsStore::new(AppSettings::default());
    update_settings(&mut store, settings, Ok(())).expect("update settings");

    let mut files: HashMap<String, Vec<u8>> = HashMap::new();
    files.insert(key(default_dir.join("auth.json")), br#"{"OPENAI_API_KEY":"stale"}"#.to_vec());
    files.insert(key(default_dir.join("config.toml")), b"stale-config".to_vec());

    let auth = serde_json::to_vec_pretty(&serde_json::from_str::<serde_json::Value>(r#"{"OPENAI_API_KEY":"fresh-key"}"#).expect("auth json")).expect("serialize auth");
    let config = "[mcp_servers.latest]\ntype = \"stdio\"\ncommand = \"say\"\n";
    let (mut w, first) = write_codex_live_atomic(&store, &h, auth, Some(config.to_string())).expect("valid config");
    run_in_memory(&mut files, first, &mut w).expect("switch provider should succeed");

    assert_eq!(
        PathBuf::from(get_codex_auth_path(&store, &h)),
        default_dir.join("auth.json"),
        "when overrides disabled, codex auth path should use default dir"
    );
    assert_eq!(
        PathBuf::from(get_codex_config_path(&store, &h)),
        default_dir.join("config.toml"),
        "when overrides disabled, codex config path should use default dir"
    );

    let default_auth: serde_json::Value =
        serde_json::from_slice(&files[&key(default_dir.join("auth.json"))]).expect("read default auth.json");
    assert_eq!(
        default_auth.get("OPENAI_API_KEY").and_then(|v| v.as_str()),
        Some("fresh-key"),
        "default auth.json should reflect switched provider"
    );
    let default_config = String::from_utf8(files[&key(default_dir.join("config.toml"))].clone()).expect("read default config");
    assert!(default_config.contains("mcp_servers.latest"), "default config should contain provider config");

    let override_auth: serde_json::Value =
        serde_json::from_slice(&files[&key(override_dir.join("auth.json"))]).expect("read override auth.json");
    assert_eq!(
        override_auth.get("OPENAI_API_KEY").and_then(|v| v.as_str()),
        Some("fresh-key"),
        "override auth.json should be synced"
    );
    let override_config = String::from_utf8(files[&key(override_dir.join("config.toml"))].clone()).expect("read override config");
    assert!(override_config.contains("mcp_servers.latest"), "override config should contain provider config");

    assert_eq!(
        on_disk.codex_config_dir.as_deref(),
        Some(override_dir_str.as_str()),
        "stored override path should be preserved even when disabled"
    );
    assert!(!on_disk.enable_config_dir_overrides, "override enable flag should persist");
    assert!(on_disk.sync_provider_switch_to_both_config_dirs, "sync flag should persist");
    assert_eq!(get_settings(&store), on_disk);
}
