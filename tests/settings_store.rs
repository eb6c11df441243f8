use cc_switch::{
    config_dir_overrides_enabled, current_provider_update, get_claude_override_dir,
    get_claude_override_dir_configured, get_codex_override_dir, get_codex_override_dir_configured,
    get_current_provider, get_effective_current_provider, get_gemini_override_dir,
    get_gemini_override_dir_configured, get_opencode_override_dir,
    get_opencode_override_dir_configured, get_settings, reload_settings, set_current_provider,
    sync_provider_switch_to_both_config_dirs_enabled, update_settings, AppError, AppSettings,
    AppType, LookupAction, LookupEvent, RegistryQuery, SettingsStore,
};

fn home() -> Option<String> {
    Some("/home/u".to_string())
}

fn store_with(settings: AppSettings) -> SettingsStore {
    let mut store = SettingsStore::new(AppSettings::default());
    update_settings(&mut store, settings, Ok(())).expect("update settings");
    store
}

#[test]
fn defaults_match_a_fresh_install() {
    let d = AppSettings::default();
    assert!(d.show_in_tray);
    assert!(d.minimize_to_tray_on_close);
    assert!(!d.enable_claude_plugin_integration);
    assert!(d.skip_claude_onboarding);
    assert!(!d.launch_on_startup);
    assert!(d.enable_config_dir_overrides);
    assert!(!d.sync_provider_switch_to_both_config_dirs);
    assert_eq!(d.language, None);
    assert_eq!(d.codex_config_dir, None);
    assert_eq!(d.current_provider_codex, None);
}

#[test]
fn normalize_trims_paths_and_filters_language() {
    let mut s = AppSettings::default();
    s.claude_config_dir = Some("  /c  ".to_string());
    s.codex_config_dir = Some("   ".to_string());
    s.gemini_config_dir = Some("".to_string());
    s.opencode_config_dir = Some("~/oc".to_string());
    s.language = Some(" ja ".to_string());
    s.normalize_paths();
    assert_eq!(s.claude_config_dir.as_deref(), Some("/c"));
    assert_eq!(s.codex_config_dir, None);
    assert_eq!(s.gemini_config_dir, None);
    assert_eq!(s.opencode_config_dir.as_deref(), Some("~/oc"));
    assert_eq!(s.language.as_deref(), Some("ja"));

    let mut t = AppSettings::default();
    t.language = Some("fr".to_string());
    t.normalize_paths();
    assert_eq!(t.language, None);
    let again = {
        let mut u = s.clone();
        u.normalize_paths();
        u
    };
    assert_eq!(again, s);
}

#[test]
fn load_falls_back_to_defaults() {
    assert_eq!(AppSettings::load_from_file(None), AppSettings::default());
    let mut parsed = AppSettings::default();
    parsed.codex_config_dir = Some(" /x ".to_string());
    parsed.language = Some("en".to_string());
    let loaded = AppSettings::load_from_file(Some(parsed));
    assert_eq!(loaded.codex_config_dir.as_deref(), Some("/x"));
    assert_eq!(loaded.language.as_deref(), Some("en"));
}

#[test]
fn settings_path_is_under_home() {
    assert_eq!(
        AppSettings::settings_path(&home()).as_deref(),
        Some("/home/u/.cc-switch/settings.json")
    );
    assert_eq!(AppSettings::settings_path(&None), None);
}

#[test]
fn failed_save_keeps_cache() {
    let mut store = SettingsStore::new(AppSettings::default());
    let mut s = AppSettings::default();
    s.codex_config_dir = Some("/x".to_string());
    let err = AppError::Io { path: "/home/u/.cc-switch/settings.json".to_string(), message: "denied".to_string() };
    assert_eq!(update_settings(&mut store, s.clone(), Err(err.clone())), Err(err));
    assert_eq!(get_settings(&store), AppSettings::default());
    assert_eq!(update_settings(&mut store, s, Ok(())), Ok(()));
    assert_eq!(get_settings(&store).codex_config_dir.as_deref(), Some("/x"));
}

#[test]
fn reload_replaces_unsaved_state() {
    let mut store = SettingsStore::new(AppSettings::default());
    let mut on_disk = AppSettings::default();
    on_disk.launch_on_startup = true;
    assert_eq!(reload_settings(&mut store, Some(on_disk.clone())), Ok(()));
    assert_eq!(get_settings(&store), on_disk);
    assert_eq!(reload_settings(&mut store, None), Ok(()));
    assert_eq!(get_settings(&store), AppSettings::default());
}

#[test]
fn override_getters_follow_enable_flag() {
    let mut s = AppSettings::default();
    s.claude_config_dir = Some("~/wsl/.cl".to_string());
    s.codex_config_dir = Some("~/wsl/.codex".to_string());
    s.gemini_config_dir = Some("/g".to_string());
    s.opencode_config_dir = Some("~".to_string());
    s.enable_config_dir_overrides = false;
    let store = store_with(s.clone());
    let h = home();
    assert!(!config_dir_overrides_enabled(&store));
    assert_eq!(get_claude_override_dir(&store, &h), None);
    assert_eq!(get_codex_override_dir(&store, &h), None);
    assert_eq!(get_gemini_override_dir(&store, &h), None);
    assert_eq!(get_opencode_override_dir(&store, &h), None);
    assert_eq!(get_claude_override_dir_configured(&store, &h).as_deref(), Some("/home/u/wsl/.cl"));
    assert_eq!(get_codex_override_dir_configured(&store, &h).as_deref(), Some("/home/u/wsl/.codex"));
    assert_eq!(get_gemini_override_dir_configured(&store, &h).as_deref(), Some("/g"));
    assert_eq!(get_opencode_override_dir_configured(&store, &h).as_deref(), Some("/home/u"));

    s.enable_config_dir_overrides = true;
    s.sync_provider_switch_to_both_config_dirs = true;
    let store = store_with(s);
    assert!(config_dir_overrides_enabled(&store));
    assert!(sync_provider_switch_to_both_config_dirs_enabled(&store));
    assert_eq!(get_codex_override_dir(&store, &h).as_deref(), Some("/home/u/wsl/.codex"));
    assert_eq!(get_opencode_override_dir(&store, &h).as_deref(), Some("/home/u"));
}

#[test]
fn current_provider_is_cached_per_tool() {
    let mut store = SettingsStore::new(AppSettings::default());
    let next = current_provider_update(&store, &AppType::Gemini, Some("p1"));
    assert_eq!(next.current_provider_gemini.as_deref(), Some("p1"));
    assert_eq!(set_current_provider(&mut store, &AppType::Gemini, Some("p1"), Ok(())), Ok(()));
    assert_eq!(get_current_provider(&store, &AppType::Gemini).as_deref(), Some("p1"));
    assert_eq!(get_current_provider(&store, &AppType::Codex), None);
    let err = AppError::Config("no home".to_string());
    assert_eq!(set_current_provider(&mut store, &AppType::Gemini, None, Err(err.clone())), Err(err));
    assert_eq!(get_current_provider(&store, &AppType::Gemini).as_deref(), Some("p1"));
    assert_eq!(set_current_provider(&mut store, &AppType::Gemini, None, Ok(())), Ok(()));
    assert_eq!(get_current_provider(&store, &AppType::Gemini), None);
}

fn cached_store(app: AppType, id: &str) -> SettingsStore {
    let mut store = SettingsStore::new(AppSettings::default());
    set_current_provider(&mut store, &app, Some(id), Ok(())).expect("cache id");
    store
}

#[test]
fn cached_provider_known_to_registry_wins() {
    let store0 = cached_store(AppType::Codex, "p1");
    let mut store = cached_store(AppType::Codex, "p1");
    let (mut lookup, act) = get_effective_current_provider(&store0, &AppType::Codex);
    assert!(matches!(act, LookupAction::Query(RegistryQuery::ProviderIds)));
    let act = lookup.step(&mut store, LookupEvent::ProviderIds(Ok(vec!["p0".to_string(), "p1".to_string()])));
    match act {
        LookupAction::Done(r) => assert_eq!(r, Ok(Some("p1".to_string()))),
        other => panic!("unexpected {other:?}"),
    }
}

#[test]
fn stale_cached_provider_is_cleared_and_registry_answers() {
    let mut store = cached_store(AppType::Claude, "gone");
    let (mut lookup, act) = get_effective_current_provider(&store, &AppType::Claude);
    assert!(matches!(act, LookupAction::Query(RegistryQuery::ProviderIds)));
    let act = lookup.step(&mut store, LookupEvent::ProviderIds(Ok(vec!["p2".to_string()])));
    let to_save = match act {
        LookupAction::Save(s) => s,
        other => panic!("unexpected {other:?}"),
    };
    assert_eq!(to_save.current_provider_claude, None);
    let act = lookup.step(&mut store, LookupEvent::Saved(Ok(())));
    assert!(matches!(act, LookupAction::Query(RegistryQuery::CurrentProvider)));
    assert_eq!(get_current_provider(&store, &AppType::Claude), None);
    let act = lookup.step(&mut store, LookupEvent::CurrentProvider(Ok(Some("p2".to_string()))));
    match act {
        LookupAction::Done(r) => assert_eq!(r, Ok(Some("p2".to_string()))),
        other => panic!("unexpected {other:?}"),
    }
}

#[test]
fn stale_cache_stays_when_clearing_cannot_be_saved() {
    let mut store = cached_store(AppType::Codex, "gone");
    let (mut lookup, _) = get_effective_current_provider(&store, &AppType::Codex);
    lookup.step(&mut store, LookupEvent::ProviderIds(Ok(Vec::new())));
    let err = AppError::Config("disk full".to_string());
    lookup.step(&mut store, LookupEvent::Saved(Err(err)));
    assert_eq!(get_current_provider(&store, &AppType::Codex).as_deref(), Some("gone"));
    match lookup.step(&mut store, LookupEvent::CurrentProvider(Ok(None))) {
        LookupAction::Done(r) => assert_eq!(r, Ok(None)),
        other => panic!("unexpected {other:?}"),
    }
}

#[test]
fn without_cache_registry_current_is_used() {
    let mut store = SettingsStore::new(AppSettings::default());
    let (mut lookup, act) = get_effective_current_provider(&store, &AppType::Gemini);
    assert!(matches!(act, LookupAction::Query(RegistryQuery::CurrentProvider)));
    match lookup.step(&mut store, LookupEvent::CurrentProvider(Ok(Some("g1".to_string())))) {
        LookupAction::Done(r) => assert_eq!(r, Ok(Some("g1".to_string()))),
        other => panic!("unexpected {other:?}"),
    }
}

#[test]
fn registry_failure_is_returned() {
    let mut store = cached_store(AppType::Codex, "p1");
    let (mut lookup, _) = get_effective_current_provider(&store, &AppType::Codex);
    let err = AppError::Database("locked".to_string());
    match lookup.step(&mut store, LookupEvent::ProviderIds(Err(err.clone()))) {
        LookupAction::Done(r) => assert_eq!(r, Err(err)),
        other => panic!("unexpected {other:?}"),
    }
    assert_eq!(get_current_provider(&store, &AppType::Codex).as_deref(), Some("p1"));
}
