use vstd::prelude::*;
use vstd::string::*;

use crate::error::AppError;
use crate::paths::{
    expand_override, join_path, lemma_trimmed_idempotent, opt_str_view, opt_view, path_join,
    resolve_override_path, trim, trimmed,
};

verus! {

/// The external CLI tools whose configuration is managed.
#[derive(Debug, Clone, Copy, PartialEq, Eq, Hash, Structural)]
pub enum AppType {
    Claude,
    Codex,
    Gemini,
    OpenCode,
}

/// A custom endpoint record kept for compatibility with older settings files.
#[derive(Debug, Clone)]
pub struct CustomEndpoint {
    pub url: String,
    pub added_at: i64,
    pub last_used: Option<i64>,
}

/// Device-level settings, persisted as one JSON file.
#[derive(Debug, Clone, PartialEq, Eq)]
pub struct AppSettings {
    pub show_in_tray: bool,
    pub minimize_to_tray_on_close: bool,
    pub enable_claude_plugin_integration: bool,
    pub skip_claude_onboarding: bool,
    pub launch_on_startup: bool,
    pub language: Option<String>,
    /// Whether configured directory overrides take effect.
    pub enable_config_dir_overrides: bool,
    /// Whether a provider switch also mirrors the live files into the other directory.
    pub sync_provider_switch_to_both_config_dirs: bool,
    pub claude_config_dir: Option<String>,
    pub codex_config_dir: Option<String>,
    pub gemini_config_dir: Option<String>,
    pub opencode_config_dir: Option<String>,
    pub current_provider_claude: Option<String>,
    pub current_provider_codex: Option<String>,
    pub current_provider_gemini: Option<String>,
    pub current_provider_opencode: Option<String>,
}

/// The settings record with strings seen as character sequences.
pub struct SettingsView {
    pub show_in_tray: bool,
    pub minimize_to_tray_on_close: bool,
    pub enable_claude_plugin_integration: bool,
    pub skip_claude_onboarding: bool,
    pub launch_on_startup: bool,
    pub language: Option<Seq<char>>,
    pub enable_config_dir_overrides: bool,
    pub sync_provider_switch_to_both_config_dirs: bool,
    pub claude_config_dir: Option<Seq<char>>,
    pub codex_config_dir: Option<Seq<char>>,
    pub gemini_config_dir: Option<Seq<char>>,
    pub opencode_config_dir: Option<Seq<char>>,
    pub current_provider_claude: Option<Seq<char>>,
    pub current_provider_codex: Option<Seq<char>>,
    pub current_provider_gemini: Option<Seq<char>>,
    pub current_provider_opencode: Option<Seq<char>>,
}

impl View for AppSettings {
    type V = SettingsView;

    open spec fn view(&self) -> SettingsView {
        SettingsView {
            show_in_tray: self.show_in_tray,
            minimize_to_tray_on_close: self.minimize_to_tray_on_close,
            enable_claude_plugin_integration: self.enable_claude_plugin_integration,
            skip_claude_onboarding: self.skip_claude_onboarding,
            launch_on_startup: self.launch_on_startup,
            language: opt_view(self.language),
            enable_config_dir_overrides: self.enable_config_dir_overrides,
            sync_provider_switch_to_both_config_dirs: self.sync_provider_switch_to_both_config_dirs,
            claude_config_dir: opt_view(self.claude_config_dir),
            codex_config_dir: opt_view(self.codex_config_dir),
            gemini_config_dir: opt_view(self.gemini_config_dir),
            opencode_config_dir: opt_view(self.opencode_config_dir),
            current_provider_claude: opt_view(self.current_provider_claude),
            current_provider_codex: opt_view(self.current_provider_codex),
            current_provider_gemini: opt_view(self.current_provider_gemini),
            current_provider_opencode: opt_view(self.current_provider_opencode),
        }
    }
}

/// A path setting after normalization: trimmed, and unset when blank.
pub open spec fn norm_path(o: Option<Seq<char>>) -> Option<Seq<char>> {
    match o {
        Some(s) => if trimmed(s).len() == 0 {
            None
        } else {
            Some(trimmed(s))
        },
        None => None,
    }
}

/// The interface languages a settings file may select.
pub open spec fn supported_language(s: Seq<char>) -> bool {
    s == seq!['e', 'n'] || s == seq!['z', 'h'] || s == seq!['j', 'a']
}

/// A language setting after normalization: trimmed, and unset unless supported.
pub open spec fn norm_language(o: Option<Seq<char>>) -> Option<Seq<char>> {
    match o {
        Some(s) => if supported_language(trimmed(s)) {
            Some(trimmed(s))
        } else {
            None
        },
        None => None,
    }
}

/// The settings of a fresh installation.
pub open spec fn default_settings() -> SettingsView {
    SettingsView {
        show_in_tray: true,
        minimize_to_tray_on_close: true,
        enable_claude_plugin_integration: false,
        skip_claude_onboarding: true,
        launch_on_startup: false,
        language: None,
        enable_config_dir_overrides: true,
        sync_provider_switch_to_both_config_dirs: false,
        claude_config_dir: None,
        codex_config_dir: None,
        gemini_config_dir: None,
        opencode_config_dir: None,
        current_provider_claude: None,
        current_provider_codex: None,
        current_provider_gemini: None,
        current_provider_opencode: None,
    }
}

impl SettingsView {
    /// The record with path settings and the language normalized.
    pub open spec fn normalized(self) -> SettingsView {
        SettingsView {
            language: norm_language(self.language),
            claude_config_dir: norm_path(self.claude_config_dir),
            codex_config_dir: norm_path(self.codex_config_dir),
            gemini_config_dir: norm_path(self.gemini_config_dir),
            opencode_config_dir: norm_path(self.opencode_config_dir),
            ..self
        }
    }

    /// The override directory configured for `app`, as written.
    pub open spec fn config_dir(self, app: AppType) -> Option<Seq<char>> {
        match app {
            AppType::Claude => self.claude_config_dir,
            AppType::Codex => self.codex_config_dir,
            AppType::Gemini => self.gemini_config_dir,
            AppType::OpenCode => self.opencode_config_dir,
        }
    }

    /// The cached current provider id of `app`.
    pub open spec fn current_provider(self, app: AppType) -> Option<Seq<char>> {
        match app {
            AppType::Claude => self.current_provider_claude,
            AppType::Codex => self.current_provider_codex,
            AppType::Gemini => self.current_provider_gemini,
            AppType::OpenCode => self.current_provider_opencode,
        }
    }

    /// The record with the cached current provider of `app` replaced by `id`.
    pub open spec fn with_current_provider(self, app: AppType, id: Option<Seq<char>>) -> SettingsView {
        match app {
            AppType::Claude => SettingsView { current_provider_claude: id, ..self },
            AppType::Codex => SettingsView { current_provider_codex: id, ..self },
            AppType::Gemini => SettingsView { current_provider_gemini: id, ..self },
            AppType::OpenCode => SettingsView { current_provider_opencode: id, ..self },
        }
    }

    /// The configured override directory of `app`, expanded, whether or not
    /// overrides are enabled.
    pub open spec fn configured_dir(self, app: AppType, home: Option<Seq<char>>) -> Option<Seq<char>> {
        match self.config_dir(app) {
            Some(p) => Some(expand_override(p, home)),
            None => None,
        }
    }

    /// The override directory of `app` that takes effect: none while overrides
    /// are disabled.
    pub open spec fn override_dir(self, app: AppType, home: Option<Seq<char>>) -> Option<Seq<char>> {
        if self.enable_config_dir_overrides {
            self.configured_dir(app, home)
        } else {
            None
        }
    }
}

proof fn lemma_norm_path_idempotent(o: Option<Seq<char>>)
    ensures
        norm_path(norm_path(o)) == norm_path(o),
{
    if let Some(s) = o {
        lemma_trimmed_idempotent(s);
    }
}

proof fn lemma_norm_language_idempotent(o: Option<Seq<char>>)
    ensures
        norm_language(norm_language(o)) == norm_language(o),
{
    if let Some(s) = o {
        lemma_trimmed_idempotent(s);
    }
}

/// Normalizing a normalized settings record changes nothing, so a record
/// read back from the settings file is the record that was saved.
pub proof fn lemma_normalized_idempotent(v: SettingsView)
    ensures
        v.normalized().normalized() == v.normalized(),
{
    lemma_norm_language_idempotent(v.language);
    lemma_norm_path_idempotent(v.claude_config_dir);
    lemma_norm_path_idempotent(v.codex_config_dir);
    lemma_norm_path_idempotent(v.gemini_config_dir);
    lemma_norm_path_idempotent(v.opencode_config_dir);
}

/// Default of `show_in_tray` when a settings file omits it.
pub fn default_show_in_tray() -> (r: bool)
    ensures
        r,
{
    true
}

/// Default of `minimize_to_tray_on_close` when a settings file omits it.
pub fn default_minimize_to_tray_on_close() -> (r: bool)
    ensures
        r,
{
    true
}

/// Default of the settings that are on unless a settings file says otherwise.
pub fn default_true() -> (r: bool)
    ensures
        r,
{
    true
}

impl Default for AppSettings {
    fn default() -> (r: Self)
        ensures
            r@ == default_settings(),
    {
        AppSettings {
            show_in_tray: default_show_in_tray(),
            minimize_to_tray_on_close: default_minimize_to_tray_on_close(),
            enable_claude_plugin_integration: false,
            skip_claude_onboarding: default_true(),
            launch_on_startup: false,
            language: None,
            enable_config_dir_overrides: default_true(),
            sync_provider_switch_to_both_config_dirs: false,
            claude_config_dir: None,
            codex_config_dir: None,
            gemini_config_dir: None,
            opencode_config_dir: None,
            current_provider_claude: None,
            current_provider_codex: None,
            current_provider_gemini: None,
            current_provider_opencode: None,
        }
    }
}

fn copy_opt(o: &Option<String>) -> (r: Option<String>)
    ensures
        r == *o,
{
    match o {
        Some(s) => Some(s.clone()),
        None => None,
    }
}

fn normalize_dir(o: &Option<String>) -> (r: Option<String>)
    ensures
        opt_view(r) == norm_path(opt_view(*o)),
{
    match o {
        Some(s) => {
            let t = trim(s.as_str());
            if t.as_str().unicode_len() == 0 {
                None
            } else {
                Some(t)
            }
        },
        None => None,
    }
}

fn is_supported_language(s: &str) -> (r: bool)
    ensures
        r == supported_language(s@),
{
    let n = s.unicode_len();
    if n != 2 {
        return false;
    }
    let a = s.get_char(0);
    let b = s.get_char(1);
    let r = (a == 'e' && b == 'n') || (a == 'z' && b == 'h') || (a == 'j' && b == 'a');
    proof {
        if r {
            assert(s@ =~= seq![a, b]);
        }
    }
    r
}

fn normalize_language(o: &Option<String>) -> (r: Option<String>)
    ensures
        opt_view(r) == norm_language(opt_view(*o)),
{
    match o {
        Some(s) => {
            let t = trim(s.as_str());
            if is_supported_language(t.as_str()) {
                Some(t)
            } else {
                None
            }
        },
        None => None,
    }
}

impl AppSettings {
    /// A copy of the record.
    pub fn snapshot(&self) -> (r: AppSettings)
        ensures
            r == *self,
    {
        AppSettings {
            show_in_tray: self.show_in_tray,
            minimize_to_tray_on_close: self.minimize_to_tray_on_close,
            enable_claude_plugin_integration: self.enable_claude_plugin_integration,
            skip_claude_onboarding: self.skip_claude_onboarding,
            launch_on_startup: self.launch_on_startup,
            language: copy_opt(&self.language),
            enable_config_dir_overrides: self.enable_config_dir_overrides,
            sync_provider_switch_to_both_config_dirs: self.sync_provider_switch_to_both_config_dirs,
            claude_config_dir: copy_opt(&self.claude_config_dir),
            codex_config_dir: copy_opt(&self.codex_config_dir),
            gemini_config_dir: copy_opt(&self.gemini_config_dir),
            opencode_config_dir: copy_opt(&self.opencode_config_dir),
            current_provider_claude: copy_opt(&self.current_provider_claude),
            current_provider_codex: copy_opt(&self.current_provider_codex),
            current_provider_gemini: copy_opt(&self.current_provider_gemini),
            current_provider_opencode: copy_opt(&self.current_provider_opencode),
        }
    }

    /// Where the settings file lives: `<home>/.cc-switch/settings.json`, or
    /// nowhere when the home directory is unknown.
    pub fn settings_path(home: &Option<String>) -> (r: Option<String>)
        ensures
            opt_view(r) == match opt_view(*home) {
                Some(h) => Some(
                    path_join(
                        path_join(h, seq!['.', 'c', 'c', '-', 's', 'w', 'i', 't', 'c', 'h']),
                        seq!['s', 'e', 't', 't', 'i', 'n', 'g', 's', '.', 'j', 's', 'o', 'n'],
                    ),
                ),
                None => None,
            },
    {
        match home {
            Some(h) => {
                let dir_name = ".cc-switch";
                let file_name = "settings.json";
                proof {
                    reveal_strlit(".cc-switch");
                    reveal_strlit("settings.json");
                }
                let dir = join_path(h.as_str(), dir_name);
                Some(join_path(dir.as_str(), file_name))
            },
            None => None,
        }
    }

    /// Trims the override paths, unsets blank ones, and keeps the language
    /// only when it is a supported one.
    pub fn normalize_paths(&mut self)
        ensures
            final(self)@ == old(self)@.normalized(),
    {
        self.claude_config_dir = normalize_dir(&self.claude_config_dir);
        self.codex_config_dir = normalize_dir(&self.codex_config_dir);
        self.gemini_config_dir = normalize_dir(&self.gemini_config_dir);
        self.opencode_config_dir = normalize_dir(&self.opencode_config_dir);
        self.language = normalize_language(&self.language);
    }

    /// The settings in effect after loading the settings file: the parsed
    /// record, normalized, or the defaults when the file is missing or does
    /// not parse (`None`).
    pub fn load_from_file(parsed: Option<AppSettings>) -> (r: AppSettings)
        ensures
            r@ == match parsed {
                Some(s) => s@.normalized(),
                None => default_settings(),
            },
    {
        match parsed {
            Some(s) => {
                let mut s = s;
                s.normalize_paths();
                s
            },
            None => AppSettings::default(),
        }
    }
}

/// The in-memory copy of the settings record.
pub struct SettingsStore {
    settings: AppSettings,
}

impl View for SettingsStore {
    type V = SettingsView;

    closed spec fn view(&self) -> SettingsView {
        self.settings@
    }
}

impl SettingsStore {
    /// A store holding `initial`, normalized.
    pub fn new(initial: AppSettings) -> (r: SettingsStore)
        ensures
            r@ == initial@.normalized(),
    {
        let mut s = initial;
        s.normalize_paths();
        SettingsStore { settings: s }
    }
}

/// A copy of the cached settings record.
pub fn get_settings(store: &SettingsStore) -> (r: AppSettings)
    ensures
        r@ == store@,
{
    store.settings.snapshot()
}

/// Replaces the cached record with `new_settings`, normalized, once it has
/// been persisted. `saved` is the outcome of writing
/// `new_settings` (normalized) to the settings file; on failure the cache is
/// left as it was and the failure is returned.
pub fn update_settings(store: &mut SettingsStore, new_settings: AppSettings, saved: Result<(), AppError>) -> (r: Result<(), AppError>)
    ensures
        r == saved,
        saved is Ok ==> final(store)@ == new_settings@.normalized(),
        saved is Err ==> final(store)@ == old(store)@,
{
    if saved.is_ok() {
        let mut s = new_settings;
        s.normalize_paths();
        store.settings = s;
    }
    saved
}

/// Replaces the cached record with what the settings file holds now
/// (`loaded`, as for `AppSettings::load_from_file`), discarding any
/// unpersisted state.
pub fn reload_settings(store: &mut SettingsStore, loaded: Option<AppSettings>) -> (r: Result<(), AppError>)
    ensures
        r is Ok,
        final(store)@ == match loaded {
            Some(s) => s@.normalized(),
            None => default_settings(),
        },
{
    store.settings = AppSettings::load_from_file(loaded);
    Ok(())
}

fn config_dir_of<'a>(s: &'a AppSettings, app: &AppType) -> (r: &'a Option<String>)
    ensures
        opt_view(*r) == s@.config_dir(*app),
{
    match app {
        AppType::Claude => &s.claude_config_dir,
        AppType::Codex => &s.codex_config_dir,
        AppType::Gemini => &s.gemini_config_dir,
        AppType::OpenCode => &s.opencode_config_dir,
    }
}

/// The configured override directory of `app`, expanded against `home`,
/// whether or not overrides are enabled.
pub fn get_override_dir_configured(store: &SettingsStore, app: &AppType, home: &Option<String>) -> (r: Option<String>)
    ensures
        opt_view(r) == store@.configured_dir(*app, opt_view(*home)),
{
    match config_dir_of(&store.settings, app) {
        Some(p) => Some(resolve_override_path(p.as_str(), home)),
        None => None,
    }
}

/// The override directory of `app` in effect: `None` while overrides are
/// disabled or none is configured.
pub fn get_override_dir(store: &SettingsStore, app: &AppType, home: &Option<String>) -> (r: Option<String>)
    ensures
        opt_view(r) == store@.override_dir(*app, opt_view(*home)),
{
    if !store.settings.enable_config_dir_overrides {
        return None;
    }
    get_override_dir_configured(store, app, home)
}

/// `get_override_dir` for the tool this function is named after.
pub fn get_claude_override_dir(store: &SettingsStore, home: &Option<String>) -> (r: Option<String>)
    ensures
        opt_view(r) == store@.override_dir(AppType::Claude, opt_view(*home)),
{
    get_override_dir(store, &AppType::Claude, home)
}

/// `get_override_dir_configured` for the tool this function is named after.
pub fn get_claude_override_dir_configured(store: &SettingsStore, home: &Option<String>) -> (r: Option<String>)
    ensures
        opt_view(r) == store@.configured_dir(AppType::Claude, opt_view(*home)),
{
    get_override_dir_configured(store, &AppType::Claude, home)
}

/// The override directory in effect for `AppType::Codex`.
pub fn get_codex_override_dir(store: &SettingsStore, home: &Option<String>) -> (r: Option<String>)
    ensures
        opt_view(r) == store@.override_dir(AppType::Codex, opt_view(*home)),
{
    get_override_dir(store, &AppType::Codex, home)
}

/// The override directory configured for `AppType::Codex`.
pub fn get_codex_override_dir_configured(store: &SettingsStore, home: &Option<String>) -> (r: Option<String>)
    ensures
        opt_view(r) == store@.configured_dir(AppType::Codex, opt_view(*home)),
{
    get_override_dir_configured(store, &AppType::Codex, home)
}

/// The override directory in effect for `AppType::Gemini`.
pub fn get_gemini_override_dir(store: &SettingsStore, home: &Option<String>) -> (r: Option<String>)
    ensures
        opt_view(r) == store@.override_dir(AppType::Gemini, opt_view(*home)),
{
    get_override_dir(store, &AppType::Gemini, home)
}

/// The override directory configured for `AppType::Gemini`.
pub fn get_gemini_override_dir_configured(store: &SettingsStore, home: &Option<String>) -> (r: Option<String>)
    ensures
        opt_view(r) == store@.configured_dir(AppType::Gemini, opt_view(*home)),
{
    get_override_dir_configured(store, &AppType::Gemini, home)
}

/// The override directory in effect for `AppType::OpenCode`.
pub fn get_opencode_override_dir(store: &SettingsStore, home: &Option<String>) -> (r: Option<String>)
    ensures
        opt_view(r) == store@.override_dir(AppType::OpenCode, opt_view(*home)),
{
    get_override_dir(store, &AppType::OpenCode, home)
}

/// The override directory configured for `AppType::OpenCode`.
pub fn get_opencode_override_dir_configured(store: &SettingsStore, home: &Option<String>) -> (r: Option<String>)
    ensures
        opt_view(r) == store@.configured_dir(AppType::OpenCode, opt_view(*home)),
{
    get_override_dir_configured(store, &AppType::OpenCode, home)
}

/// Whether configured directory overrides take effect.
pub fn config_dir_overrides_enabled(store: &SettingsStore) -> (r: bool)
    ensures
        r == store@.enable_config_dir_overrides,
{
    store.settings.enable_config_dir_overrides
}

/// Whether a provider switch mirrors the live files into both directories.
pub fn sync_provider_switch_to_both_config_dirs_enabled(store: &SettingsStore) -> (r: bool)
    ensures
        r == store@.sync_provider_switch_to_both_config_dirs,
{
    store.settings.sync_provider_switch_to_both_config_dirs
}

fn current_provider_of<'a>(s: &'a AppSettings, app: &AppType) -> (r: &'a Option<String>)
    ensures
        opt_view(*r) == s@.current_provider(*app),
{
    match app {
        AppType::Claude => &s.current_provider_claude,
        AppType::Codex => &s.current_provider_codex,
        AppType::Gemini => &s.current_provider_gemini,
        AppType::OpenCode => &s.current_provider_opencode,
    }
}

/// The provider id cached as current for `app_type`, if any. When there is
/// none, callers fall back to the registry's own notion of current.
pub fn get_current_provider(store: &SettingsStore, app_type: &AppType) -> (r: Option<String>)
    ensures
        opt_view(r) == store@.current_provider(*app_type),
{
    copy_opt(current_provider_of(&store.settings, app_type))
}

/// The settings record that caches `id` as the current provider of
/// `app_type` (`None` clears it), normalized: the record to persist before
/// calling `set_current_provider`.
pub fn current_provider_update(store: &SettingsStore, app_type: &AppType, id: Option<&str>) -> (r: AppSettings)
    ensures
        r@ == store@.with_current_provider(*app_type, opt_str_view(id)).normalized(),
{
    let mut s = store.settings.snapshot();
    let v: Option<String> = match id {
        Some(x) => Some(String::from_str(x)),
        None => None,
    };
    match app_type {
        AppType::Claude => s.current_provider_claude = v,
        AppType::Codex => s.current_provider_codex = v,
        AppType::Gemini => s.current_provider_gemini = v,
        AppType::OpenCode => s.current_provider_opencode = v,
    }
    s.normalize_paths();
    s
}

/// Caches `id` as the current provider of `app_type` (`None` clears it).
/// `saved` is the outcome of persisting `current_provider_update(store,
/// app_type, id)`; on failure the cache is left as it was.
pub fn set_current_provider(store: &mut SettingsStore, app_type: &AppType, id: Option<&str>, saved: Result<(), AppError>) -> (r: Result<(), AppError>)
    ensures
        r == saved,
        saved is Ok ==> final(store)@ == old(store)@.with_current_provider(*app_type, opt_str_view(id)).normalized(),
        saved is Err ==> final(store)@ == old(store)@,
{
    let next = current_provider_update(store, app_type, id);
    proof {
        lemma_normalized_idempotent(old(store)@.with_current_provider(*app_type, opt_str_view(id)));
    }
    update_settings(store, next, saved)
}

/// What the provider registry is asked.
#[derive(Debug, Clone, Copy, PartialEq, Eq, Structural)]
pub enum RegistryQuery {
    /// The ids of all providers of the tool.
    ProviderIds,
    /// The provider that the registry marks as current for the tool.
    CurrentProvider,
}

/// What the caller of a current-provider lookup does next.
#[derive(Debug)]
pub enum LookupAction {
    /// Ask the registry, then hand the answer to `step`.
    Query(RegistryQuery),
    /// Persist this settings record, then hand the outcome to `step`.
    Save(AppSettings),
    /// The lookup is over, with this answer.
    Done(Result<Option<String>, AppError>),
}

/// An answer handed back to a current-provider lookup.
#[derive(Debug)]
pub enum LookupEvent {
    ProviderIds(Result<Vec<String>, AppError>),
    Saved(Result<(), AppError>),
    CurrentProvider(Result<Option<String>, AppError>),
}

/// Where a current-provider lookup stands.
#[derive(Debug, PartialEq, Eq)]
pub enum LookupPhase {
    /// Checking the cached id against the registry's ids.
    AwaitIds(String),
    /// Persisting the record with the stale cached id cleared.
    AwaitSave,
    /// Asking the registry for its current provider.
    AwaitCurrent,
    Finished,
}

/// The resolution of the current provider of one tool: the cached id when the
/// registry still knows it, else the registry's current provider, clearing a
/// stale cached id on the way.
#[derive(Debug)]
pub struct EffectiveProviderLookup {
    pub app_type: AppType,
    pub phase: LookupPhase,
}

/// Whether some id in `ids` reads `id`.
pub open spec fn contains_id(ids: Seq<String>, id: Seq<char>) -> bool {
    exists|k: int| 0 <= k < ids.len() && (#[trigger] ids[k])@ == id
}

/// The first state and action of a lookup for `app` over the cached `store`.
pub open spec fn lookup_start(store: SettingsView, app: AppType, s: EffectiveProviderLookup, act: LookupAction) -> bool {
    &&& s.app_type == app
    &&& match store.current_provider(app) {
        Some(id) => s.phase is AwaitIds && s.phase->AwaitIds_0@ == id && act == LookupAction::Query(
            RegistryQuery::ProviderIds,
        ),
        None => s.phase == LookupPhase::AwaitCurrent && act == LookupAction::Query(
            RegistryQuery::CurrentProvider,
        ),
    }
}

impl EffectiveProviderLookup {
    /// Whether `ev` answers what the lookup last asked.
    pub open spec fn accepts(&self, ev: &LookupEvent) -> bool {
        match self.phase {
            LookupPhase::AwaitIds(_) => ev is ProviderIds,
            LookupPhase::AwaitSave => ev is Saved,
            LookupPhase::AwaitCurrent => ev is CurrentProvider,
            LookupPhase::Finished => false,
        }
    }

    /// One step of the lookup: from this state and cached `store`, event `ev`
    /// leads to state `post`, cached `post_store` and action `act`.
    pub open spec fn step_spec(
        self,
        store: SettingsView,
        ev: LookupEvent,
        post: EffectiveProviderLookup,
        post_store: SettingsView,
        act: LookupAction,
    ) -> bool {
        &&& post.app_type == self.app_type
        &&& match self.phase {
            LookupPhase::AwaitIds(id) => match ev {
                LookupEvent::ProviderIds(Ok(ids)) => if contains_id(ids@, id@) {
                    post.phase == LookupPhase::Finished && post_store == store && act
                        == LookupAction::Done(Ok(Some(id)))
                } else {
                    post.phase == LookupPhase::AwaitSave && post_store == store && act is Save
                        && act->Save_0@ == store.with_current_provider(self.app_type, None).normalized()
                },
                LookupEvent::ProviderIds(Err(e)) => post.phase == LookupPhase::Finished
                    && post_store == store && act == LookupAction::Done(Err(e)),
                _ => true,
            },
            LookupPhase::AwaitSave => match ev {
                LookupEvent::Saved(saved) => post.phase == LookupPhase::AwaitCurrent && act
                    == LookupAction::Query(RegistryQuery::CurrentProvider) && (if saved is Ok {
                    post_store == store.with_current_provider(self.app_type, None).normalized()
                } else {
                    post_store == store
                }),
                _ => true,
            },
            LookupPhase::AwaitCurrent => match ev {
                LookupEvent::CurrentProvider(r) => post.phase == LookupPhase::Finished
                    && post_store == store && act == LookupAction::Done(r),
                _ => true,
            },
            LookupPhase::Finished => true,
        }
    }

    /// Hands the answer `ev` to the lookup and returns what to do next.
    pub fn step(&mut self, store: &mut SettingsStore, ev: LookupEvent) -> (act: LookupAction)
        requires
            old(self).accepts(&ev),
        ensures
            old(self).step_spec(old(store)@, ev, *final(self), final(store)@, act),
    {
        let mut phase = LookupPhase::Finished;
        core::mem::swap(&mut phase, &mut self.phase);
        match phase {
            LookupPhase::AwaitIds(id) => match ev {
                LookupEvent::ProviderIds(Ok(ids)) => {
                    if contains_string(&ids, &id) {
                        LookupAction::Done(Ok(Some(id)))
                    } else {
                        self.phase = LookupPhase::AwaitSave;
                        LookupAction::Save(current_provider_update(store, &self.app_type, None))
                    }
                },
                LookupEvent::ProviderIds(Err(e)) => LookupAction::Done(Err(e)),
                _ => LookupAction::Done(Ok(None)),
            },
            LookupPhase::AwaitSave => match ev {
                LookupEvent::Saved(saved) => {
                    let _ = set_current_provider(store, &self.app_type, None, saved);
                    self.phase = LookupPhase::AwaitCurrent;
                    LookupAction::Query(RegistryQuery::CurrentProvider)
                },
                _ => LookupAction::Done(Ok(None)),
            },
            LookupPhase::AwaitCurrent => match ev {
                LookupEvent::CurrentProvider(r) => LookupAction::Done(r),
                _ => LookupAction::Done(Ok(None)),
            },
            LookupPhase::Finished => LookupAction::Done(Ok(None)),
        }
    }
}

fn contains_string(ids: &Vec<String>, id: &String) -> (r: bool)
    ensures
        r == contains_id(ids@, id@),
{
    let mut k: usize = 0;
    while k < ids.len()
        invariant
            k <= ids.len(),
            forall|j: int| 0 <= j < k ==> (#[trigger] ids@[j])@ != id@,
        decreases ids.len() - k,
    {
        if ids[k] == *id {
            return true;
        }
        k = k + 1;
    }
    false
}

/// Starts resolving the current provider of `app_type`: the cached id is
/// checked against the registry's ids when there is one, otherwise the
/// registry's current provider is asked for. Feed each answer to
/// `EffectiveProviderLookup::step` until it returns `LookupAction::Done`.
pub fn get_effective_current_provider(store: &SettingsStore, app_type: &AppType) -> (r: (EffectiveProviderLookup, LookupAction))
    ensures
        lookup_start(store@, *app_type, r.0, r.1),
{
    match get_current_provider(store, app_type) {
        Some(id) => (
            EffectiveProviderLookup { app_type: *app_type, phase: LookupPhase::AwaitIds(id) },
            LookupAction::Query(RegistryQuery::ProviderIds),
        ),
        None => (
            EffectiveProviderLookup { app_type: *app_type, phase: LookupPhase::AwaitCurrent },
            LookupAction::Query(RegistryQuery::CurrentProvider),
        ),
    }
}

/// A cached current provider that the registry no longer lists is not
/// trusted: the lookup ends with the registry's own current provider
/// (whatever the registry answered), and once the record with the cached
/// id cleared has been saved, the cache names no provider for the tool.
pub proof fn lemma_stale_cached_provider_is_cleared(
    store0: SettingsView,
    app: AppType,
    s0: EffectiveProviderLookup,
    a0: LookupAction,
    ids: Vec<String>,
    s1: EffectiveProviderLookup,
    store1: SettingsView,
    a1: LookupAction,
    s2: EffectiveProviderLookup,
    store2: SettingsView,
    a2: LookupAction,
    current: Result<Option<String>, AppError>,
    s3: EffectiveProviderLookup,
    store3: SettingsView,
    a3: LookupAction,
)
    requires
        store0.current_provider(app) is Some,
        !contains_id(ids@, store0.current_provider(app)->Some_0),
        lookup_start(store0, app, s0, a0),
        s0.step_spec(store0, LookupEvent::ProviderIds(Ok(ids)), s1, store1, a1),
        s1.step_spec(store1, LookupEvent::Saved(Ok(())), s2, store2, a2),
        s2.step_spec(store2, LookupEvent::CurrentProvider(current), s3, store3, a3),
    ensures
        a0 == LookupAction::Query(RegistryQuery::ProviderIds),
        a1 is Save,
        a1->Save_0@.current_provider(app) is None,
        a2 == LookupAction::Query(RegistryQuery::CurrentProvider),
        a3 == LookupAction::Done(current),
        s3.phase == LookupPhase::Finished,
        store3.current_provider(app) is None,
{
}

} // verus!
