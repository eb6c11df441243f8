//! Configuration transactions for switching the live provider profile of
//! external CLI tools: directory resolution with overrides, settings
//! normalization, a two-file write with rollback and mirroring, and the
//! self-healing lookup of the current provider.

pub mod codex_config;
pub mod error;
pub mod paths;
pub mod settings;
pub mod transaction;

pub use codex_config::{
    delete_codex_provider_config, get_codex_auth_path, get_codex_config_dir,
    get_codex_config_path, get_codex_provider_paths, read_and_validate_codex_config_text,
    sanitize_provider_name, validate_config_toml, write_codex_live_atomic,
};
pub use error::AppError;
pub use paths::{home_dir, home_dir_or_current, is_whitespace_char, join_path, resolve_override_path, trim};
pub use settings::{
    config_dir_overrides_enabled, current_provider_update, get_claude_override_dir,
    get_claude_override_dir_configured, get_codex_override_dir, get_codex_override_dir_configured,
    get_current_provider, get_effective_current_provider, get_gemini_override_dir,
    get_gemini_override_dir_configured, get_opencode_override_dir,
    get_opencode_override_dir_configured, get_override_dir, get_override_dir_configured,
    get_settings, reload_settings, set_current_provider,
    sync_provider_switch_to_both_config_dirs_enabled, update_settings, AppSettings, AppType,
    CustomEndpoint, EffectiveProviderLookup, LookupAction, LookupEvent, LookupPhase,
    RegistryQuery, SettingsStore,
};
pub use transaction::{FsReply, FsRequest, LiveWrite, PairTarget, Phase, WriteAction};
