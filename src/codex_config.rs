use vstd::prelude::*;
use vstd::string::*;

use crate::error::AppError;
use crate::paths::{
    expand_override, home_dir_or_current, home_or_current, join_path, opt_str_view, opt_view,
    path_join, trim, trimmed,
};
use crate::settings::{
    get_codex_override_dir, get_codex_override_dir_configured,
    norm_path, sync_provider_switch_to_both_config_dirs_enabled, AppType, SettingsStore,
    SettingsView,
};
use crate::transaction::{
    targets_distinct, ActionView, FsRequest, LiveWrite, PairPaths, PairTarget,
    RequestView, WriteAction,
};

verus! {

pub open spec fn codex_dir_name() -> Seq<char> {
    seq!['.', 'c', 'o', 'd', 'e', 'x']
}

pub open spec fn auth_file_name() -> Seq<char> {
    seq!['a', 'u', 't', 'h', '.', 'j', 's', 'o', 'n']
}

pub open spec fn config_file_name() -> Seq<char> {
    seq!['c', 'o', 'n', 'f', 'i', 'g', '.', 't', 'o', 'm', 'l']
}

/// The default Codex directory: `.codex` under the home directory (or under
/// the current directory when the home directory is unknown).
pub open spec fn default_codex_dir(home: Option<Seq<char>>) -> Seq<char> {
    path_join(home_or_current(home), codex_dir_name())
}

/// The effective Codex directory: the override in effect, else the default.
pub open spec fn codex_dir(store: SettingsView, home: Option<Seq<char>>) -> Seq<char> {
    match store.override_dir(AppType::Codex, home) {
        Some(d) => d,
        None => default_codex_dir(home),
    }
}

/// The directory that mirrors the effective one `primary`: when mirroring is
/// on and an override is configured, whichever of the default and the
/// configured directory is not `primary`; none when that is `primary` itself.
pub open spec fn codex_mirror_dir(store: SettingsView, home: Option<Seq<char>>, primary: Seq<char>) -> Option<Seq<char>> {
    if !store.sync_provider_switch_to_both_config_dirs {
        None
    } else {
        match store.configured_dir(AppType::Codex, home) {
            None => None,
            Some(configured) => {
                let secondary = if primary == configured {
                    default_codex_dir(home)
                } else {
                    configured
                };
                if secondary == primary {
                    None
                } else {
                    Some(secondary)
                }
            },
        }
    }
}

fn get_home_dir(home: &Option<String>) -> (r: String)
    ensures
        r@ == home_or_current(opt_view(*home)),
{
    let h = match home {
        Some(h) => Some(h.clone()),
        None => None,
    };
    home_dir_or_current(h)
}

fn get_default_codex_config_dir(home: &Option<String>) -> (r: String)
    ensures
        r@ == default_codex_dir(opt_view(*home)),
{
    let base = get_home_dir(home);
    let name = ".codex";
    proof {
        reveal_strlit(".codex");
    }
    join_path(base.as_str(), name)
}

/// The effective Codex configuration directory.
pub fn get_codex_config_dir(store: &SettingsStore, home: &Option<String>) -> (r: String)
    ensures
        r@ == codex_dir(store@, opt_view(*home)),
{
    match get_codex_override_dir(store, home) {
        Some(custom) => custom,
        None => get_default_codex_config_dir(home),
    }
}

fn auth_path_in(dir: &str) -> (r: String)
    ensures
        r@ == path_join(dir@, auth_file_name()),
{
    let name = "auth.json";
    proof {
        reveal_strlit("auth.json");
    }
    join_path(dir, name)
}

fn config_path_in(dir: &str) -> (r: String)
    ensures
        r@ == path_join(dir@, config_file_name()),
{
    let name = "config.toml";
    proof {
        reveal_strlit("config.toml");
    }
    join_path(dir, name)
}

/// The live Codex credentials file, `auth.json` in the effective directory.
pub fn get_codex_auth_path(store: &SettingsStore, home: &Option<String>) -> (r: String)
    ensures
        r@ == path_join(codex_dir(store@, opt_view(*home)), auth_file_name()),
{
    auth_path_in(get_codex_config_dir(store, home).as_str())
}

/// The live Codex configuration file, `config.toml` in the effective directory.
pub fn get_codex_config_path(store: &SettingsStore, home: &Option<String>) -> (r: String)
    ensures
        r@ == path_join(codex_dir(store@, opt_view(*home)), config_file_name()),
{
    config_path_in(get_codex_config_dir(store, home).as_str())
}

/// Whether `text` parses as a TOML table, as `toml::from_str::<toml::Table>` decides.
pub uninterp spec fn is_toml_table(text: Seq<char>) -> bool;

/// Relies on `toml::from_str::<toml::Table>`: whether the text parses as a
/// TOML table depends on the text alone; on failure the parser's message is
/// returned.
#[verifier::external_body]
fn parse_toml_table(text: &str) -> (r: Result<(), String>)
    ensures
        r is Ok <==> is_toml_table(text@),
{
    match toml::from_str::<toml::Table>(text) {
        Ok(_) => Ok(()),
        Err(e) => Err(e.to_string()),
    }
}

/// Configuration text that may be written: blank, or a TOML table.
pub open spec fn config_text_valid(text: Seq<char>) -> bool {
    trimmed(text).len() == 0 || is_toml_table(text)
}

fn check_config_text(text: &str, path: String) -> (r: Result<(), AppError>)
    ensures
        r is Ok <==> config_text_valid(text@),
        r is Err ==> r->Err_0 is Toml && r->Err_0->Toml_path == path,
{
    let t = trim(text);
    if t.as_str().unicode_len() == 0 {
        return Ok(());
    }
    match parse_toml_table(text) {
        Ok(()) => Ok(()),
        Err(message) => Err(AppError::Toml { path, message }),
    }
}

/// Checks that non-blank configuration text is a well-formed TOML table.
pub fn validate_config_toml(text: &str) -> (r: Result<(), AppError>)
    ensures
        r is Ok <==> config_text_valid(text@),
        r is Err ==> r->Err_0 is Toml && r->Err_0->Toml_path@ == config_file_name(),
{
    let name = "config.toml";
    proof {
        reveal_strlit("config.toml");
    }
    check_config_text(text, String::from_str(name))
}

/// The configuration text that was read, once checked: a read failure is
/// passed on, and text that is neither blank nor a TOML table is refused.
pub fn read_and_validate_codex_config_text(read: Result<String, AppError>) -> (r: Result<String, AppError>)
    ensures
        read is Err ==> r == read,
        read is Ok && config_text_valid(read->Ok_0@) ==> r == read,
        read is Ok && !config_text_valid(read->Ok_0@) ==> r is Err && r->Err_0 is Toml,
{
    match read {
        Ok(s) => match validate_config_toml(s.as_str()) {
            Ok(()) => Ok(s),
            Err(e) => Err(e),
        },
        Err(e) => Err(e),
    }
}

/// The live pair of a directory: `auth.json` and `config.toml` in it.
pub open spec fn codex_pair(dir: Seq<char>) -> PairPaths {
    PairPaths {
        dir,
        auth: path_join(dir, auth_file_name()),
        config: path_join(dir, config_file_name()),
    }
}

proof fn lemma_join_last(base: Seq<char>, rest: Seq<char>)
    requires
        rest.len() > 0,
    ensures
        path_join(base, rest).len() > 0,
        path_join(base, rest).last() == rest.last(),
{
}

proof fn lemma_codex_pairs_distinct(a: Seq<char>, b: Seq<char>)
    ensures
        codex_pair(a).auth != codex_pair(b).config,
{
    lemma_join_last(a, auth_file_name());
    lemma_join_last(b, config_file_name());
}

fn pair_target(dir: String) -> (r: PairTarget)
    ensures
        r@ == codex_pair(dir@),
{
    let auth_path = auth_path_in(dir.as_str());
    let config_path = config_path_in(dir.as_str());
    PairTarget { dir, auth_path, config_path }
}

fn codex_mirror_target(store: &SettingsStore, home: &Option<String>, primary: &String) -> (r: Option<String>)
    ensures
        opt_view(r) == codex_mirror_dir(store@, opt_view(*home), primary@),
{
    if !sync_provider_switch_to_both_config_dirs_enabled(store) {
        return None;
    }
    match get_codex_override_dir_configured(store, home) {
        None => None,
        Some(configured) => {
            let secondary = if *primary == configured {
                get_default_codex_config_dir(home)
            } else {
                configured
            };
            if secondary == *primary {
                None
            } else {
                Some(secondary)
            }
        },
    }
}

/// The characters of the configuration text to write: empty when absent.
pub open spec fn config_text_of(config_text: Option<String>) -> Seq<char> {
    match config_text {
        Some(t) => t@,
        None => Seq::empty(),
    }
}

/// Starts writing Codex's live pair: `auth` (the serialized credentials) to
/// `auth.json` and `config_text` (empty when absent) to `config.toml` in the
/// effective directory, then, when mirroring is on, into the other directory.
/// Text that is neither blank nor a TOML table is refused before any request
/// is made. Otherwise the returned write is driven with `LiveWrite::step`,
/// starting from the returned request; `lemma_live_write_is_atomic` states
/// what it guarantees.
pub fn write_codex_live_atomic(store: &SettingsStore, home: &Option<String>, auth: Vec<u8>, config_text: Option<String>) -> (r: Result<(LiveWrite, WriteAction), AppError>)
    ensures
        r is Err <==> !config_text_valid(config_text_of(config_text)),
        r is Err ==> r->Err_0 is Toml,
        r is Ok ==> ({
            let (w, a) = r->Ok_0;
            let primary = codex_dir(store@, opt_view(*home));
            &&& w@.is_initial()
            &&& w@.auth == auth@
            &&& w@.config == vstd::utf8::encode_utf8(config_text_of(config_text))
            &&& w@.primary == codex_pair(primary)
            &&& w@.secondary == match codex_mirror_dir(store@, opt_view(*home), primary) {
                Some(d) => Some(codex_pair(d)),
                None => None,
            }
            &&& targets_distinct(w@.primary, w@.secondary)
            &&& a@ == ActionView::Request(w@.request())
        }),
{
    let text = match config_text {
        Some(t) => t,
        None => String::new(),
    };
    let primary_dir = get_codex_config_dir(store, home);
    let primary = pair_target(primary_dir.clone());
    let checked = check_config_text(text.as_str(), primary.config_path.clone());
    if let Err(e) = checked {
        return Err(e);
    }
    let secondary = match codex_mirror_target(store, home, &primary_dir) {
        Some(d) => Some(pair_target(d)),
        None => None,
    };
    let config = text.as_str().as_bytes_vec();
    proof {
        lemma_codex_pairs_distinct(primary_dir@, primary_dir@);
        if secondary is Some {
            let d = secondary->Some_0.dir@;
            lemma_codex_pairs_distinct(d, primary_dir@);
            lemma_codex_pairs_distinct(primary_dir@, d);
        }
    }
    Ok(LiveWrite::begin(auth, config, primary, secondary))
}

/// Turning overrides off and on again never changes the configured Codex
/// directory; it only decides whether the effective directory is the
/// configured one or the default. `on` and `off` are the records that
/// `update_settings` keeps for `new_settings` with the flag set and cleared.
pub proof fn lemma_override_toggle(new_settings: SettingsView, home: Option<Seq<char>>)
    requires
        norm_path(new_settings.codex_config_dir) is Some,
    ensures
        ({
            let on = SettingsView { enable_config_dir_overrides: true, ..new_settings }.normalized();
            let off = SettingsView { enable_config_dir_overrides: false, ..new_settings }.normalized();
            let configured = expand_override(norm_path(new_settings.codex_config_dir)->Some_0, home);
            &&& on.configured_dir(AppType::Codex, home) == Some(configured)
            &&& off.configured_dir(AppType::Codex, home) == Some(configured)
            &&& codex_dir(on, home) == configured
            &&& codex_dir(off, home) == default_codex_dir(home)
        }),
{
}

/// A character of a provider name as it may stand in a file name: each of
/// `< > : " / \ | ? *` becomes `-`.
pub open spec fn filename_char(c: char) -> char {
    if c == '<' || c == '>' || c == ':' || c == '"' || c == '/' || c == '\\' || c == '|' || c
        == '?' || c == '*' {
        '-'
    } else {
        c
    }
}

/// The lowercase form of `s`, as `str::to_lowercase` computes it.
pub uninterp spec fn lowercase_of(s: Seq<char>) -> Seq<char>;

/// Relies on `str::to_lowercase`: the result depends on the characters alone.
#[verifier::external_body]
fn to_lowercase(s: &str) -> (r: String)
    ensures
        r@ == lowercase_of(s@),
{
    s.to_lowercase()
}

/// A provider name made safe for a file name: reserved characters replaced
/// by `-`, then lowercased.
pub open spec fn sanitized_name(name: Seq<char>) -> Seq<char> {
    lowercase_of(name.map_values(|c: char| filename_char(c)))
}

/// `name` with the characters that file systems reserve replaced by `-`,
/// lowercased.
pub fn sanitize_provider_name(name: &str) -> (r: String)
    ensures
        r@ == sanitized_name(name@),
{
    let n = name.unicode_len();
    let mut out = String::new();
    let dash = "-";
    proof {
        reveal_strlit("-");
    }
    let mut i: usize = 0;
    while i < n
        invariant
            i <= n,
            n == name@.len(),
            dash@ == seq!['-'],
            out@ == name@.subrange(0, i as int).map_values(|c: char| filename_char(c)),
        decreases n - i,
    {
        let c = name.get_char(i);
        if c == '<' || c == '>' || c == ':' || c == '"' || c == '/' || c == '\\' || c == '|' || c
            == '?' || c == '*' {
            out.append(dash);
        } else {
            out.append(name.substring_char(i, i + 1));
        }
        i = i + 1;
        assert(out@ =~= name@.subrange(0, i as int).map_values(|c: char| filename_char(c)));
    }
    assert(name@.subrange(0, n as int) =~= name@);
    to_lowercase(out.as_str())
}

/// The base name of a provider's files: its name when given, else its id.
pub open spec fn provider_base_name(provider_id: Seq<char>, provider_name: Option<Seq<char>>) -> Seq<char> {
    match provider_name {
        Some(name) => sanitized_name(name),
        None => sanitized_name(provider_id),
    }
}

/// `auth-<base>.json`.
pub open spec fn provider_auth_file(base: Seq<char>) -> Seq<char> {
    seq!['a', 'u', 't', 'h', '-'] + base + seq!['.', 'j', 's', 'o', 'n']
}

/// `config-<base>.toml`.
pub open spec fn provider_config_file(base: Seq<char>) -> Seq<char> {
    seq!['c', 'o', 'n', 'f', 'i', 'g', '-'] + base + seq!['.', 't', 'o', 'm', 'l']
}

/// The per-provider files of a Codex provider in the effective directory:
/// `auth-<base>.json` and `config-<base>.toml`, with `<base>` the sanitized
/// provider name (or id when no name is given).
pub fn get_codex_provider_paths(store: &SettingsStore, home: &Option<String>, provider_id: &str, provider_name: Option<&str>) -> (r: (String, String))
    ensures
        ({
            let dir = codex_dir(store@, opt_view(*home));
            let base = provider_base_name(provider_id@, opt_str_view(provider_name));
            &&& r.0@ == path_join(dir, provider_auth_file(base))
            &&& r.1@ == path_join(dir, provider_config_file(base))
        }),
{
    let base = match provider_name {
        Some(name) => sanitize_provider_name(name),
        None => sanitize_provider_name(provider_id),
    };
    let auth_prefix = "auth-";
    let auth_suffix = ".json";
    let config_prefix = "config-";
    let config_suffix = ".toml";
    proof {
        reveal_strlit("auth-");
        reveal_strlit(".json");
        reveal_strlit("config-");
        reveal_strlit(".toml");
    }
    let mut auth_name = String::from_str(auth_prefix);
    auth_name.append(base.as_str());
    auth_name.append(auth_suffix);
    let mut config_name = String::from_str(config_prefix);
    config_name.append(base.as_str());
    config_name.append(config_suffix);
    let dir = get_codex_config_dir(store, home);
    proof {
        assert(auth_name@ =~= provider_auth_file(base@));
        assert(config_name@ =~= provider_config_file(base@));
    }
    (join_path(dir.as_str(), auth_name.as_str()), join_path(dir.as_str(), config_name.as_str()))
}

/// The removals that delete a Codex provider's per-provider files. A failed
/// removal is ignored: deleting the configuration always succeeds.
pub fn delete_codex_provider_config(store: &SettingsStore, home: &Option<String>, provider_id: &str, provider_name: &str) -> (r: Vec<FsRequest>)
    ensures
        ({
            let dir = codex_dir(store@, opt_view(*home));
            let base = sanitized_name(provider_name@);
            &&& r@.len() == 2
            &&& r@[0]@ == RequestView::Remove(path_join(dir, provider_auth_file(base)))
            &&& r@[1]@ == RequestView::Remove(path_join(dir, provider_config_file(base)))
        }),
{
    let (auth_path, config_path) = get_codex_provider_paths(store, home, provider_id, Some(provider_name));
    let mut out: Vec<FsRequest> = Vec::new();
    out.push(FsRequest::Remove(auth_path));
    out.push(FsRequest::Remove(config_path));
    out
}

} // verus!
