//! Local configuration: the base file, named profiles, and how the settings
//! the client runs with are resolved from flags, environment and files.
use vstd::prelude::*;

use crate::error::{config_error, opt_view, res_view, usage, CliError, ErrorV};
use crate::json::str_eq;
use crate::text::{
    chars_of, decimal, is_ascii_alnum, lemma_encode_utf8_concat, parse_u64, parse_u64_spec,
    trim_end_char, trim_end_matches_char, u64_to_string,
};
use vstd::string::StringSliceAdditionalSpecFns;

verus! {

/// The API the client talks to unless told otherwise.
pub const DEFAULT_BASE_URL: &'static str = "https://api.llmpulse.ai/api/v1";

/// The settings one configuration file holds.
#[derive(Debug)]
pub struct Config {
    pub api_key: Option<String>,
    pub base_url: Option<String>,
    pub default_project_id: Option<u64>,
    pub active_profile: Option<String>,
}

/// The content of a [`Config`].
pub struct ConfigV {
    pub api_key: Option<Seq<char>>,
    pub base_url: Option<Seq<char>>,
    pub default_project_id: Option<u64>,
    pub active_profile: Option<Seq<char>>,
}

impl View for Config {
    type V = ConfigV;

    open spec fn view(&self) -> ConfigV {
        ConfigV {
            api_key: opt_view(self.api_key),
            base_url: opt_view(self.base_url),
            default_project_id: self.default_project_id,
            active_profile: opt_view(self.active_profile),
        }
    }
}

/// A configuration with nothing set.
pub open spec fn empty_config() -> ConfigV {
    ConfigV { api_key: None, base_url: None, default_project_id: None, active_profile: None }
}

/// A copy of an optional string.
pub fn copy_opt(o: &Option<String>) -> (r: Option<String>)
    ensures
        opt_view(r) == opt_view(*o),
{
    match o {
        Some(s) => Some(s.clone()),
        None => None,
    }
}

impl Config {
    /// A configuration with nothing set.
    pub fn empty() -> (c: Config)
        ensures
            c@ == empty_config(),
    {
        Config { api_key: None, base_url: None, default_project_id: None, active_profile: None }
    }

    /// A copy with the same settings.
    pub fn duplicate(&self) -> (c: Config)
        ensures
            c@ == self@,
    {
        Config {
            api_key: copy_opt(&self.api_key),
            base_url: copy_opt(&self.base_url),
            default_project_id: self.default_project_id,
            active_profile: copy_opt(&self.active_profile),
        }
    }
}

impl Default for Config {
    fn default() -> (c: Config)
        ensures
            c@ == empty_config(),
    {
        Config::empty()
    }
}

/// Settings given on the command line; they take precedence over everything.
#[derive(Debug)]
pub struct Overrides {
    pub api_key: Option<String>,
    pub base_url: Option<String>,
    pub project_id: Option<u64>,
    pub verbose: bool,
}

/// The values of the `LLMPULSE_API_KEY`, `LLMPULSE_BASE_URL` and
/// `LLMPULSE_PROJECT_ID` environment variables (absent when unset or not
/// valid Unicode).
#[derive(Debug)]
pub struct EnvSettings {
    pub api_key: Option<String>,
    pub base_url: Option<String>,
    pub project_id: Option<String>,
}

/// The settings a command runs with.
#[derive(Debug)]
pub struct ResolvedConfig {
    pub api_key: String,
    pub base_url: String,
    pub project_id: Option<u64>,
    pub verbose: bool,
}

/// The content of a [`ResolvedConfig`].
pub struct ResolvedV {
    pub api_key: Seq<char>,
    pub base_url: Seq<char>,
    pub project_id: Option<u64>,
    pub verbose: bool,
}

impl View for ResolvedConfig {
    type V = ResolvedV;

    open spec fn view(&self) -> ResolvedV {
        ResolvedV {
            api_key: self.api_key@,
            base_url: self.base_url@,
            project_id: self.project_id,
            verbose: self.verbose,
        }
    }
}

/* ---------------------------------------------------------------------- */
/* Profile names and API keys                                              */
/* ---------------------------------------------------------------------- */

/// A profile name: non-empty, of ASCII letters, digits, `-` and `_` only, so
/// that it cannot leave the profiles directory.
pub open spec fn valid_profile_name(name: Seq<char>) -> bool {
    name.len() > 0 && forall|i: int|
        0 <= i < name.len() ==> is_ascii_alnum(#[trigger] name[i]) || name[i] == '-' || name[i] == '_'
}

/// The text of the error for a bad profile name.
pub open spec fn profile_name_message() -> Seq<char> {
    "Profile names may contain letters, numbers, hyphens, and underscores"@
}

/// Accepts exactly the valid profile names.
pub fn validate_profile_name(name: &str) -> (r: Result<(), CliError>)
    ensures
        r is Ok <==> valid_profile_name(name@),
        r matches Err(e) ==> e@ == ErrorV::Usage(profile_name_message()),
{
    let chars = chars_of(name);
    let mut ok = chars.len() > 0;
    let mut i: usize = 0;
    while i < chars.len()
        invariant
            chars@ == name@,
            i <= chars@.len(),
            ok == (chars@.len() > 0 && forall|j: int|
                0 <= j < i ==> is_ascii_alnum(#[trigger] chars@[j]) || chars@[j] == '-' || chars@[j] == '_'),
        decreases chars@.len() - i,
    {
        let c = chars[i];
        let good = ('a' <= c && c <= 'z') || ('A' <= c && c <= 'Z') || ('0' <= c && c <= '9')
            || c == '-' || c == '_';
        ok = ok && good;
        i = i + 1;
    }
    if ok {
        Ok(())
    } else {
        Err(usage("Profile names may contain letters, numbers, hyphens, and underscores"))
    }
}

/// Where the file of profile `name` lives, relative to the configuration
/// directory: `profiles/<name>.json`, for a valid name only.
pub fn profile_path(name: &str) -> (r: Result<String, CliError>)
    ensures
        r is Ok <==> valid_profile_name(name@),
        r matches Ok(p) ==> p@ == "profiles/"@ + name@ + ".json"@,
        r matches Err(e) ==> e@ == ErrorV::Usage(profile_name_message()),
{
    match validate_profile_name(name) {
        Ok(()) => {},
        Err(e) => return Err(e),
    }
    let mut p = String::from_str("profiles/");
    p.append(name);
    p.append(".json");
    Ok(p)
}

/// The masked form of an API key, over its UTF-8 bytes: keys shorter than
/// fifteen bytes become `***`; longer ones keep their first twelve and last
/// three bytes around `***`.
pub open spec fn masked_key_bytes(key: Seq<u8>) -> Seq<u8> {
    if key.len() < 15 {
        vstd::utf8::encode_utf8("***"@)
    } else {
        key.subrange(0, 12) + vstd::utf8::encode_utf8("***"@) + key.subrange(key.len() - 3, key.len() as int)
    }
}

/// Hides the middle of an API key. The key must not split a character at
/// byte 12 or three bytes before its end (the slicing would fail there).
pub fn mask_api_key(key: &str) -> (r: String)
    requires
        key.spec_bytes().len() <= usize::MAX,
        key.spec_bytes().len() >= 15 ==> vstd::utf8::is_char_boundary(key.spec_bytes(), 12)
            && vstd::utf8::is_char_boundary(key.spec_bytes(), key.spec_bytes().len() - 3),
    ensures
        vstd::utf8::encode_utf8(r@) == masked_key_bytes(key.spec_bytes()),
        key.spec_bytes().len() < 15 ==> r@ == "***"@,
{
    let n = key.len();
    if n < 15 {
        return String::from_str("***");
    }
    let (head, _) = key.split_at(12);
    let (_, tail) = key.split_at(n - 3);
    let mut out = String::from_str(head);
    out.append("***");
    out.append(tail);
    proof {
        lemma_encode_utf8_concat(head@, "***"@);
        lemma_encode_utf8_concat(head@ + "***"@, tail@);
        assert(head.spec_bytes() == vstd::utf8::encode_utf8(head@));
        assert(tail.spec_bytes() == vstd::utf8::encode_utf8(tail@));
        assert(out@ == head@ + "***"@ + tail@);
    }
    out
}

/// A key that [`mask_api_key`] can cut: short, or split into characters at
/// byte 12 and three bytes before its end.
pub open spec fn maskable(bytes: Seq<u8>) -> bool {
    bytes.len() >= 15 ==> vstd::utf8::is_char_boundary(bytes, 12)
        && vstd::utf8::is_char_boundary(bytes, bytes.len() - 3)
}

/// The masked form of a key, as text.
pub open spec fn masked_text(key: Seq<char>) -> Seq<char> {
    vstd::utf8::decode_utf8(masked_key_bytes(vstd::utf8::encode_utf8(key)))
}

/// Masks a key where it can be cut; `None` for a key whose cut would split a
/// character.
pub fn try_mask_api_key(key: &str) -> (r: Option<String>)
    requires
        key.spec_bytes().len() <= usize::MAX,
    ensures
        r is Some <==> maskable(key.spec_bytes()),
        r matches Some(m) ==> vstd::utf8::encode_utf8(m@) == masked_key_bytes(key.spec_bytes())
            && m@ == masked_text(key@),
{
    let n = key.len();
    if n >= 15 && !(key.is_char_boundary(12) && key.is_char_boundary(n - 3)) {
        return None;
    }
    let m = mask_api_key(key);
    proof { vstd::utf8::encode_utf8_decode_utf8(m@); }
    Some(m)
}

/* ---------------------------------------------------------------------- */
/* Base URLs                                                               */
/* ---------------------------------------------------------------------- */

/// The scheme and host that `url::Url::parse` finds in a text, or `None`
/// when it does not parse as an absolute URL.
pub uninterp spec fn parsed_url(raw: Seq<char>) -> Option<(Seq<char>, Option<Seq<char>>)>;

/// The parts of a parsed URL that the client checks.
#[derive(Debug)]
pub struct UrlParts {
    pub scheme: String,
    pub host: Option<String>,
}

/// The content of optional URL parts.
pub open spec fn parts_view(p: Option<UrlParts>) -> Option<(Seq<char>, Option<Seq<char>>)> {
    match p {
        Some(u) => Some((u.scheme@, opt_view(u.host))),
        None => None,
    }
}

/// Calls `url::Url::parse` and reads the result's `scheme()` and
/// `host_str()`. Trusted: the result is what the `url` crate computes for
/// `raw`, named `parsed_url`; nothing more is claimed of it.
#[verifier::external_body]
fn parse_url(raw: &str) -> (r: Option<UrlParts>)
    ensures
        parts_view(r) == parsed_url(raw@),
{
    match url::Url::parse(raw) {
        Ok(u) => {
            let host = match u.host_str() {
                Some(h) => Some(h.to_string()),
                None => None,
            };
            Some(UrlParts { scheme: u.scheme().to_string(), host })
        },
        Err(_) => None,
    }
}

/// A host that plain HTTP may be used with: `localhost`, `127.0.0.1`, or the
/// IPv6 loopback, which `url::Url::host_str` writes in brackets (`[::1]`).
pub open spec fn is_local_host(host: Option<Seq<char>>) -> bool {
    host == Some("localhost"@) || host == Some("127.0.0.1"@) || host == Some("[::1]"@)
}

/// The text of the error for a text that is not a URL.
pub open spec fn invalid_url_message(raw: Seq<char>) -> Seq<char> {
    "Invalid base URL: "@ + raw
}

/// The text of the error for a URL that would send the key in clear.
pub open spec fn insecure_url_message(raw: Seq<char>) -> Seq<char> {
    "Refusing to use insecure base URL '"@ + raw
        + "'. Use https://. HTTP is allowed only for localhost."@
}

/// Whether a base URL is accepted, given what parsing found in it: it must
/// parse, and use HTTPS, or plain HTTP to a local host. An accepted URL is
/// kept without its trailing slashes.
pub open spec fn check_base_url_spec(raw: Seq<char>, parts: Option<(Seq<char>, Option<Seq<char>>)>) -> Result<Seq<char>, ErrorV> {
    match parts {
        None => Err(ErrorV::Config(invalid_url_message(raw))),
        Some((scheme, host)) => if scheme != "https"@ && !(scheme == "http"@ && is_local_host(host)) {
            Err(ErrorV::Config(insecure_url_message(raw)))
        } else {
            Ok(trim_end_char(raw, '/'))
        },
    }
}

/// Decides on a base URL from the parts that parsing it gave.
pub fn check_base_url(raw: &str, parts: Option<UrlParts>) -> (r: Result<String, CliError>)
    ensures
        res_view(r) == check_base_url_spec(raw@, parts_view(parts)),
{
    match parts {
        None => {
            let mut m = String::from_str("Invalid base URL: ");
            m.append(raw);
            Err(CliError::Config(m))
        },
        Some(p) => {
            let https = str_eq(p.scheme.as_str(), "https");
            let http = str_eq(p.scheme.as_str(), "http");
            let local = match &p.host {
                Some(h) => str_eq(h.as_str(), "localhost") || str_eq(h.as_str(), "127.0.0.1")
                    || str_eq(h.as_str(), "[::1]"),
                None => false,
            };
            if !https && !(http && local) {
                let mut m = String::from_str("Refusing to use insecure base URL '");
                m.append(raw);
                m.append("'. Use https://. HTTP is allowed only for localhost.");
                Err(CliError::Config(m))
            } else {
                Ok(trim_end_matches_char(raw, '/'))
            }
        },
    }
}

/// Accepts HTTPS base URLs, and plain HTTP only for a local host, so that an
/// API key is never sent unencrypted to a remote server.
pub fn validate_base_url(raw: &str) -> (r: Result<String, CliError>)
    ensures
        res_view(r) == check_base_url_spec(raw@, parsed_url(raw@)),
{
    let parts = parse_url(raw);
    check_base_url(raw, parts)
}

/* ---------------------------------------------------------------------- */
/* The configuration directory                                             */
/* ---------------------------------------------------------------------- */

/// What reading one configuration file gave.
#[derive(Debug)]
pub enum StoredConfig {
    /// The file does not exist.
    Missing,
    /// The file held these settings.
    Parsed(Config),
    /// The file exists but is not valid configuration JSON; the text says why.
    Unparsable(String),
    /// The file could not be read; the text is the I/O error.
    Unreadable(String),
}

/// The content of a [`StoredConfig`].
pub enum StoredV {
    Missing,
    Parsed(ConfigV),
    Unparsable(Seq<char>),
    Unreadable(Seq<char>),
}

impl View for StoredConfig {
    type V = StoredV;

    open spec fn view(&self) -> StoredV {
        match self {
            StoredConfig::Missing => StoredV::Missing,
            StoredConfig::Parsed(c) => StoredV::Parsed(c@),
            StoredConfig::Unparsable(m) => StoredV::Unparsable(m@),
            StoredConfig::Unreadable(m) => StoredV::Unreadable(m@),
        }
    }
}

/// The configuration directory as read: `config.json` and the profile files
/// the command may touch, by profile name. A profile that is not listed is
/// taken not to exist.
#[derive(Debug)]
pub struct ConfigStore {
    pub base: StoredConfig,
    pub profiles: Vec<(String, StoredConfig)>,
}

/// The content of a [`ConfigStore`].
pub struct StoreV {
    pub base: StoredV,
    pub profiles: Seq<(Seq<char>, StoredV)>,
}

impl View for ConfigStore {
    type V = StoreV;

    open spec fn view(&self) -> StoreV {
        StoreV {
            base: self.base@,
            profiles: self.profiles@.map_values(|e: (String, StoredConfig)| (e.0@, e.1@)),
        }
    }
}

/// Where a configuration is written.
#[derive(Debug)]
pub enum ConfigTarget {
    Base,
    Profile(String),
}

/// The content of a [`ConfigTarget`].
pub enum TargetV {
    Base,
    Profile(Seq<char>),
}

/// A file to write: the target and the settings it is to hold.
#[derive(Debug)]
pub struct ConfigWrite {
    pub target: ConfigTarget,
    pub config: Config,
}

/// The content of a [`ConfigWrite`].
pub struct WriteV {
    pub target: TargetV,
    pub config: ConfigV,
}

impl View for ConfigWrite {
    type V = WriteV;

    open spec fn view(&self) -> WriteV {
        WriteV {
            target: match self.target {
                ConfigTarget::Base => TargetV::Base,
                ConfigTarget::Profile(n) => TargetV::Profile(n@),
            },
            config: self.config@,
        }
    }
}

/// The content of a list of writes.
pub open spec fn writes_view(ws: Seq<ConfigWrite>) -> Seq<WriteV> {
    ws.map_values(|w: ConfigWrite| w@)
}

/// The settings a read of one file yields, or the error it fails with.
pub open spec fn stored_result(s: StoredV) -> Result<ConfigV, ErrorV> {
    match s {
        StoredV::Missing => Ok(empty_config()),
        StoredV::Parsed(c) => Ok(c),
        StoredV::Unparsable(m) => Err(ErrorV::Config(m)),
        StoredV::Unreadable(m) => Err(ErrorV::Io(m)),
    }
}

/// The first listed file of profile `name`.
pub open spec fn profile_entry(profiles: Seq<(Seq<char>, StoredV)>, name: Seq<char>) -> Option<StoredV>
    decreases profiles.len(),
{
    if profiles.len() == 0 {
        None
    } else if profiles[0].0 == name {
        Some(profiles[0].1)
    } else {
        profile_entry(profiles.drop_first(), name)
    }
}

/// What the file of profile `name` holds; an unlisted profile does not exist.
pub open spec fn profile_file(store: StoreV, name: Seq<char>) -> StoredV {
    match profile_entry(store.profiles, name) {
        Some(s) => s,
        None => StoredV::Missing,
    }
}

/// The profile's settings laid over the base settings: each setting the
/// profile holds replaces the base one.
pub open spec fn merge_profile(base: ConfigV, profile: ConfigV) -> ConfigV {
    ConfigV {
        api_key: if profile.api_key is Some { profile.api_key } else { base.api_key },
        base_url: if profile.base_url is Some { profile.base_url } else { base.base_url },
        default_project_id: if profile.default_project_id is Some {
            profile.default_project_id
        } else {
            base.default_project_id
        },
        active_profile: base.active_profile,
    }
}

/// The settings of `config.json` alone.
pub open spec fn read_raw_spec(store: StoreV) -> Result<ConfigV, ErrorV> {
    stored_result(store.base)
}

/// The effective settings: the base file, with the active profile (if any)
/// laid over it.
pub open spec fn read_config_spec(store: StoreV) -> Result<ConfigV, ErrorV> {
    match stored_result(store.base) {
        Err(e) => Err(e),
        Ok(base) => match base.active_profile {
            None => Ok(base),
            Some(name) => if !valid_profile_name(name) {
                Err(ErrorV::Usage(profile_name_message()))
            } else {
                match stored_result(profile_file(store, name)) {
                    Err(e) => Err(e),
                    Ok(p) => Ok(merge_profile(base, p)),
                }
            },
        },
    }
}

/// Reads one file's settings.
fn read_file(stored: &StoredConfig) -> (r: Result<Config, CliError>)
    ensures
        res_view(r) == stored_result(stored@),
{
    match stored {
        StoredConfig::Missing => Ok(Config::empty()),
        StoredConfig::Parsed(c) => Ok(c.duplicate()),
        StoredConfig::Unparsable(m) => Err(CliError::Config(m.clone())),
        StoredConfig::Unreadable(m) => Err(CliError::Io(m.clone())),
    }
}

impl ConfigStore {
    /// The listed file of profile `name`, if any.
    pub fn profile(&self, name: &str) -> (r: Option<&StoredConfig>)
        ensures
            r is None <==> profile_entry(self@.profiles, name@) is None,
            r matches Some(s) ==> profile_entry(self@.profiles, name@) == Some(s@),
    {
        let ghost ps = self@.profiles;
        let mut i: usize = 0;
        assert(ps.subrange(0, ps.len() as int) == ps);
        while i < self.profiles.len()
            invariant
                ps == self@.profiles,
                ps.len() == self.profiles@.len(),
                i <= ps.len(),
                profile_entry(ps, name@) == profile_entry(ps.subrange(i as int, ps.len() as int), name@),
            decreases ps.len() - i,
        {
            let ghost rest = ps.subrange(i as int, ps.len() as int);
            assert(rest.drop_first() == ps.subrange(i + 1, ps.len() as int));
            assert(rest[0] == ps[i as int]);
            if str_eq(self.profiles[i].0.as_str(), name) {
                return Some(&self.profiles[i].1);
            }
            i = i + 1;
        }
        None
    }

    /// Reads the file of profile `name`.
    fn read_profile(&self, name: &str) -> (r: Result<Config, CliError>)
        ensures
            res_view(r) == stored_result(profile_file(self@, name@)),
    {
        match self.profile(name) {
            Some(s) => read_file(s),
            None => Ok(Config::empty()),
        }
    }

    /// Whether a file exists for profile `name`.
    fn profile_exists(&self, name: &str) -> (r: bool)
        ensures
            r == !(profile_file(self@, name@) is Missing),
    {
        match self.profile(name) {
            Some(StoredConfig::Missing) => false,
            Some(_) => true,
            None => false,
        }
    }
}

/// The settings of `config.json`.
pub fn read_raw_config(store: &ConfigStore) -> (r: Result<Config, CliError>)
    ensures
        res_view(r) == read_raw_spec(store@),
{
    read_file(&store.base)
}

/// The effective settings: `config.json`, with the active profile's settings
/// replacing the ones it holds.
pub fn read_config(store: &ConfigStore) -> (r: Result<Config, CliError>)
    ensures
        res_view(r) == read_config_spec(store@),
{
    let mut base = match read_raw_config(store) {
        Ok(c) => c,
        Err(e) => return Err(e),
    };
    let profile_name = match &base.active_profile {
        None => return Ok(base),
        Some(n) => n.clone(),
    };
    match validate_profile_name(profile_name.as_str()) {
        Ok(()) => {},
        Err(e) => return Err(e),
    }
    let profile = match store.read_profile(profile_name.as_str()) {
        Ok(p) => p,
        Err(e) => return Err(e),
    };
    if profile.api_key.is_some() {
        base.api_key = profile.api_key;
    }
    if profile.base_url.is_some() {
        base.base_url = profile.base_url;
    }
    if profile.default_project_id.is_some() {
        base.default_project_id = profile.default_project_id;
    }
    Ok(base)
}

/// The write that stores `config` as `config.json`.
pub fn write_config(config: &Config) -> (w: ConfigWrite)
    ensures
        w@ == (WriteV { target: TargetV::Base, config: config@ }),
{
    ConfigWrite { target: ConfigTarget::Base, config: config.duplicate() }
}

/* ---------------------------------------------------------------------- */
/* Reading and changing settings                                           */
/* ---------------------------------------------------------------------- */

/// The keys `config set` accepts.
pub open spec fn settable_key(key: Seq<char>) -> bool {
    key == "api_key"@ || key == "base_url"@ || key == "default_project_id"@
}

/// The text of the error for a key `config set` does not know.
pub open spec fn unknown_set_key_message(key: Seq<char>) -> Seq<char> {
    "Unknown config key '"@ + key + "'. Use api_key, base_url, or default_project_id"@
}

/// The text of the error for a key `config get` does not know.
pub open spec fn unknown_get_key_message(key: Seq<char>) -> Seq<char> {
    "Unknown config key '"@ + key + "'. Use api_key, base_url, default_project_id, or active_profile"@
}

/// The text of the error for a project ID that is not a number.
pub open spec fn project_id_message() -> Seq<char> {
    "default_project_id must be a positive integer"@
}

/// `config` with setting `key` given `value`: the key as is, a base URL once
/// validated, a project ID once parsed.
pub open spec fn assign_spec(config: ConfigV, key: Seq<char>, value: Seq<char>) -> Result<ConfigV, ErrorV> {
    if key == "api_key"@ {
        Ok(ConfigV { api_key: Some(value), ..config })
    } else if key == "base_url"@ {
        match check_base_url_spec(value, parsed_url(value)) {
            Ok(url) => Ok(ConfigV { base_url: Some(url), ..config }),
            Err(e) => Err(e),
        }
    } else {
        match parse_u64_spec(value) {
            Some(id) => Ok(ConfigV { default_project_id: Some(id), ..config }),
            None => Err(ErrorV::Usage(project_id_message())),
        }
    }
}

/// What `config set key value` writes: the setting goes into the active
/// profile's file when a profile is active, else into `config.json`.
pub open spec fn set_value_spec(store: StoreV, key: Seq<char>, value: Seq<char>) -> Result<Seq<WriteV>, ErrorV> {
    if !settable_key(key) {
        Err(ErrorV::Usage(unknown_set_key_message(key)))
    } else {
        match stored_result(store.base) {
            Err(e) => Err(e),
            Ok(base) => match base.active_profile {
                Some(name) => if !valid_profile_name(name) {
                    Err(ErrorV::Usage(profile_name_message()))
                } else {
                    match stored_result(profile_file(store, name)) {
                        Err(e) => Err(e),
                        Ok(p) => match assign_spec(p, key, value) {
                            Err(e) => Err(e),
                            Ok(q) => Ok(seq![WriteV { target: TargetV::Profile(name), config: q }]),
                        },
                    }
                },
                None => match assign_spec(base, key, value) {
                    Err(e) => Err(e),
                    Ok(q) => Ok(seq![WriteV { target: TargetV::Base, config: q }]),
                },
            },
        }
    }
}

/// The text `config get key` shows of a setting.
pub open spec fn key_text(config: ConfigV, key: Seq<char>) -> Option<Seq<char>> {
    if key == "api_key"@ {
        config.api_key
    } else if key == "base_url"@ {
        config.base_url
    } else if key == "default_project_id"@ {
        match config.default_project_id {
            Some(id) => Some(decimal(id as nat)),
            None => None,
        }
    } else {
        config.active_profile
    }
}

/// The keys `config get` accepts.
pub open spec fn readable_key(key: Seq<char>) -> bool {
    settable_key(key) || key == "active_profile"@
}

/// What `config get key` answers.
pub open spec fn get_value_spec(store: StoreV, key: Seq<char>) -> Result<Option<Seq<char>>, ErrorV> {
    match read_config_spec(store) {
        Err(e) => Err(e),
        Ok(c) => if readable_key(key) {
            Ok(key_text(c, key))
        } else {
            Err(ErrorV::Usage(unknown_get_key_message(key)))
        },
    }
}

/// What `config use name` writes: the profile's file, empty, when it does
/// not exist yet, then `config.json` naming the profile as active.
pub open spec fn set_active_profile_spec(store: StoreV, name: Seq<char>) -> Result<Seq<WriteV>, ErrorV> {
    if !valid_profile_name(name) {
        Err(ErrorV::Usage(profile_name_message()))
    } else {
        match stored_result(store.base) {
            Err(e) => Err(e),
            Ok(base) => {
                let base_write = WriteV {
                    target: TargetV::Base,
                    config: ConfigV { active_profile: Some(name), ..base },
                };
                if profile_file(store, name) is Missing {
                    Ok(seq![WriteV { target: TargetV::Profile(name), config: empty_config() }, base_write])
                } else {
                    Ok(seq![base_write])
                }
            },
        }
    }
}

/// The active profile named in `config.json`.
pub open spec fn active_profile_spec(store: StoreV) -> Result<Option<Seq<char>>, ErrorV> {
    match stored_result(store.base) {
        Err(e) => Err(e),
        Ok(c) => Ok(c.active_profile),
    }
}

/// Gives setting `key` of `config` the value `value`. `key` must be one of
/// the settable keys.
fn assign_value(config: &mut Config, key: &str, value: &str) -> (r: Result<(), CliError>)
    requires
        settable_key(key@),
    ensures
        r is Ok ==> assign_spec(old(config)@, key@, value@) == Ok::<ConfigV, ErrorV>(final(config)@),
        r matches Err(e) ==> assign_spec(old(config)@, key@, value@) == Err::<ConfigV, ErrorV>(e@),
{
    if str_eq(key, "api_key") {
        config.api_key = Some(String::from_str(value));
        Ok(())
    } else if str_eq(key, "base_url") {
        match validate_base_url(value) {
            Ok(url) => {
                config.base_url = Some(url);
                Ok(())
            },
            Err(e) => Err(e),
        }
    } else {
        match parse_u64(value) {
            Some(id) => {
                config.default_project_id = Some(id);
                Ok(())
            },
            None => Err(usage("default_project_id must be a positive integer")),
        }
    }
}

/// The content of a list of writes, or the error.
pub open spec fn writes_result(r: Result<Vec<ConfigWrite>, CliError>) -> Result<Seq<WriteV>, ErrorV> {
    match r {
        Ok(ws) => Ok(writes_view(ws@)),
        Err(e) => Err(e@),
    }
}

/// The content of an optional string, or the error.
pub open spec fn opt_result(r: Result<Option<String>, CliError>) -> Result<Option<Seq<char>>, ErrorV> {
    match r {
        Ok(o) => Ok(opt_view(o)),
        Err(e) => Err(e@),
    }
}

/// Changes one setting (`config set`), in the active profile when there is
/// one; returns the file to write.
pub fn set_value(store: &ConfigStore, key: &str, value: &str) -> (r: Result<Vec<ConfigWrite>, CliError>)
    ensures
        writes_result(r) == set_value_spec(store@, key@, value@),
{
    if !(str_eq(key, "api_key") || str_eq(key, "base_url") || str_eq(key, "default_project_id")) {
        let mut m = String::from_str("Unknown config key '");
        m.append(key);
        m.append("'. Use api_key, base_url, or default_project_id");
        return Err(CliError::Usage(m));
    }
    let mut base = match read_raw_config(store) {
        Ok(c) => c,
        Err(e) => return Err(e),
    };
    match &base.active_profile {
        Some(n) => {
            let name = n.clone();
            match validate_profile_name(name.as_str()) {
                Ok(()) => {},
                Err(e) => return Err(e),
            }
            let mut profile = match store.read_profile(name.as_str()) {
                Ok(p) => p,
                Err(e) => return Err(e),
            };
            match assign_value(&mut profile, key, value) {
                Ok(()) => {},
                Err(e) => return Err(e),
            }
            let mut out: Vec<ConfigWrite> = Vec::new();
            out.push(ConfigWrite { target: ConfigTarget::Profile(name), config: profile });
            proof {
                assert(writes_view(out@) =~= seq![out@[0]@]);
            }
            Ok(out)
        },
        None => {
            match assign_value(&mut base, key, value) {
                Ok(()) => {},
                Err(e) => return Err(e),
            }
            let mut out: Vec<ConfigWrite> = Vec::new();
            out.push(write_config(&base));
            proof {
                assert(writes_view(out@) =~= seq![out@[0]@]);
            }
            Ok(out)
        },
    }
}

/// Reads one effective setting (`config get`).
pub fn get_value(store: &ConfigStore, key: &str) -> (r: Result<Option<String>, CliError>)
    ensures
        opt_result(r) == get_value_spec(store@, key@),
{
    let config = match read_config(store) {
        Ok(c) => c,
        Err(e) => return Err(e),
    };
    if str_eq(key, "api_key") {
        Ok(config.api_key)
    } else if str_eq(key, "base_url") {
        Ok(config.base_url)
    } else if str_eq(key, "default_project_id") {
        match config.default_project_id {
            Some(id) => Ok(Some(u64_to_string(id))),
            None => Ok(None),
        }
    } else if str_eq(key, "active_profile") {
        Ok(config.active_profile)
    } else {
        let mut m = String::from_str("Unknown config key '");
        m.append(key);
        m.append("'. Use api_key, base_url, default_project_id, or active_profile");
        Err(CliError::Usage(m))
    }
}

/// Makes `name` the active profile (`config use`), creating its file when it
/// does not exist; returns the files to write, in order.
pub fn set_active_profile(store: &ConfigStore, name: &str) -> (r: Result<Vec<ConfigWrite>, CliError>)
    ensures
        writes_result(r) == set_active_profile_spec(store@, name@),
{
    match validate_profile_name(name) {
        Ok(()) => {},
        Err(e) => return Err(e),
    }
    let mut config = match read_raw_config(store) {
        Ok(c) => c,
        Err(e) => return Err(e),
    };
    config.active_profile = Some(String::from_str(name));
    let mut out: Vec<ConfigWrite> = Vec::new();
    if !store.profile_exists(name) {
        out.push(ConfigWrite { target: ConfigTarget::Profile(String::from_str(name)), config: Config::empty() });
    }
    out.push(write_config(&config));
    proof {
        if out@.len() == 2 {
            assert(writes_view(out@) =~= seq![out@[0]@, out@[1]@]);
        } else {
            assert(writes_view(out@) =~= seq![out@[0]@]);
        }
    }
    Ok(out)
}

/// The active profile named in `config.json`.
pub fn active_profile(store: &ConfigStore) -> (r: Result<Option<String>, CliError>)
    ensures
        opt_result(r) == active_profile_spec(store@),
{
    match read_raw_config(store) {
        Ok(c) => Ok(c.active_profile),
        Err(e) => Err(e),
    }
}

/* ---------------------------------------------------------------------- */
/* Writing files back, and what reads give afterwards                      */
/* ---------------------------------------------------------------------- */

/// The profile list with profile `name`'s file replaced by (or, when not
/// listed, extended with) `file`.
pub open spec fn set_profile_entry(ps: Seq<(Seq<char>, StoredV)>, name: Seq<char>, file: StoredV) -> Seq<(Seq<char>, StoredV)>
    decreases ps.len(),
{
    if ps.len() == 0 {
        seq![(name, file)]
    } else if ps[0].0 == name {
        ps.update(0, (name, file))
    } else {
        seq![ps[0]] + set_profile_entry(ps.drop_first(), name, file)
    }
}

/// The directory after one write: the target file holds the written settings.
pub open spec fn apply_write_spec(store: StoreV, w: WriteV) -> StoreV {
    match w.target {
        TargetV::Base => StoreV { base: StoredV::Parsed(w.config), ..store },
        TargetV::Profile(name) => StoreV {
            profiles: set_profile_entry(store.profiles, name, StoredV::Parsed(w.config)),
            ..store
        },
    }
}

/// The directory after the writes, in order.
pub open spec fn apply_writes(store: StoreV, ws: Seq<WriteV>) -> StoreV
    decreases ws.len(),
{
    if ws.len() == 0 {
        store
    } else {
        apply_writes(apply_write_spec(store, ws[0]), ws.drop_first())
    }
}

/// After the write, the profile's file holds what was written.
proof fn lemma_set_profile_same(ps: Seq<(Seq<char>, StoredV)>, name: Seq<char>, file: StoredV)
    ensures
        profile_entry(set_profile_entry(ps, name, file), name) == Some(file),
    decreases ps.len(),
{
    if ps.len() > 0 && ps[0].0 != name {
        lemma_set_profile_same(ps.drop_first(), name, file);
        assert((seq![ps[0]] + set_profile_entry(ps.drop_first(), name, file)).drop_first()
            == set_profile_entry(ps.drop_first(), name, file));
    }
}

/// Replacing the first listed file of a profile is the recursive replacement.
proof fn lemma_set_profile_at(ps: Seq<(Seq<char>, StoredV)>, name: Seq<char>, file: StoredV, i: int)
    requires
        0 <= i <= ps.len(),
        forall|j: int| 0 <= j < i ==> (#[trigger] ps[j]).0 != name,
        i < ps.len() ==> ps[i].0 == name,
    ensures
        set_profile_entry(ps, name, file) == if i < ps.len() {
            ps.update(i, (name, file))
        } else {
            ps.push((name, file))
        },
    decreases ps.len(),
{
    if ps.len() == 0 {
    } else if i == 0 {
    } else {
        let rest = ps.drop_first();
        assert forall|j: int| 0 <= j < i - 1 implies (#[trigger] rest[j]).0 != name by {
            assert(rest[j] == ps[j + 1]);
        }
        lemma_set_profile_at(rest, name, file, i - 1);
        if i < ps.len() {
            assert(seq![ps[0]] + rest.update(i - 1, (name, file)) =~= ps.update(i, (name, file)));
        } else {
            assert(seq![ps[0]] + rest.push((name, file)) =~= ps.push((name, file)));
        }
    }
}

impl ConfigStore {
    /// Records a write: the target file now holds the written settings.
    pub fn apply(&mut self, w: &ConfigWrite)
        ensures
            final(self)@ == apply_write_spec(old(self)@, w@),
    {
        match &w.target {
            ConfigTarget::Base => {
                self.base = StoredConfig::Parsed(w.config.duplicate());
                proof {
                    assert(self@.profiles =~= old(self)@.profiles);
                }
            },
            ConfigTarget::Profile(name) => {
                let ghost ps = old(self)@.profiles;
                let mut i: usize = 0;
                while i < self.profiles.len()
                    invariant
                        self@ == old(self)@,
                        ps == self@.profiles,
                        ps.len() == self.profiles@.len(),
                        i <= ps.len(),
                        forall|j: int| 0 <= j < i ==> (#[trigger] ps[j]).0 != name@,
                    ensures
                        i <= ps.len(),
                        forall|j: int| 0 <= j < i ==> (#[trigger] ps[j]).0 != name@,
                        i < ps.len() ==> ps[i as int].0 == name@,
                    decreases ps.len() - i,
                {
                    assert(ps[i as int].0 == self.profiles@[i as int].0@);
                    if str_eq(self.profiles[i].0.as_str(), name.as_str()) {
                        break;
                    }
                    i = i + 1;
                }
                proof {
                    lemma_set_profile_at(ps, name@, StoredV::Parsed(w.config@), i as int);
                }
                let entry = (name.clone(), StoredConfig::Parsed(w.config.duplicate()));
                if i < self.profiles.len() {
                    self.profiles.set(i, entry);
                } else {
                    self.profiles.push(entry);
                }
                proof {
                    let expected = if i < ps.len() {
                        ps.update(i as int, (name@, StoredV::Parsed(w.config@)))
                    } else {
                        ps.push((name@, StoredV::Parsed(w.config@)))
                    };
                    assert(self@.profiles =~= expected);
                }
            },
        }
    }
}

/// The text `config get key` shows after `config set key value` succeeded:
/// the value itself, the accepted form of a base URL, or the project ID as
/// a number.
pub open spec fn stored_text(key: Seq<char>, value: Seq<char>) -> Seq<char> {
    if key == "api_key"@ {
        value
    } else if key == "base_url"@ {
        check_base_url_spec(value, parsed_url(value))->Ok_0
    } else {
        decimal(parse_u64_spec(value)->Some_0 as nat)
    }
}

/// A setting read back after it was set gives what was stored.
///
/// Once `config set key value` succeeds and its write is made, `config get
/// key` answers the stored form of `value`, whether the setting went into
/// `config.json` or into the active profile.
pub proof fn law_get_after_set(store: StoreV, key: Seq<char>, value: Seq<char>)
    requires
        set_value_spec(store, key, value) is Ok,
    ensures
        get_value_spec(apply_writes(store, set_value_spec(store, key, value)->Ok_0), key)
            == Ok::<Option<Seq<char>>, ErrorV>(Some(stored_text(key, value))),
{
    reveal_with_fuel(apply_writes, 2);
    let ws = set_value_spec(store, key, value)->Ok_0;
    assert(ws.drop_first() =~= Seq::<WriteV>::empty());
    let after = apply_writes(store, ws);
    assert(after == apply_write_spec(store, ws[0]));
    let base = stored_result(store.base)->Ok_0;
    match base.active_profile {
        Some(name) => {
            lemma_set_profile_same(store.profiles, name, StoredV::Parsed(ws[0].config));
        },
        None => {},
    }
}

/// Setting one key leaves every other setting as it was.
///
/// After `config set key value` succeeds and is written, `config get` of any
/// other key answers what it answered before.
pub proof fn law_set_keeps_other_keys(store: StoreV, key: Seq<char>, value: Seq<char>, other: Seq<char>)
    requires
        set_value_spec(store, key, value) is Ok,
        other != key,
    ensures
        get_value_spec(apply_writes(store, set_value_spec(store, key, value)->Ok_0), other)
            == get_value_spec(store, other),
{
    reveal_with_fuel(apply_writes, 2);
    let ws = set_value_spec(store, key, value)->Ok_0;
    assert(ws.drop_first() =~= Seq::<WriteV>::empty());
    let after = apply_writes(store, ws);
    assert(after == apply_write_spec(store, ws[0]));
    let base = stored_result(store.base)->Ok_0;
    match base.active_profile {
        Some(name) => {
            lemma_set_profile_same(store.profiles, name, StoredV::Parsed(ws[0].config));
        },
        None => {},
    }
}

/// Switching profiles is remembered.
///
/// Once `config use name` succeeds and its writes are made, the active
/// profile is `name` and its file exists.
pub proof fn law_use_then_active(store: StoreV, name: Seq<char>)
    requires
        set_active_profile_spec(store, name) is Ok,
    ensures
        active_profile_spec(apply_writes(store, set_active_profile_spec(store, name)->Ok_0))
            == Ok::<Option<Seq<char>>, ErrorV>(Some(name)),
        !(profile_file(apply_writes(store, set_active_profile_spec(store, name)->Ok_0), name) is Missing),
{
    reveal_with_fuel(apply_writes, 3);
    let ws = set_active_profile_spec(store, name)->Ok_0;
    if profile_file(store, name) is Missing {
        let s1 = apply_write_spec(store, ws[0]);
        lemma_set_profile_same(store.profiles, name, StoredV::Parsed(empty_config()));
        assert(ws.drop_first().drop_first() =~= Seq::<WriteV>::empty());
        assert(ws.drop_first()[0] == ws[1]);
        assert(apply_writes(s1, ws.drop_first()) == apply_write_spec(s1, ws[1]));
    } else {
        assert(ws.drop_first() =~= Seq::<WriteV>::empty());
    }
}

/// Switching profiles keeps the stored settings.
///
/// `config use name` changes only the active profile in `config.json`: once
/// its writes are made, the file holds the same API key, base URL and
/// default project as before, and names `name` as the active profile.
pub proof fn law_use_keeps_settings(store: StoreV, name: Seq<char>)
    requires
        set_active_profile_spec(store, name) is Ok,
    ensures
        read_raw_spec(store) is Ok,
        ({
            let before = read_raw_spec(store)->Ok_0;
            let after = read_raw_spec(apply_writes(store, set_active_profile_spec(store, name)->Ok_0));
            &&& after is Ok
            &&& after->Ok_0.api_key == before.api_key
            &&& after->Ok_0.base_url == before.base_url
            &&& after->Ok_0.default_project_id == before.default_project_id
            &&& after->Ok_0.active_profile == Some(name)
        }),
{
    reveal_with_fuel(apply_writes, 3);
    let ws = set_active_profile_spec(store, name)->Ok_0;
    if profile_file(store, name) is Missing {
        let s1 = apply_write_spec(store, ws[0]);
        assert(s1.base == store.base);
        assert(ws.drop_first().drop_first() =~= Seq::<WriteV>::empty());
        assert(ws.drop_first()[0] == ws[1]);
        assert(apply_writes(s1, ws.drop_first()) == apply_write_spec(s1, ws[1]));
    } else {
        assert(ws.drop_first() =~= Seq::<WriteV>::empty());
    }
}

/// Only encrypted or local URLs are accepted.
///
/// A base URL is accepted only when it parses, and its scheme is `https`, or
/// `http` with the host `localhost`, `127.0.0.1` or the IPv6 loopback
/// (`[::1]`, as `url` writes it); the URL kept is
/// the text without trailing slashes.
pub proof fn law_only_secure_or_local_urls(raw: Seq<char>, parts: Option<(Seq<char>, Option<Seq<char>>)>)
    requires
        check_base_url_spec(raw, parts) is Ok,
    ensures
        parts is Some,
        parts->Some_0.0 == "https"@ || (parts->Some_0.0 == "http"@ && is_local_host(parts->Some_0.1)),
        check_base_url_spec(raw, parts)->Ok_0 == trim_end_char(raw, '/'),
{
}

/// The active profile's settings win over the base file's.
///
/// When `config.json` names an active profile whose file holds a setting,
/// the effective configuration has the profile's value; a setting the
/// profile lacks keeps the base file's value.
pub proof fn law_profile_over_base(store: StoreV)
    requires
        read_config_spec(store) is Ok,
        stored_result(store.base) matches Ok(base) && base.active_profile is Some,
    ensures
        ({
            let base = stored_result(store.base)->Ok_0;
            let profile = stored_result(profile_file(store, base.active_profile->Some_0))->Ok_0;
            let merged = read_config_spec(store)->Ok_0;
            &&& merged.api_key == (if profile.api_key is Some { profile.api_key } else { base.api_key })
            &&& merged.base_url == (if profile.base_url is Some { profile.base_url } else { base.base_url })
            &&& merged.default_project_id == (if profile.default_project_id is Some {
                profile.default_project_id
            } else {
                base.default_project_id
            })
            &&& merged.active_profile == base.active_profile
        }),
{
}

/* ---------------------------------------------------------------------- */
/* Resolving the settings a command runs with                              */
/* ---------------------------------------------------------------------- */

/// The first of three optional settings that is present.
pub open spec fn first_present(a: Option<Seq<char>>, b: Option<Seq<char>>, c: Option<Seq<char>>) -> Option<Seq<char>> {
    if a is Some { a } else if b is Some { b } else { c }
}

/// The project ID an environment value gives, when it parses.
pub open spec fn env_project_id(v: Option<Seq<char>>) -> Option<u64> {
    match v {
        Some(t) => parse_u64_spec(t),
        None => None,
    }
}

/// The settings a command runs with. Each setting comes from the first of:
/// the command-line flag, the environment variable, the effective
/// configuration; else the API key is empty and the base URL is the default.
/// A project ID in the environment that does not parse is ignored. The base
/// URL must pass [`check_base_url_spec`].
pub open spec fn resolve_spec(
    store: StoreV,
    api_key: Option<Seq<char>>,
    base_url: Option<Seq<char>>,
    project_id: Option<u64>,
    verbose: bool,
    env_api_key: Option<Seq<char>>,
    env_base_url: Option<Seq<char>>,
    env_project: Option<Seq<char>>,
) -> Result<ResolvedV, ErrorV> {
    match read_config_spec(store) {
        Err(e) => Err(e),
        Ok(c) => {
            let key = match first_present(api_key, env_api_key, c.api_key) {
                Some(k) => k,
                None => Seq::empty(),
            };
            let url = match first_present(base_url, env_base_url, c.base_url) {
                Some(u) => u,
                None => DEFAULT_BASE_URL@,
            };
            let project = if project_id is Some {
                project_id
            } else if env_project_id(env_project) is Some {
                env_project_id(env_project)
            } else {
                c.default_project_id
            };
            match check_base_url_spec(url, parsed_url(url)) {
                Err(e) => Err(e),
                Ok(u) => Ok(ResolvedV { api_key: key, base_url: u, project_id: project, verbose }),
            }
        },
    }
}

/// The first of three optional strings that is present.
fn first_of(a: Option<String>, b: Option<String>, c: Option<String>) -> (r: Option<String>)
    ensures
        opt_view(r) == first_present(opt_view(a), opt_view(b), opt_view(c)),
{
    if a.is_some() {
        a
    } else if b.is_some() {
        b
    } else {
        c
    }
}

/// Resolves the settings a command runs with, from the flags, the
/// environment and the configuration directory.
pub fn resolve(store: &ConfigStore, overrides: Overrides, env: EnvSettings) -> (r: Result<ResolvedConfig, CliError>)
    ensures
        res_view(r) == resolve_spec(
            store@,
            opt_view(overrides.api_key),
            opt_view(overrides.base_url),
            overrides.project_id,
            overrides.verbose,
            opt_view(env.api_key),
            opt_view(env.base_url),
            opt_view(env.project_id),
        ),
{
    let config = match read_config(store) {
        Ok(c) => c,
        Err(e) => return Err(e),
    };
    let api_key = match first_of(overrides.api_key, env.api_key, config.api_key) {
        Some(k) => k,
        None => String::new(),
    };
    let base_url = match first_of(overrides.base_url, env.base_url, config.base_url) {
        Some(u) => u,
        None => String::from_str(DEFAULT_BASE_URL),
    };
    let env_project = match &env.project_id {
        Some(t) => parse_u64(t.as_str()),
        None => None,
    };
    let project_id = if overrides.project_id.is_some() {
        overrides.project_id
    } else if env_project.is_some() {
        env_project
    } else {
        config.default_project_id
    };
    match validate_base_url(base_url.as_str()) {
        Ok(url) => Ok(ResolvedConfig { api_key, base_url: url, project_id, verbose: overrides.verbose }),
        Err(e) => Err(e),
    }
}

/// Settings are resolved flag first, then environment, then files, then
/// the default.
///
/// For each of the API key, the base URL and the project, a command-line
/// flag wins; without one, the environment variable (for the project, one
/// that parses as a number); without that, the effective configuration
/// (the active profile over `config.json`); without that, the default: an
/// empty key, [`DEFAULT_BASE_URL`], no project.
pub proof fn law_resolution_order(
    store: StoreV,
    api_key: Option<Seq<char>>,
    base_url: Option<Seq<char>>,
    project_id: Option<u64>,
    verbose: bool,
    env_api_key: Option<Seq<char>>,
    env_base_url: Option<Seq<char>>,
    env_project: Option<Seq<char>>,
)
    requires
        resolve_spec(store, api_key, base_url, project_id, verbose, env_api_key, env_base_url, env_project) is Ok,
    ensures
        ({
            let c = read_config_spec(store)->Ok_0;
            let r = resolve_spec(store, api_key, base_url, project_id, verbose, env_api_key, env_base_url, env_project)->Ok_0;
            &&& api_key is Some ==> r.api_key == api_key->Some_0
            &&& api_key is None && env_api_key is Some ==> r.api_key == env_api_key->Some_0
            &&& api_key is None && env_api_key is None && c.api_key is Some ==> r.api_key == c.api_key->Some_0
            &&& api_key is None && env_api_key is None && c.api_key is None ==> r.api_key == Seq::<char>::empty()
            &&& base_url is Some ==> r.base_url == trim_end_char(base_url->Some_0, '/')
            &&& base_url is None && env_base_url is Some ==> r.base_url == trim_end_char(env_base_url->Some_0, '/')
            &&& base_url is None && env_base_url is None && c.base_url is Some
                ==> r.base_url == trim_end_char(c.base_url->Some_0, '/')
            &&& base_url is None && env_base_url is None && c.base_url is None
                ==> r.base_url == trim_end_char(DEFAULT_BASE_URL@, '/')
            &&& project_id is Some ==> r.project_id == project_id
            &&& project_id is None && env_project_id(env_project) is Some ==> r.project_id == env_project_id(env_project)
            &&& project_id is None && env_project_id(env_project) is None ==> r.project_id == c.default_project_id
            &&& r.verbose == verbose
        }),
{
}

/* ---------------------------------------------------------------------- */
/* Listing profiles                                                        */
/* ---------------------------------------------------------------------- */

/// The profile a file of the profiles directory holds: a name `stem.json`
/// with a non-empty stem holds profile `stem`.
pub open spec fn profile_of_file(file_name: Seq<char>) -> Option<Seq<char>> {
    if file_name.len() > 5 && file_name.subrange(file_name.len() - 5, file_name.len() as int) == ".json"@ {
        Some(file_name.subrange(0, file_name.len() - 5))
    } else {
        None
    }
}

/// The profiles the files hold, in the order of the files.
pub open spec fn profiles_in(files: Seq<Seq<char>>) -> Seq<Seq<char>>
    decreases files.len(),
{
    if files.len() == 0 {
        Seq::empty()
    } else {
        let rest = profiles_in(files.drop_last());
        match profile_of_file(files.last()) {
            Some(p) => rest.push(p),
            None => rest,
        }
    }
}

/// The profile held by one file name, if any.
fn profile_of(file_name: &str) -> (r: Option<String>)
    ensures
        opt_view(r) == profile_of_file(file_name@),
{
    let n = file_name.unicode_len();
    if n <= 5 {
        return None;
    }
    let ext = file_name.substring_char(n - 5, n);
    proof { reveal_strlit(".json"); }
    if str_eq(ext, ".json") {
        Some(String::from_str(file_name.substring_char(0, n - 5)))
    } else {
        None
    }
}

/// The profiles in the profiles directory (`config profiles`), given the
/// names of its entries, sorted.
pub fn list_profiles(file_names: &Vec<String>) -> (r: Vec<String>)
    ensures
        crate::text::sorted_texts(crate::text::texts(r@)),
        crate::text::texts(r@).to_multiset() == profiles_in(crate::text::texts(file_names@)).to_multiset(),
{
    let mut found: Vec<String> = Vec::new();
    let mut i: usize = 0;
    while i < file_names.len()
        invariant
            i <= file_names@.len(),
            crate::text::texts(found@) == profiles_in(crate::text::texts(file_names@).subrange(0, i as int)),
        decreases file_names@.len() - i,
    {
        let ghost prefix = crate::text::texts(file_names@).subrange(0, i + 1);
        assert(prefix.drop_last() == crate::text::texts(file_names@).subrange(0, i as int));
        assert(prefix.last() == file_names@[i as int]@);
        match profile_of(file_names[i].as_str()) {
            Some(p) => {
                found.push(p);
                assert(crate::text::texts(found@) =~= crate::text::texts(found@).drop_last().push(found@.last()@));
                assert(crate::text::texts(found@).drop_last() =~= profiles_in(prefix.drop_last()));
            },
            None => {},
        }
        i = i + 1;
    }
    assert(crate::text::texts(file_names@).subrange(0, file_names@.len() as int) == crate::text::texts(file_names@));
    crate::text::sort_strings(found)
}

} // verus!
