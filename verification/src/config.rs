//! The persistent configuration: its shape, its token storage, and the
//! `config get` / `config set` key handling.
//!
//! Loading the file from disk and writing it back is I/O and happens
//! outside the library; everything that decides — key normalization,
//! validation, the field updates — is here and verified.

use vstd::prelude::*;
use crate::text;

verus! {

/// The application configuration file.
#[derive(Debug)]
pub struct Config {
    /// Access token, stored here only as a fallback when the platform
    /// secret store is unavailable; kept in plain text.
    pub figma_token: Option<String>,
    pub defaults: DefaultsConfig,
    pub export: ExportConfig,
    pub tokens: TokensConfig,
}

/// General defaults.
#[derive(Debug)]
pub struct DefaultsConfig {
    pub team_id: Option<String>,
    pub output_format: String,
    pub image_protocol: String,
}

/// Export defaults.
#[derive(Debug)]
pub struct ExportConfig {
    pub default_format: String,
    pub default_scale: u8,
    pub output_dir: Option<String>,
}

/// Design-token export defaults.
#[derive(Debug)]
pub struct TokensConfig {
    pub css_prefix: String,
    pub swift_prefix: String,
}

impl Default for DefaultsConfig {
    /// Empty defaults; the file format fills absent fields with the
    /// `default_*` values below when one is parsed.
    fn default() -> (r: Self)
        ensures
            r.team_id is None,
            r.output_format@ == Seq::<char>::empty(),
            r.image_protocol@ == Seq::<char>::empty(),
    {
        DefaultsConfig { team_id: None, output_format: String::new(), image_protocol: String::new() }
    }
}

impl Default for ExportConfig {
    /// Empty defaults; the file format fills absent fields with the
    /// `default_*` values below when one is parsed.
    fn default() -> (r: Self)
        ensures
            r.default_format@ == Seq::<char>::empty(),
            r.default_scale == 0,
            r.output_dir is None,
    {
        ExportConfig { default_format: String::new(), default_scale: 0, output_dir: None }
    }
}

impl Default for TokensConfig {
    /// Empty defaults; the file format fills absent fields with the
    /// `default_*` values below when one is parsed.
    fn default() -> (r: Self)
        ensures
            r.css_prefix@ == Seq::<char>::empty(),
            r.swift_prefix@ == Seq::<char>::empty(),
    {
        TokensConfig { css_prefix: String::new(), swift_prefix: String::new() }
    }
}

impl Default for Config {
    /// The configuration before any file was read.
    fn default() -> (r: Self)
        ensures
            r.figma_token is None,
            r.defaults.team_id is None,
            r.export.output_dir is None,
    {
        Config {
            figma_token: None,
            defaults: DefaultsConfig::default(),
            export: ExportConfig::default(),
            tokens: TokensConfig::default(),
        }
    }
}

/// Default output rendering.
pub fn default_output_format() -> (r: String)
    ensures
        r@ == "table"@,
{
    String::from_str("table")
}

/// Default terminal image protocol.
pub fn default_image_protocol() -> (r: String)
    ensures
        r@ == "auto"@,
{
    String::from_str("auto")
}

/// Default export image format.
pub fn default_format() -> (r: String)
    ensures
        r@ == "png"@,
{
    String::from_str("png")
}

/// Default export scale factor.
pub fn default_scale() -> (r: u8)
    ensures
        r == 2,
{
    2
}

/// Default prefix of emitted CSS custom properties.
pub fn default_css_prefix() -> (r: String)
    ensures
        r@ == "--figma-"@,
{
    String::from_str("--figma-")
}

/// Default prefix of emitted Swift identifiers.
pub fn default_swift_prefix() -> (r: String)
    ensures
        r@ == "Figma"@,
{
    String::from_str("Figma")
}

/// Relies on directories::ProjectDirs::from and its config_dir
/// accessor: the platform configuration directory of this application,
/// when the platform reports a home directory.  The value depends on
/// the environment, so nothing is assumed of it.
#[verifier::external_body]
pub(crate) fn platform_config_dir() -> Option<String> {
    directories::ProjectDirs::from("", "", "fgm").map(
        |dirs| dirs.config_dir().to_string_lossy().into_owned(),
    )
}

/// Relies on directories::ProjectDirs::from and its cache_dir
/// accessor: the platform cache directory of this application, when
/// the platform reports a home directory.  The value depends on the
/// environment, so nothing is assumed of it.
#[verifier::external_body]
pub(crate) fn platform_cache_dir() -> Option<String> {
    directories::ProjectDirs::from("", "", "fgm").map(
        |dirs| dirs.cache_dir().to_string_lossy().into_owned(),
    )
}

impl Config {
    /// The configuration directory, where the platform names one.
    pub fn config_dir() -> Option<String> {
        platform_config_dir()
    }

    /// The configuration file path: the file `config.toml` under the
    /// configuration directory, where the platform names one.
    pub fn config_path() -> (r: Option<String>)
        ensures
            r matches Some(p) ==> exists|d: Seq<char>| p@ == d + "/config.toml"@,
    {
        match Self::config_dir() {
            Some(d) => {
                let p = d.concat("/config.toml");
                proof {
                    assert(p@ == d@ + "/config.toml"@);
                }
                Some(p)
            },
            None => None,
        }
    }

    /// The stored fallback token, if any.
    pub fn get_token(&self) -> (r: Option<&str>)
        ensures
            match r {
                Some(t) => self.figma_token matches Some(x) && t@ == x@,
                None => self.figma_token is None,
            },
    {
        match &self.figma_token {
            Some(t) => Some(t.as_str()),
            None => None,
        }
    }

    /// Store the fallback token; it is kept in plain text.
    pub fn set_token(&mut self, token: &str)
        ensures
            final(self).figma_token matches Some(t) && t@ == token@,
            final(self).defaults == old(self).defaults,
            final(self).export == old(self).export,
            final(self).tokens == old(self).tokens,
    {
        self.figma_token = Some(token.to_owned());
    }

    /// Drop the fallback token.
    pub fn remove_token(&mut self)
        ensures
            final(self).figma_token is None,
            final(self).defaults == old(self).defaults,
            final(self).export == old(self).export,
            final(self).tokens == old(self).tokens,
    {
        self.figma_token = None;
    }

    /// A fallback token is stored.
    pub fn has_token(&self) -> (r: bool)
        ensures
            r == (self.figma_token is Some),
    {
        self.figma_token.is_some()
    }
}

/// A configuration key character, canonicalized: hyphens become
/// underscores, ASCII letters lower case.
pub open spec fn norm_char(c: char) -> char {
    if c == '-' {
        '_'
    } else {
        text::lower_char(c)
    }
}

/// The canonical characters of a key, spaces dropped.
pub open spec fn squeeze_norm(s: Seq<char>) -> Seq<char>
    decreases s.len(),
{
    if s.len() == 0 {
        Seq::empty()
    } else {
        let rest = squeeze_norm(s.drop_last());
        if s.last() == ' ' {
            rest
        } else {
            rest.push(norm_char(s.last()))
        }
    }
}

/// A configuration key as the lookup sees it: trimmed, lower-cased,
/// hyphens as underscores, spaces removed.
pub open spec fn normalized_key(s: Seq<char>) -> Seq<char> {
    squeeze_norm(text::trim_seq(s))
}

/// Canonicalize a configuration key.
pub fn normalize_key(key: &str) -> (r: String)
    ensures
        r@ == normalized_key(key@),
{
    let trimmed = text::trim_ascii(key);
    let n = trimmed.unicode_len();
    let mut out = String::new();
    let mut i: usize = 0;
    while i < n
        invariant
            n == trimmed@.len(),
            0 <= i <= n,
            out@ == squeeze_norm(trimmed@.take(i as int)),
        decreases n - i,
    {
        let c = trimmed.get_char(i);
        proof {
            assert(trimmed@.take(i + 1).drop_last() =~= trimmed@.take(i as int));
            assert(trimmed@.take(i + 1).last() == trimmed@.index(i as int));
        }
        if c != ' ' {
            let c2 = if c == '-' {
                '_'
            } else {
                text::lower_char_exec(c)
            };
            out.push(c2);
        }
        i += 1;
    }
    proof {
        assert(trimmed@.take(n as int) =~= trimmed@);
    }
    out
}

/// The keys `config get` and `config set` understand.
pub open spec fn known_key(k: Seq<char>) -> bool {
    ||| k == "defaults.team_id"@
    ||| k == "defaults.output_format"@
    ||| k == "defaults.image_protocol"@
    ||| k == "export.default_format"@
    ||| k == "export.default_scale"@
    ||| k == "export.output_dir"@
    ||| k == "tokens.css_prefix"@
    ||| k == "tokens.swift_prefix"@
}

/// The value `config get` reports for a known key: the field's text,
/// an empty string for an unset optional field, the scale in decimal.
pub open spec fn value_of(c: Config, k: Seq<char>) -> Seq<char> {
    if k == "defaults.team_id"@ {
        match c.defaults.team_id {
            Some(t) => t@,
            None => Seq::empty(),
        }
    } else if k == "defaults.output_format"@ {
        c.defaults.output_format@
    } else if k == "defaults.image_protocol"@ {
        c.defaults.image_protocol@
    } else if k == "export.default_format"@ {
        c.export.default_format@
    } else if k == "export.default_scale"@ {
        text::dec_of(c.export.default_scale as nat)
    } else if k == "export.output_dir"@ {
        match c.export.output_dir {
            Some(d) => d@,
            None => Seq::empty(),
        }
    } else if k == "tokens.css_prefix"@ {
        c.tokens.css_prefix@
    } else {
        c.tokens.swift_prefix@
    }
}

/// Why a `config get` or `config set` was rejected.
#[derive(Debug, PartialEq, Eq, Structural)]
pub enum ConfigError {
    /// The key names no known setting.
    UnknownKey,
    /// The setting needs a value and none was given.
    MissingValue,
    /// The value is outside the setting's accepted set.
    InvalidValue,
}

/// Read one setting.
pub fn get_value(config: &Config, key: &str) -> (r: Result<String, ConfigError>)
    ensures
        (r is Ok) == known_key(normalized_key(key@)),
        r matches Ok(v) ==> v@ == value_of(*config, normalized_key(key@)),
        r is Err ==> r == Err::<String, ConfigError>(ConfigError::UnknownKey),
{
    let nk = normalize_key(key);
    let k = nk.as_str();
    if text::str_eq(k, "defaults.team_id") {
        Ok(
            match &config.defaults.team_id {
                Some(t) => t.clone(),
                None => String::new(),
            },
        )
    } else if text::str_eq(k, "defaults.output_format") {
        Ok(config.defaults.output_format.clone())
    } else if text::str_eq(k, "defaults.image_protocol") {
        Ok(config.defaults.image_protocol.clone())
    } else if text::str_eq(k, "export.default_format") {
        Ok(config.export.default_format.clone())
    } else if text::str_eq(k, "export.default_scale") {
        Ok(text::dec_string(config.export.default_scale as u64))
    } else if text::str_eq(k, "export.output_dir") {
        Ok(
            match &config.export.output_dir {
                Some(d) => d.clone(),
                None => String::new(),
            },
        )
    } else if text::str_eq(k, "tokens.css_prefix") {
        Ok(config.tokens.css_prefix.clone())
    } else if text::str_eq(k, "tokens.swift_prefix") {
        Ok(config.tokens.swift_prefix.clone())
    } else {
        Err(ConfigError::UnknownKey)
    }
}

/// The lowered value is accepted for the validated key `k`.
pub open spec fn accepted_for(k: Seq<char>, l: Seq<char>) -> bool {
    if k == "defaults.output_format"@ {
        l == "table"@ || l == "json"@
    } else if k == "defaults.image_protocol"@ {
        l == "auto"@ || l == "sixel"@ || l == "iterm"@ || l == "kitty"@
    } else if k == "export.default_format"@ {
        l == "png"@ || l == "svg"@ || l == "pdf"@ || l == "jpg"@
    } else {
        l == "1"@ || l == "2"@ || l == "3"@ || l == "4"@
    }
}

/// The scale a digit string names.
pub open spec fn scale_of(l: Seq<char>) -> u8 {
    if l == "1"@ {
        1
    } else if l == "2"@ {
        2
    } else if l == "3"@ {
        3
    } else {
        4
    }
}

/// The rejection a `config set` earns, or nothing when it is accepted.
pub open spec fn set_value_err(k: Seq<char>, v: Option<Seq<char>>, unset: bool) -> Option<
    ConfigError,
> {
    if k == "defaults.team_id"@ {
        if unset || v is Some {
            None
        } else {
            Some(ConfigError::MissingValue)
        }
    } else if k == "defaults.output_format"@ || k == "defaults.image_protocol"@ || k
        == "export.default_format"@ || k == "export.default_scale"@ {
        match v {
            None => Some(ConfigError::MissingValue),
            Some(s) => if accepted_for(k, text::lower_seq(s)) {
                None
            } else {
                Some(ConfigError::InvalidValue)
            },
        }
    } else if k == "export.output_dir"@ {
        if unset || v is Some {
            None
        } else {
            Some(ConfigError::MissingValue)
        }
    } else if k == "tokens.css_prefix"@ || k == "tokens.swift_prefix"@ {
        if v is Some {
            None
        } else {
            Some(ConfigError::MissingValue)
        }
    } else {
        Some(ConfigError::UnknownKey)
    }
}

/// How an accepted `config set` leaves the configuration.
pub open spec fn config_updated(
    c0: Config,
    c1: Config,
    k: Seq<char>,
    v: Option<Seq<char>>,
    unset: bool,
) -> bool {
    &&& c1.figma_token == c0.figma_token
    &&& (if k == "defaults.team_id"@ {
        &&& (if unset {
            c1.defaults.team_id is None
        } else {
            c1.defaults.team_id matches Some(t) && Some(t@) == v
        })
        &&& c1.defaults.output_format == c0.defaults.output_format
        &&& c1.defaults.image_protocol == c0.defaults.image_protocol
        &&& c1.export == c0.export
        &&& c1.tokens == c0.tokens
    } else if k == "defaults.output_format"@ {
        &&& v matches Some(s) && c1.defaults.output_format@ == text::lower_seq(s)
        &&& c1.defaults.team_id == c0.defaults.team_id
        &&& c1.defaults.image_protocol == c0.defaults.image_protocol
        &&& c1.export == c0.export
        &&& c1.tokens == c0.tokens
    } else if k == "defaults.image_protocol"@ {
        &&& v matches Some(s) && c1.defaults.image_protocol@ == text::lower_seq(s)
        &&& c1.defaults.team_id == c0.defaults.team_id
        &&& c1.defaults.output_format == c0.defaults.output_format
        &&& c1.export == c0.export
        &&& c1.tokens == c0.tokens
    } else if k == "export.default_format"@ {
        &&& v matches Some(s) && c1.export.default_format@ == text::lower_seq(s)
        &&& c1.export.default_scale == c0.export.default_scale
        &&& c1.export.output_dir == c0.export.output_dir
        &&& c1.defaults == c0.defaults
        &&& c1.tokens == c0.tokens
    } else if k == "export.default_scale"@ {
        &&& v matches Some(s) && c1.export.default_scale == scale_of(text::lower_seq(s))
        &&& c1.export.default_format == c0.export.default_format
        &&& c1.export.output_dir == c0.export.output_dir
        &&& c1.defaults == c0.defaults
        &&& c1.tokens == c0.tokens
    } else if k == "export.output_dir"@ {
        &&& (if unset {
            c1.export.output_dir is None
        } else {
            c1.export.output_dir matches Some(d) && Some(d@) == v
        })
        &&& c1.export.default_format == c0.export.default_format
        &&& c1.export.default_scale == c0.export.default_scale
        &&& c1.defaults == c0.defaults
        &&& c1.tokens == c0.tokens
    } else if k == "tokens.css_prefix"@ {
        &&& v matches Some(s) && c1.tokens.css_prefix@ == s
        &&& c1.tokens.swift_prefix == c0.tokens.swift_prefix
        &&& c1.defaults == c0.defaults
        &&& c1.export == c0.export
    } else {
        &&& v matches Some(s) && c1.tokens.swift_prefix@ == s
        &&& c1.tokens.css_prefix == c0.tokens.css_prefix
        &&& c1.defaults == c0.defaults
        &&& c1.export == c0.export
    })
}

/// Write one setting.  Unknown keys, missing values and values outside
/// a setting's accepted set are rejected and leave the configuration
/// untouched; `unset` clears the optional settings.
pub fn set_value(config: &mut Config, key: &str, value: Option<&str>, unset: bool) -> (r: Result<
    (),
    ConfigError,
>)
    ensures
        (r is Ok) == (set_value_err(normalized_key(key@), value.deep_view(), unset) is None),
        r matches Err(e) ==> Some(e) == set_value_err(
            normalized_key(key@), value.deep_view(), unset),
        r is Ok ==> config_updated(
            *old(config), *final(config), normalized_key(key@), value.deep_view(), unset),
        r is Err ==> *final(config) == *old(config),
{
    let nk = normalize_key(key);
    let k = nk.as_str();
    if text::str_eq(k, "defaults.team_id") {
        if unset {
            config.defaults.team_id = None;
            Ok(())
        } else {
            match value {
                Some(v) => {
                    config.defaults.team_id = Some(v.to_owned());
            Ok(())
                },
                None => Err(ConfigError::MissingValue),
            }
        }
    } else if text::str_eq(k, "defaults.output_format") {
        match value {
            Some(v) => {
                let l = text::lower_ascii(v);
                if text::str_eq(l.as_str(), "table") || text::str_eq(l.as_str(), "json") {
                    config.defaults.output_format = l;
            Ok(())
                } else {
                    Err(ConfigError::InvalidValue)
                }
            },
            None => Err(ConfigError::MissingValue),
        }
    } else if text::str_eq(k, "defaults.image_protocol") {
        match value {
            Some(v) => {
                let l = text::lower_ascii(v);
                if text::str_eq(l.as_str(), "auto") || text::str_eq(l.as_str(), "sixel")
                    || text::str_eq(l.as_str(), "iterm") || text::str_eq(l.as_str(), "kitty") {
                    config.defaults.image_protocol = l;
            Ok(())
                } else {
                    Err(ConfigError::InvalidValue)
                }
            },
            None => Err(ConfigError::MissingValue),
        }
    } else if text::str_eq(k, "export.default_format") {
        match value {
            Some(v) => {
                let l = text::lower_ascii(v);
                if text::str_eq(l.as_str(), "png") || text::str_eq(l.as_str(), "svg")
                    || text::str_eq(l.as_str(), "pdf") || text::str_eq(l.as_str(), "jpg") {
                    config.export.default_format = l;
            Ok(())
                } else {
                    Err(ConfigError::InvalidValue)
                }
            },
            None => Err(ConfigError::MissingValue),
        }
    } else if text::str_eq(k, "export.default_scale") {
        match value {
            Some(v) => {
                let l = text::lower_ascii(v);
                let scale: u8 = if text::str_eq(l.as_str(), "1") {
                    1
                } else if text::str_eq(l.as_str(), "2") {
                    2
                } else if text::str_eq(l.as_str(), "3") {
                    3
                } else if text::str_eq(l.as_str(), "4") {
                    4
                } else {
                    0
                };
                if scale == 0 {
                    Err(ConfigError::InvalidValue)
                } else {
                    config.export.default_scale = scale;
            Ok(())
                }
            },
            None => Err(ConfigError::MissingValue),
        }
    } else if text::str_eq(k, "export.output_dir") {
        if unset {
            config.export.output_dir = None;
            Ok(())
        } else {
            match value {
                Some(v) => {
                    config.export.output_dir = Some(v.to_owned());
            Ok(())
                },
                None => Err(ConfigError::MissingValue),
            }
        }
    } else if text::str_eq(k, "tokens.css_prefix") {
        match value {
            Some(v) => {
                config.tokens.css_prefix = v.to_owned();
                Ok(())
            },
            None => Err(ConfigError::MissingValue),
        }
    } else if text::str_eq(k, "tokens.swift_prefix") {
        match value {
            Some(v) => {
                config.tokens.swift_prefix = v.to_owned();
                Ok(())
            },
            None => Err(ConfigError::MissingValue),
        }
    } else {
        Err(ConfigError::UnknownKey)
    }
}

} // verus!
