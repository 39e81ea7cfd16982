//! Token selection and bookkeeping.
//!
//! The token can come from the environment, the platform secret store,
//! or the configuration file.  Reading and writing those places is I/O
//! and happens outside the library; what is decided — which source
//! wins, what counts as removal, how a token is displayed — is here.

use vstd::prelude::*;
use crate::config::Config;
use crate::text;

verus! {

/// Where a token was found.
#[derive(Debug, Clone, PartialEq, Eq, Structural)]
pub enum TokenSource {
    /// The environment variable.
    Environment,
    /// The platform secret store.
    Keychain,
    /// The configuration file.
    ConfigFile,
}

impl TokenSource {
    /// The source, described for diagnostics.
    pub fn describe(&self) -> (r: &'static str)
        ensures
            self is Environment ==> r@ == "environment variable (FIGMA_TOKEN)"@,
            self is Keychain ==> r@ == "system keychain"@,
            self is ConfigFile ==> r@ == "config file (~/.config/fgm/config.toml)"@,
    {
        match self {
            TokenSource::Environment => "environment variable (FIGMA_TOKEN)",
            TokenSource::Keychain => "system keychain",
            TokenSource::ConfigFile => "config file (~/.config/fgm/config.toml)",
        }
    }
}

/// A token together with where it was found.
#[derive(Debug)]
pub struct TokenResult {
    pub token: String,
    pub source: TokenSource,
}

/// Which source supplies the token, given what each source held: a
/// non-empty environment value wins, then the secret store, then the
/// configuration file.
pub open spec fn token_choice(
    env: Option<Seq<char>>,
    keychain: Option<Seq<char>>,
    config: Option<Seq<char>>,
) -> Option<(TokenSource, Seq<char>)> {
    if env matches Some(t) && t.len() > 0 {
        Some((TokenSource::Environment, env->Some_0))
    } else if keychain is Some {
        Some((TokenSource::Keychain, keychain->Some_0))
    } else if config is Some {
        Some((TokenSource::ConfigFile, config->Some_0))
    } else {
        None
    }
}

/// Pick the token and remember its source.  Each argument holds what
/// the corresponding storage reported, or nothing where it had no
/// token.
pub fn get_token_with_source(
    env_token: Option<String>,
    keychain_token: Option<String>,
    config_token: Option<String>,
) -> (r: Option<TokenResult>)
    ensures
        match r {
            Some(tr) => token_choice(
                env_token.deep_view(), keychain_token.deep_view(), config_token.deep_view())
                == Some((tr.source, tr.token@)),
            None => token_choice(
                env_token.deep_view(), keychain_token.deep_view(), config_token.deep_view())
                is None,
        },
{
    match env_token {
        Some(t) => {
            if t.as_str().unicode_len() > 0 {
                return Some(TokenResult { token: t, source: TokenSource::Environment });
            }
        },
        None => {},
    }
    match keychain_token {
        Some(t) => {
            return Some(TokenResult { token: t, source: TokenSource::Keychain });
        },
        None => {},
    }
    match config_token {
        Some(t) => Some(TokenResult { token: t, source: TokenSource::ConfigFile }),
        None => None,
    }
}

/// Pick the token alone.
pub fn get_token(
    env_token: Option<String>,
    keychain_token: Option<String>,
    config_token: Option<String>,
) -> (r: Option<String>)
    ensures
        match r {
            Some(t) => token_choice(
                env_token.deep_view(), keychain_token.deep_view(), config_token.deep_view())
                matches Some(p) && p.1 == t@,
            None => token_choice(
                env_token.deep_view(), keychain_token.deep_view(), config_token.deep_view())
                is None,
        },
{
    match get_token_with_source(env_token, keychain_token, config_token) {
        Some(tr) => Some(tr.token),
        None => None,
    }
}

/// Some source holds a token.
pub fn has_token(
    env_token: Option<String>,
    keychain_token: Option<String>,
    config_token: Option<String>,
) -> (r: bool)
    ensures
        r == (token_choice(
            env_token.deep_view(), keychain_token.deep_view(), config_token.deep_view())
            is Some),
{
    match get_token_with_source(env_token, keychain_token, config_token) {
        Some(_) => true,
        None => false,
    }
}

/// The token of the configuration file, owned.
pub fn get_token_from_config(config: &Config) -> (r: Option<String>)
    ensures
        match r {
            Some(t) => config.figma_token matches Some(x) && t@ == x@,
            None => config.figma_token is None,
        },
{
    match &config.figma_token {
        Some(t) => Some(t.clone()),
        None => None,
    }
}

/// Store the token in the configuration; the file is written by the
/// caller afterwards.
pub fn store_token_in_config(config: &mut Config, token: &str)
    ensures
        final(config).figma_token matches Some(t) && t@ == token@,
        final(config).defaults == old(config).defaults,
        final(config).export == old(config).export,
        final(config).tokens == old(config).tokens,
{
    config.set_token(token);
}

/// The configuration file held no token to remove.
#[derive(Debug, PartialEq, Eq, Structural)]
pub struct NoTokenInConfig;

/// Drop the token from the configuration, if it holds one; the caller
/// writes the file back only on success.
pub fn remove_token_from_config(config: &mut Config) -> (r: Result<(), NoTokenInConfig>)
    ensures
        (r is Ok) == (old(config).figma_token is Some),
        r is Ok ==> final(config).figma_token is None && final(config).defaults == old(
            config).defaults && final(config).export == old(config).export && final(
            config).tokens == old(config).tokens,
        r is Err ==> *final(config) == *old(config),
{
    if config.has_token() {
        config.remove_token();
        Ok(())
    } else {
        Err(NoTokenInConfig)
    }
}

/// The message reported when neither place would give its token up:
/// the two complaints joined into one line.
pub open spec fn removal_message(ke: Seq<char>, ce: Seq<char>) -> Seq<char> {
    "Failed to remove token: keychain: "@ + ke + ", config: "@ + ce
}

/// Combine the outcomes of removing the token from the secret store
/// and from the configuration file: removal succeeds when either place
/// gave its token up.  `None` stands for a successful removal, `Some`
/// carries the failure's description.
pub fn remove_token(keychain_err: Option<String>, config_err: Option<String>) -> (r: Result<
    (),
    String,
>)
    ensures
        (r is Ok) == (keychain_err is None || config_err is None),
        r matches Err(m) ==> keychain_err matches Some(ke) && config_err matches Some(ce) && m@
            == removal_message(ke@, ce@),
{
    match (keychain_err, config_err) {
        (Some(ke), Some(ce)) => {
            let m = String::from_str("Failed to remove token: keychain: ").concat(
                ke.as_str()).concat(", config: ").concat(ce.as_str());
            Err(m)
        },
        _ => Ok(()),
    }
}

/// The service and account names under which the secret store keeps
/// the token.
pub fn get_keychain_info() -> (r: (&'static str, &'static str))
    ensures
        r.0@ == "fgm"@,
        r.1@ == "figma_token"@,
{
    ("fgm", "figma_token")
}

/// A token as it may be shown: twelve characters or fewer become all
/// asterisks; longer tokens show their first eight and last four
/// characters around an ellipsis.
pub open spec fn masked(t: Seq<char>) -> Seq<char> {
    if t.len() <= 12 {
        Seq::new(t.len(), |i: int| '*')
    } else {
        t.take(8) + "..."@ + t.skip(t.len() - 4)
    }
}

/// Mask a token for display.
pub fn mask_token(token: &str) -> (r: String)
    ensures
        r@ == masked(token@),
{
    let n = token.unicode_len();
    if n <= 12 {
        let mut out = String::new();
        let mut i: usize = 0;
        while i < n
            invariant
                0 <= i <= n,
                out@ =~= Seq::new(i as nat, |t: int| '*'),
            decreases n - i,
        {
            out.push('*');
            proof {
                assert(out@ =~= Seq::new((i + 1) as nat, |t: int| '*'));
            }
            i += 1;
        }
        proof {
            assert(out@ =~= masked(token@));
        }
        out
    } else {
        let head = token.substring_char(0, 8);
        let tail = token.substring_char(n - 4, n);
        let r = head.to_owned().concat("...").concat(tail);
        proof {
            assert(head@ =~= token@.take(8));
            assert(tail@ =~= token@.skip(token@.len() - 4));
        }
        r
    }
}

/// The mask of a short token has the token's length and shows none of
/// its characters.
pub proof fn lemma_short_mask_hides(t: Seq<char>)
    requires
        t.len() <= 12,
    ensures
        masked(t).len() == t.len(),
        forall|i: int| 0 <= i < masked(t).len() ==> masked(t).index(i) == '*',
{
}

} // verus!
