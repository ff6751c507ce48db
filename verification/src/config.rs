//! Where the gateway is and which token opens it.
//!
//! A token is looked for in this order, and the first hit wins: the
//! `OPENCLAW_TOKEN` environment variable; the token file; the OS keychain;
//! `gateway.auth.token` in `openclaw.json`. A token that came from the
//! keychain or from `openclaw.json` is mirrored into the token file, so that
//! the next launch finds it there.
use vstd::prelude::*;

use crate::crypto::{is_uuid_v4_text, new_uuid};
use crate::json::{parse, parsed, Json, JsonView};
use crate::net::fields::{
    get_optional_text, is_record, nested, optional_text, read_nested, record_shape,
};
use crate::text::{cat, trim, trimmed};

verus! {

/// Why no token could be had.
#[derive(Debug, PartialEq)]
pub enum ConfigError {
    NoHome,
    Read { path: String, source: String },
    Parse(String),
    MissingToken,
    Keyring(String),
    Io(String),
}

/// What [`ConfigError`] holds, as mathematical values.
#[verifier::ext_equal]
pub enum ConfigErrorView {
    NoHome,
    Read { path: Seq<char>, source: Seq<char> },
    Parse(Seq<char>),
    MissingToken,
    Keyring(Seq<char>),
    Io(Seq<char>),
}

impl DeepView for ConfigError {
    type V = ConfigErrorView;

    open spec fn deep_view(&self) -> ConfigErrorView {
        match *self {
            ConfigError::NoHome => ConfigErrorView::NoHome,
            ConfigError::Read { path, source } => ConfigErrorView::Read {
                path: path.deep_view(),
                source: source.deep_view(),
            },
            ConfigError::Parse(a0) => ConfigErrorView::Parse(a0.deep_view()),
            ConfigError::MissingToken => ConfigErrorView::MissingToken,
            ConfigError::Keyring(a0) => ConfigErrorView::Keyring(a0.deep_view()),
            ConfigError::Io(a0) => ConfigErrorView::Io(a0.deep_view()),
        }
    }
}

impl Clone for ConfigError {
    fn clone(&self) -> (r: ConfigError)
        ensures
            r.deep_view() == self.deep_view(),
    {
        match self {
            ConfigError::NoHome => ConfigError::NoHome,
            ConfigError::Read { path, source } => ConfigError::Read { path: path.clone(), source: source.clone() },
            ConfigError::Parse(a0) => ConfigError::Parse(a0.clone()),
            ConfigError::MissingToken => ConfigError::MissingToken,
            ConfigError::Keyring(a0) => ConfigError::Keyring(a0.clone()),
            ConfigError::Io(a0) => ConfigError::Io(a0.clone()),
        }
    }
}

impl ConfigErrorView {
    /// The error in words.
    pub open spec fn told(self) -> Seq<char> {
        match self {
            ConfigErrorView::NoHome => "no home directory available on this platform"@,
            ConfigErrorView::Read { path, source } => "failed to read "@ + path + (": "@ + source),
            ConfigErrorView::Parse(e) => "failed to parse openclaw.json: "@ + e,
            ConfigErrorView::MissingToken => "openclaw.json present but has no auth.token"@,
            ConfigErrorView::Keyring(e) => "keyring error: "@ + e,
            ConfigErrorView::Io(e) => "file write error: "@ + e,
        }
    }
}

impl ConfigError {
    /// The error in words.
    pub fn message(&self) -> (r: String)
        ensures
            r@ == self.deep_view().told(),
    {
        match self {
            ConfigError::NoHome => "no home directory available on this platform".to_owned(),
            ConfigError::Read { path, source } => {
                let what = cat("failed to read ", path.as_str());
                let why = cat(": ", source.as_str());
                cat(what.as_str(), why.as_str())
            },
            ConfigError::Parse(e) => cat("failed to parse openclaw.json: ", e.as_str()),
            ConfigError::MissingToken => "openclaw.json present but has no auth.token".to_owned(),
            ConfigError::Keyring(e) => cat("keyring error: ", e.as_str()),
            ConfigError::Io(e) => cat("file write error: ", e.as_str()),
        }
    }
}

/// A text without the white space around it, if anything is left.
pub open spec fn given(o: Option<Seq<char>>) -> Option<Seq<char>> {
    match o {
        Some(s) => if trimmed(s).len() == 0 {
            None
        } else {
            Some(trimmed(s))
        },
        None => None,
    }
}

/// A text without the white space around it, if anything is left.
pub fn given_text(o: Option<&str>) -> (r: Option<String>)
    ensures
        r.deep_view() == given(o.deep_view()),
{
    match o {
        Some(s) => {
            let t = trim(s);
            if t.as_str().is_empty() {
                None
            } else {
                Some(t)
            }
        },
        None => None,
    }
}

/// The gateway's URL: the environment's, else the saved one.
pub open spec fn resolved_url(env: Option<Seq<char>>, saved: Option<Seq<char>>) -> Option<
    Seq<char>,
> {
    match given(env) {
        Some(u) => Some(u),
        None => given(saved),
    }
}

/// Resolves the gateway URL from the environment variable, else from the
/// saved settings. `None` when neither gives one: there is no built-in
/// endpoint.
pub fn gateway_url(env: Option<&str>, saved: Option<&str>) -> (r: Option<String>)
    ensures
        r.deep_view() == resolved_url(env.deep_view(), saved.deep_view()),
{
    match given_text(env) {
        Some(u) => Some(u),
        None => given_text(saved),
    }
}

// ---------------------------------------------------------------------
// The token
// ---------------------------------------------------------------------

/// What to do next in the search for a token.
#[derive(Debug, PartialEq)]
pub enum TokenStep {
    /// Read the token file.
    ReadFile,
    /// Ask the keychain.
    AskKeychain,
    /// Read `openclaw.json`.
    ReadConfig,
    /// The token; `mirror` says that it has to be written to the token file.
    Found { token: String, mirror: bool },
    Failed(ConfigError),
}

/// What [`TokenStep`] holds, as mathematical values.
#[verifier::ext_equal]
pub enum TokenStepView {
    ReadFile,
    AskKeychain,
    ReadConfig,
    Found { token: Seq<char>, mirror: bool },
    Failed(ConfigErrorView),
}

impl DeepView for TokenStep {
    type V = TokenStepView;

    open spec fn deep_view(&self) -> TokenStepView {
        match *self {
            TokenStep::ReadFile => TokenStepView::ReadFile,
            TokenStep::AskKeychain => TokenStepView::AskKeychain,
            TokenStep::ReadConfig => TokenStepView::ReadConfig,
            TokenStep::Found { token, mirror } => TokenStepView::Found {
                token: token.deep_view(),
                mirror: mirror.deep_view(),
            },
            TokenStep::Failed(a0) => TokenStepView::Failed(a0.deep_view()),
        }
    }
}

impl Clone for TokenStep {
    fn clone(&self) -> (r: TokenStep)
        ensures
            r.deep_view() == self.deep_view(),
    {
        match self {
            TokenStep::ReadFile => TokenStep::ReadFile,
            TokenStep::AskKeychain => TokenStep::AskKeychain,
            TokenStep::ReadConfig => TokenStep::ReadConfig,
            TokenStep::Found { token, mirror } => TokenStep::Found { token: token.clone(), mirror: *mirror },
            TokenStep::Failed(a0) => TokenStep::Failed(a0.clone()),
        }
    }
}

/// The first step: the environment variable counts if it holds anything.
pub open spec fn token_from_env(env: Option<Seq<char>>) -> TokenStepView {
    match given(env) {
        Some(token) => TokenStepView::Found { token, mirror: false },
        None => TokenStepView::ReadFile,
    }
}

/// Starts the search for a token.
pub fn load_token(env: Option<&str>) -> (r: TokenStep)
    ensures
        r.deep_view() == token_from_env(env.deep_view()),
{
    match given_text(env) {
        Some(token) => TokenStep::Found { token, mirror: false },
        None => TokenStep::ReadFile,
    }
}

/// The step after the token file has been read.
pub open spec fn token_from_file(
    file: Result<Option<Seq<char>>, ConfigErrorView>,
) -> TokenStepView {
    match file {
        Ok(Some(raw)) => TokenStepView::Found { token: trimmed(raw), mirror: false },
        Ok(None) => TokenStepView::AskKeychain,
        Err(e) => TokenStepView::Failed(e),
    }
}

/// The step after the keychain has been asked.
pub open spec fn token_from_keychain(entry: Option<Seq<char>>) -> TokenStepView {
    match entry {
        Some(token) => TokenStepView::Found { token, mirror: true },
        None => TokenStepView::ReadConfig,
    }
}

/// The token at the end of the search.
pub open spec fn found_token(end: TokenStepView) -> Option<Seq<char>> {
    match end {
        TokenStepView::Found { token, .. } => Some(token),
        _ => None,
    }
}

/// The step after the token file: its contents count as they are, without
/// the white space around them; only a missing file leads on.
pub fn after_token_file(file: Result<Option<String>, ConfigError>) -> (r: TokenStep)
    ensures
        r.deep_view() == token_from_file(
            match file {
                Ok(raw) => Ok(raw.deep_view()),
                Err(e) => Err(e.deep_view()),
            },
        ),
{
    match file {
        Ok(Some(raw)) => TokenStep::Found { token: trim(raw.as_str()), mirror: false },
        Ok(None) => TokenStep::AskKeychain,
        Err(e) => TokenStep::Failed(e),
    }
}

/// The step after the keychain.
pub fn after_keychain(entry: Option<String>) -> (r: TokenStep)
    ensures
        r.deep_view() == token_from_keychain(entry.deep_view()),
{
    match entry {
        Some(token) => TokenStep::Found { token, mirror: true },
        None => TokenStep::ReadConfig,
    }
}

/// The token in `openclaw.json`, if it has one; `None` when the file has
/// another shape.
pub open spec fn config_token(v: JsonView) -> Option<Option<Seq<char>>> {
    match nested(v, "gateway"@) {
        None => None,
        Some(None) => Some(None),
        Some(Some(g)) => match nested(g, "auth"@) {
            None => None,
            Some(None) => Some(None),
            Some(Some(a)) => if is_record(a, 1) {
                optional_text(a, "token"@, 0, false)
            } else {
                None
            },
        },
    }
}

/// The step after `openclaw.json` has been parsed.
pub open spec fn token_from_config(v: JsonView) -> TokenStepView {
    match config_token(v) {
        Some(Some(token)) => TokenStepView::Found { token, mirror: true },
        Some(None) => TokenStepView::Failed(ConfigErrorView::MissingToken),
        None => TokenStepView::Failed(ConfigErrorView::Parse("unexpected shape"@)),
    }
}

fn read_config_token(v: &Json) -> (r: Option<Option<String>>)
    ensures
        r.deep_view() == config_token(v.deep_view()),
{
    match read_nested(v, "gateway") {
        None => None,
        Some(None) => Some(None),
        Some(Some(g)) => match read_nested(g, "auth") {
            None => None,
            Some(None) => Some(None),
            Some(Some(a)) => if record_shape(a, 1) {
                get_optional_text(a, "token", 0, false)
            } else {
                None
            },
        },
    }
}

/// Takes the token out of a parsed `openclaw.json`.
pub fn read_openclaw_config(v: &Json) -> (r: TokenStep)
    ensures
        r.deep_view() == token_from_config(v.deep_view()),
{
    match read_config_token(v) {
        Some(Some(token)) => TokenStep::Found { token, mirror: true },
        Some(None) => TokenStep::Failed(ConfigError::MissingToken),
        None => TokenStep::Failed(ConfigError::Parse("unexpected shape".to_owned())),
    }
}

/// The step after `openclaw.json`, the last one.
pub fn after_config(file: Result<String, ConfigError>) -> (r: TokenStep)
    ensures
        r.deep_view() == (match file {
            Ok(raw) => match parsed(raw@) {
                Ok(v) => token_from_config(v),
                Err(e) => TokenStepView::Failed(ConfigErrorView::Parse(e)),
            },
            Err(e) => TokenStepView::Failed(e.deep_view()),
        }),
        r.deep_view() is Found || r.deep_view() is Failed,
{
    match file {
        Ok(raw) => match parse(raw.as_str()) {
            Ok(v) => read_openclaw_config(&v),
            Err(e) => TokenStep::Failed(ConfigError::Parse(e)),
        },
        Err(e) => TokenStep::Failed(e),
    }
}

/// The token, if the search has found one. Without a token the gateway
/// authenticates the connection by other means.
pub fn try_load_token(end: TokenStep) -> (r: Option<String>)
    ensures
        r.deep_view() == found_token(end.deep_view()),
{
    match end {
        TokenStep::Found { token, .. } => Some(token),
        _ => None,
    }
}

// ---------------------------------------------------------------------
// The install
// ---------------------------------------------------------------------

/// The id of this install: the stored one, or a fresh one that has to be
/// stored.
pub fn instance_id(stored: Option<&str>) -> (r: (String, bool))
    ensures
        match given(stored.deep_view()) {
            Some(id) => r.0@ == id && !r.1,
            None => is_uuid_v4_text(r.0@) && r.1,
        },
{
    match given_text(stored) {
        Some(id) => (id, false),
        None => (new_uuid(), true),
    }
}

} // verus!
