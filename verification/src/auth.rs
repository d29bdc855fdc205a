//! How callers of an agent server authenticate.

use vstd::prelude::*;
use crate::text::{entries, entries_of, opt_text, texts};

verus! {

/// The authentication that a server asks of its callers.
#[derive(Debug, Clone)]
pub enum AuthConfig {
    /// No authentication.
    NoAuth,
    /// Bearer tokens.
    BearerToken {
        /// The tokens that are accepted.
        tokens: Vec<String>,
        /// A description of the token format, such as `JWT`.
        format: Option<String>,
    },
    /// API keys.
    ApiKey {
        /// The keys that are accepted.
        keys: Vec<String>,
        /// Where the key is handed over: `header`, `query` or `cookie`.
        location: String,
        /// The name of the header, query parameter or cookie.
        name: String,
    },
}

pub enum AuthConfigView {
    NoAuth,
    BearerToken { tokens: Seq<Seq<char>>, format: Option<Seq<char>> },
    ApiKey { keys: Seq<Seq<char>>, location: Seq<char>, name: Seq<char> },
}

impl View for AuthConfig {
    type V = AuthConfigView;

    open spec fn view(&self) -> AuthConfigView {
        match self {
            AuthConfig::NoAuth => AuthConfigView::NoAuth,
            AuthConfig::BearerToken { tokens, format } => AuthConfigView::BearerToken {
                tokens: texts(tokens@),
                format: opt_text(*format),
            },
            AuthConfig::ApiKey { keys, location, name } => AuthConfigView::ApiKey {
                keys: texts(keys@),
                location: location@,
                name: name@,
            },
        }
    }
}

impl Default for AuthConfig {
    /// No authentication.
    fn default() -> (config: AuthConfig)
        ensures
            config@ is NoAuth,
    {
        AuthConfig::NoAuth
    }
}

/// Where an API key is handed over unless the configuration says otherwise.
pub fn default_api_key_location() -> (location: String)
    ensures
        location@ == "header"@,
{
    "header".to_string()
}

/// The name under which an API key is handed over unless the configuration
/// says otherwise.
pub fn default_api_key_name() -> (name: String)
    ensures
        name@ == "X-API-Key"@,
{
    "X-API-Key".to_string()
}

/// The configuration that the five settings stand for. Bearer tokens come
/// first: a comma-separated list with at least one non-empty entry selects
/// them. Else a list of API keys with at least one non-empty entry selects
/// API keys, handed over in the `header` named `X-API-Key` unless the
/// settings name another place. Else there is no authentication.
pub open spec fn auth_of(
    bearer_tokens: Option<Seq<char>>,
    bearer_format: Option<Seq<char>>,
    api_keys: Option<Seq<char>>,
    api_key_location: Option<Seq<char>>,
    api_key_name: Option<Seq<char>>,
) -> AuthConfigView {
    if bearer_tokens is Some && entries_of(bearer_tokens->0, ',').len() > 0 {
        AuthConfigView::BearerToken {
            tokens: entries_of(bearer_tokens->0, ','),
            format: bearer_format,
        }
    } else if api_keys is Some && entries_of(api_keys->0, ',').len() > 0 {
        AuthConfigView::ApiKey {
            keys: entries_of(api_keys->0, ','),
            location: if api_key_location is Some {
                api_key_location->0
            } else {
                "header"@
            },
            name: if api_key_name is Some {
                api_key_name->0
            } else {
                "X-API-Key"@
            },
        }
    } else {
        AuthConfigView::NoAuth
    }
}

impl AuthConfig {
    /// The configuration that the settings of the environment stand for,
    /// each handed in as it was read, absent where it is not set.
    pub fn from_values(
        bearer_tokens: Option<String>,
        bearer_format: Option<String>,
        api_keys: Option<String>,
        api_key_location: Option<String>,
        api_key_name: Option<String>,
    ) -> (config: AuthConfig)
        ensures
            config@ == auth_of(
                opt_text(bearer_tokens),
                opt_text(bearer_format),
                opt_text(api_keys),
                opt_text(api_key_location),
                opt_text(api_key_name),
            ),
    {
        match bearer_tokens {
            Some(list) => {
                let tokens = entries(list.as_str(), ',');
                if tokens.len() > 0 {
                    return AuthConfig::BearerToken { tokens, format: bearer_format };
                }
            },
            None => {},
        }
        match api_keys {
            Some(list) => {
                let keys = entries(list.as_str(), ',');
                if keys.len() > 0 {
                    let location = match api_key_location {
                        Some(l) => l,
                        None => default_api_key_location(),
                    };
                    let name = match api_key_name {
                        Some(n) => n,
                        None => default_api_key_name(),
                    };
                    return AuthConfig::ApiKey { keys, location, name };
                }
            },
            None => {},
        }
        AuthConfig::NoAuth
    }
}

} // verus!
