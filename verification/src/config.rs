//! Start-up configuration.

use vstd::prelude::*;

use crate::models::AppState;

verus! {

/// The lowest plan tier; every new account starts on it.
pub const SUBSCRIPTION_PLAN_BASIC: &'static str = "basic";

/// The middle plan tier.
pub const SUBSCRIPTION_PLAN_STANDARD: &'static str = "standard";

/// The highest plan tier.
pub const SUBSCRIPTION_PLAN_PREMIUM: &'static str = "premium";

/// Why no configuration could be built.
#[derive(Clone, Copy, Debug, PartialEq, Eq, Structural)]
pub enum ConfigError {
    /// The upstream base URL is not set.
    MissingUrl,
    /// The upstream API key is not set.
    MissingApiKey,
}

/// Builds the configuration from the two settings as they were looked up.
///
/// Both are required. The base URL is looked at first, so when both are
/// absent the error names the URL.
pub fn load_config(supabase_url: Option<String>, supabase_api_key: Option<String>) -> (r: Result<
    AppState,
    ConfigError,
>)
    ensures
        match r {
            Ok(config) => supabase_url == Some(config.supabase_url) && supabase_api_key == Some(
                config.supabase_api_key,
            ),
            Err(ConfigError::MissingUrl) => supabase_url is None,
            Err(ConfigError::MissingApiKey) => supabase_url is Some && supabase_api_key is None,
        },
{
    match supabase_url {
        None => Err(ConfigError::MissingUrl),
        Some(url) => match supabase_api_key {
            None => Err(ConfigError::MissingApiKey),
            Some(key) => Ok(AppState { supabase_url: url, supabase_api_key: key }),
        },
    }
}

} // verus!
