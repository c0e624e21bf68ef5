//! The configuration snapshot the client is built from: the credential and
//! the remote service's host and path prefix, gathered once by the caller
//! (from the environment or a file) and immutable afterwards.

use vstd::prelude::*;
use vstd::string::*;

verus! {

/// The host of the remote weather service used when the configuration
/// names none.
pub fn default_api_endpoint() -> (r: String)
    ensures
        r@ == "api.openweathermap.org"@,
{
    String::from_str("api.openweathermap.org")
}

/// The path prefix of the remote weather service used when the
/// configuration names none.
pub fn default_api_path() -> (r: String)
    ensures
        r@ == "data/2.5/"@,
{
    String::from_str("data/2.5/")
}

/// Configuration data: the credential, the service host and path prefix,
/// and optional default location selectors.
pub struct ConfigBase {
    pub api_key: Option<String>,
    pub api_endpoint: String,
    pub api_path: String,
    pub country_code: Option<String>,
    pub city_name: Option<String>,
}

impl Default for ConfigBase {
    /// No credential, empty host and path, no default location.
    fn default() -> (r: Self)
        ensures
            r.api_key is None,
            r.api_endpoint@.len() == 0,
            r.api_path@.len() == 0,
            r.country_code is None,
            r.city_name is None,
    {
        ConfigBase {
            api_key: None,
            api_endpoint: String::new(),
            api_path: String::new(),
            country_code: None,
            city_name: None,
        }
    }
}

impl ConfigBase {
    /// Builds the configuration from the values the environment supplied,
    /// filling the host and path prefix with their defaults where the
    /// environment gave none.
    pub fn from_values(
        api_key: Option<String>,
        api_endpoint: Option<String>,
        api_path: Option<String>,
        country_code: Option<String>,
        city_name: Option<String>,
    ) -> (r: ConfigBase)
        ensures
            r.api_key == api_key,
            api_endpoint is Some ==> r.api_endpoint == api_endpoint->0,
            api_endpoint is None ==> r.api_endpoint@ == "api.openweathermap.org"@,
            api_path is Some ==> r.api_path == api_path->0,
            api_path is None ==> r.api_path@ == "data/2.5/"@,
            r.country_code == country_code,
            r.city_name == city_name,
    {
        let api_endpoint = match api_endpoint {
            Some(e) => e,
            None => default_api_endpoint(),
        };
        let api_path = match api_path {
            Some(p) => p,
            None => default_api_path(),
        };
        ConfigBase { api_key, api_endpoint, api_path, country_code, city_name }
    }
}

/// The configuration handle handed to collaborators: a plain immutable
/// value around the loaded configuration.
pub struct ConfigApp {
    pub base: ConfigBase,
}

impl Default for ConfigApp {
    /// The default (empty) configuration.
    fn default() -> (r: Self)
        ensures
            r.base.api_key is None,
            r.base.api_endpoint@.len() == 0,
            r.base.api_path@.len() == 0,
            r.base.country_code is None,
            r.base.city_name is None,
    {
        ConfigApp { base: ConfigBase::default() }
    }
}

impl ConfigApp {
    /// Creates the default (empty) configuration.
    pub fn new() -> (r: Self)
        ensures
            r.base.api_key is None,
            r.base.api_endpoint@.len() == 0,
            r.base.api_path@.len() == 0,
            r.base.country_code is None,
            r.base.city_name is None,
    {
        ConfigApp::default()
    }

    /// Wraps a loaded configuration.
    pub fn from_base(base: ConfigBase) -> (r: Self)
        ensures
            r.base == base,
    {
        ConfigApp { base }
    }
}

} // verus!
