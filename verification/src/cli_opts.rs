//! The resolved command-line options and the decisions made from them:
//! which location to query, which client identity to use, and the usage
//! text shown when no location was supplied.

use vstd::prelude::*;
use vstd::string::*;

use crate::api::{WeatherApi, WeatherLocation};
use crate::config::ConfigApp;
use crate::error::Error;

verus! {

/// The usage guidance shown when the options name no location.
pub open spec fn help_msg_spec() -> Seq<char> {
    "Usage: weatherinfo [OPTIONS]\n\nOptions:\n  -c, --country-code <COUNTRY_CODE>  Country Code (optional)\n      --city-name <CITY_NAME>        City Name (optional)\n  -k, --api-key <API_KEY>            Api key (optional but either this or API_KEY environment variable must exist)\n  -h, --help                         Print help\n"@
}

/// The options a caller resolved from the command line, already reduced to
/// plain values.
pub struct CliOpts {
    /// Country code (optional); kept for future location selectors.
    pub country_code: Option<String>,
    /// City name (optional).
    pub city_name: Option<String>,
    /// Credential (optional here; required before a client can be built).
    pub api_key: Option<String>,
}

impl CliOpts {
    /// The location the options select; with no city name this is the
    /// `InvalidInputError` that callers answer with usage guidance.
    pub fn get_location(&self) -> (r: Result<WeatherLocation, Error>)
        ensures
            r is Ok <==> self.city_name is Some,
            r is Ok ==> r->Ok_0 is CityName && r->Ok_0->CityName_0@ == self.city_name->0@,
            r is Err ==> r->Err_0 is InvalidInputError && r->Err_0.message_spec()
                == "\nERROR: You must specify at least one option between --country-code or --city-name\n"@,
    {
        if let Some(city_name) = &self.city_name {
            Ok(WeatherLocation::from_city_name(city_name.as_str()))
        } else {
            Err(
                Error::InvalidInputError(
                    String::from_str(
                        "\nERROR: You must specify at least one option between --country-code or --city-name\n",
                    ),
                ),
            )
        }
    }

    /// The client identity the options and configuration yield; without a
    /// credential this is an `InvalidInputError`.
    pub fn get_api(&self, config: &ConfigApp) -> (r: Result<WeatherApi, Error>)
        ensures
            r is Ok <==> self.api_key is Some,
            r is Ok ==> r->Ok_0.api_key_spec() == self.api_key->0@ && r->Ok_0.api_endpoint_spec()
                == config.base.api_endpoint@ && r->Ok_0.api_path_spec() == config.base.api_path@,
            r is Err ==> r->Err_0 is InvalidInputError && r->Err_0.message_spec()
                == "invalid api key"@,
    {
        if let Some(api_key) = &self.api_key {
            Ok(
                WeatherApi::new(
                    api_key.as_str(),
                    config.base.api_endpoint.as_str(),
                    config.base.api_path.as_str(),
                ),
            )
        } else {
            Err(Error::InvalidInputError(String::from_str("invalid api key")))
        }
    }

    /// Fills the credential from the configuration when the command line
    /// gave none; the other options stay as they are.
    pub fn apply_defaults(&mut self, config: &ConfigApp)
        ensures
            final(self).country_code == old(self).country_code,
            final(self).city_name == old(self).city_name,
            old(self).api_key is Some ==> final(self).api_key == old(self).api_key,
            old(self).api_key is None ==> (final(self).api_key is Some <==> config.base.api_key
                is Some) && (config.base.api_key is Some ==> final(self).api_key->0@
                == config.base.api_key->0@),
    {
        if self.api_key.is_none() {
            self.api_key = config.base.api_key.clone();
        }
    }

    /// The usage guidance for the command-line options.
    pub fn api_help_msg() -> (r: String)
        ensures
            r@ == help_msg_spec(),
    {
        String::from_str(
            "Usage: weatherinfo [OPTIONS]\n\nOptions:\n  -c, --country-code <COUNTRY_CODE>  Country Code (optional)\n      --city-name <CITY_NAME>        City Name (optional)\n  -k, --api-key <API_KEY>            Api key (optional but either this or API_KEY environment variable must exist)\n  -h, --help                         Print help\n",
        )
    }
}

} // verus!
