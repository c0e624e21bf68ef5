//! The location model and the request-building side of the weather client:
//! a location becomes query parameters, and the client's identity plus a
//! command become the request URL for the remote service.

use vstd::prelude::*;
use vstd::string::*;

use crate::error::Error;
use crate::numfmt;

verus! {

/// A way a caller identifies the place to query. A closed set of variants;
/// today only a city name, stored as given (the remote service decides
/// whether it resolves).
#[derive(Clone)]
pub enum WeatherLocation {
    CityName(String),
}

impl WeatherLocation {
    /// Builds a city-name location from the name as given.
    pub fn from_city_name(city_name: &str) -> (r: Self)
        ensures
            r is CityName,
            r->CityName_0@ == city_name@,
    {
        WeatherLocation::CityName(String::from_str(city_name))
    }

    /// The query parameters this location contributes: exactly
    /// `[("q", city name)]` for the city-name variant.
    pub fn get_cityname(&self) -> (r: Vec<(&'static str, String)>)
        ensures
            r@.len() == 1,
            r@[0].0@ == "q"@,
            r@[0].1@ == self->CityName_0@,
    {
        match self {
            WeatherLocation::CityName(city_name) => {
                let city_name = city_name.clone();
                vec![("q", city_name)]
            },
        }
    }
}

/// The operations the remote service offers; only the current-conditions
/// command exists today.
#[derive(Clone, Copy)]
pub enum WeatherCommands {
    WeatherInfo,
}

/// The path segment the remote service uses for `c`.
pub open spec fn command_str(c: WeatherCommands) -> Seq<char> {
    "weather"@
}

impl WeatherCommands {
    /// The path segment the remote service uses for this command.
    pub fn to_str(self) -> (r: &'static str)
        ensures
            r@ == command_str(self),
    {
        match self {
            WeatherCommands::WeatherInfo => "weather",
        }
    }
}

/// The string `url::Url::parse_with_params(base, params)` serializes to
/// when it succeeds: the parsed base URL with the parameters appended as a
/// URL-encoded query string.
pub uninterp spec fn url_with_params_of(base: Seq<char>, params: Seq<(Seq<char>, Seq<char>)>) -> Seq<
    char,
>;

/// Whether `url::Url::parse_with_params(base, params)` succeeds, which
/// depends on the arguments alone (it fails exactly when `base` is no
/// well-formed absolute URL).
pub uninterp spec fn url_with_params_ok(base: Seq<char>, params: Seq<(Seq<char>, Seq<char>)>) -> bool;

#[verifier::external_type_specification]
#[verifier::external_body]
pub struct ExUrlParseError(url::ParseError);

/// Relies on url::Url::parse_with_params: parses `base` as an absolute URL
/// and appends `params` as a URL-encoded query string; the result depends
/// on the arguments alone.
#[verifier::external_body]
fn url_with_params(base: &str, params: &Vec<(&'static str, String)>) -> (r: Result<
    String,
    url::ParseError,
>)
    ensures
        r is Ok <==> url_with_params_ok(
            base@,
            params@.map_values(|p: (&'static str, String)| (p.0@, p.1@)),
        ),
        r is Ok ==> r->Ok_0@ == url_with_params_of(
            base@,
            params@.map_values(|p: (&'static str, String)| (p.0@, p.1@)),
        ),
{
    url::Url::parse_with_params(base, params.iter().map(|p| (p.0, p.1.as_str()))).map(String::from)
}

/// The identity a client needs to query the remote weather service: the
/// credential and the service's host and path prefix, all immutable after
/// construction.
#[derive(Clone)]
pub struct WeatherApi {
    api_key: String,
    api_endpoint: String,
    api_path: String,
}

impl WeatherApi {
    /// The credential sent as the `APPID` query parameter.
    pub closed spec fn api_key_spec(&self) -> Seq<char> {
        self.api_key@
    }

    /// The host of the remote service.
    pub closed spec fn api_endpoint_spec(&self) -> Seq<char> {
        self.api_endpoint@
    }

    /// The path prefix under which the remote service's commands live.
    pub closed spec fn api_path_spec(&self) -> Seq<char> {
        self.api_path@
    }

    /// The URL (before the query string) that a request for `c` targets.
    pub open spec fn base_url_spec(&self, c: WeatherCommands) -> Seq<char> {
        "https://"@ + self.api_endpoint_spec() + "/"@ + self.api_path_spec() + command_str(c)
    }

    /// The full parameter list of a request for `location`: the location's
    /// own parameters first, the credential last.
    pub open spec fn request_params_spec(&self, location: &WeatherLocation) -> Seq<
        (Seq<char>, Seq<char>),
    > {
        seq![("q"@, location->CityName_0@), ("APPID"@, self.api_key_spec())]
    }

    /// Creates a client identity from the credential, host and path prefix.
    pub fn new(api_key: &str, api_endpoint: &str, api_path: &str) -> (r: Self)
        ensures
            r.api_key_spec() == api_key@,
            r.api_endpoint_spec() == api_endpoint@,
            r.api_path_spec() == api_path@,
    {
        WeatherApi {
            api_key: String::from_str(api_key),
            api_endpoint: String::from_str(api_endpoint),
            api_path: String::from_str(api_path),
        }
    }

    /// The query parameters of a request for `location`: the location's own
    /// parameters followed by the `APPID` credential.
    pub fn get_options(&self, location: &WeatherLocation) -> (r: Vec<(&'static str, String)>)
        ensures
            r@.len() == 2,
            r@[0].0@ == "q"@,
            r@[0].1@ == location->CityName_0@,
            r@[1].0@ == "APPID"@,
            r@[1].1@ == self.api_key_spec(),
    {
        let mut options = location.get_cityname();
        options.push(("APPID", self.api_key.clone()));
        options
    }

    /// Builds the request URL for `command` and `location`:
    /// `https://{host}/{path prefix}{command}` with the parameter list
    /// appended as a URL-encoded query string. Fails with `RequestError`
    /// when the host or path make no valid URL.
    pub fn request_url(&self, command: WeatherCommands, location: &WeatherLocation) -> (r: Result<
        String,
        Error,
    >)
        ensures
            r is Ok <==> url_with_params_ok(
                self.base_url_spec(command),
                self.request_params_spec(location),
            ),
            r is Ok ==> r->Ok_0@ == url_with_params_of(
                self.base_url_spec(command),
                self.request_params_spec(location),
            ),
            r is Err ==> r->Err_0 is RequestError && r->Err_0.message_spec()
                == "failed to build request URL"@,
    {
        let options = self.get_options(location);
        let mut base = String::from_str("https://");
        base.append(self.api_endpoint.as_str());
        base.append("/");
        base.append(self.api_path.as_str());
        base.append(command.to_str());
        proof {
            assert(base@ =~= self.base_url_spec(command));
            assert(options@.map_values(|p: (&'static str, String)| (p.0@, p.1@))
                =~= self.request_params_spec(location));
        }
        match url_with_params(base.as_str(), &options) {
            Ok(u) => Ok(u),
            Err(_) => Err(Error::RequestError(String::from_str("failed to build request URL"))),
        }
    }
}

/// Decides whether an HTTP status from the remote service counts as
/// success; a status outside the success range becomes a `RequestError`.
pub fn check_status(status: u16) -> (r: Result<(), Error>)
    ensures
        r is Ok <==> 200 <= status < 300,
        r is Err ==> r->Err_0 is RequestError && r->Err_0.message_spec() == "HTTP error status "@
            + numfmt::dec_str(status as nat),
{
    if 200 <= status && status < 300 {
        Ok(())
    } else {
        let mut m = String::from_str("HTTP error status ");
        let n = numfmt::u64_to_string(status as u64);
        m.append(n.as_str());
        Err(Error::RequestError(m))
    }
}

} // verus!
