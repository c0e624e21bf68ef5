use weatherinfo::api::{check_status, WeatherApi, WeatherCommands, WeatherLocation};
use weatherinfo::Error;

#[test]
fn city_name_query_parameters() {
    let loc = WeatherLocation::from_city_name("Jakarta");
    let params = loc.get_cityname();
    assert_eq!(params, vec![("q", String::from("Jakarta"))]);
}

#[test]
fn command_name_is_weather() {
    assert_eq!(WeatherCommands::WeatherInfo.to_str(), "weather");
}

#[test]
fn options_put_the_credential_last() {
    let api = WeatherApi::new("KEY123", "api.example.org", "data/2.5/");
    let loc = WeatherLocation::from_city_name("Jakarta");
    let options = api.get_options(&loc);
    assert_eq!(
        options,
        vec![("q", String::from("Jakarta")), ("APPID", String::from("KEY123"))]
    );
}

#[test]
fn request_url_is_exact() {
    let api = WeatherApi::new("KEY123", "api.example.org", "data/2.5/");
    let loc = WeatherLocation::from_city_name("Jakarta");
    let url = api.request_url(WeatherCommands::WeatherInfo, &loc).unwrap();
    assert_eq!(
        url,
        "https://api.example.org/data/2.5/weather?q=Jakarta&APPID=KEY123"
    );
}

#[test]
fn request_url_encodes_the_query() {
    let api = WeatherApi::new("KEY123", "api.example.org", "data/2.5/");
    let loc = WeatherLocation::from_city_name("New York");
    let url = api.request_url(WeatherCommands::WeatherInfo, &loc).unwrap();
    assert_eq!(
        url,
        "https://api.example.org/data/2.5/weather?q=New+York&APPID=KEY123"
    );
}

#[test]
fn request_url_rejects_a_malformed_host() {
    let api = WeatherApi::new("KEY123", "api example org", "data/2.5/");
    let loc = WeatherLocation::from_city_name("Jakarta");
    let r = api.request_url(WeatherCommands::WeatherInfo, &loc);
    assert!(matches!(r, Err(Error::RequestError(_))));
}

#[test]
fn success_statuses_pass() {
    assert!(check_status(200).is_ok());
    assert!(check_status(204).is_ok());
    assert!(check_status(299).is_ok());
}

#[test]
fn non_success_statuses_are_request_errors() {
    for status in [100u16, 199, 300, 301, 404, 500] {
        let r = check_status(status);
        assert!(matches!(r, Err(Error::RequestError(_))));
    }
    match check_status(404) {
        Err(e) => assert_eq!(e.message(), "HTTP error status 404"),
        Ok(_) => panic!("expected an error"),
    }
}
