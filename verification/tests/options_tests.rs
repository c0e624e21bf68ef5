use weatherinfo::cli_opts::CliOpts;
use weatherinfo::config::{default_api_endpoint, default_api_path, ConfigApp, ConfigBase};
use weatherinfo::Error;

fn opts(country: Option<&str>, city: Option<&str>, key: Option<&str>) -> CliOpts {
    CliOpts {
        country_code: country.map(str::to_string),
        city_name: city.map(str::to_string),
        api_key: key.map(str::to_string),
    }
}

fn config_with_key(key: Option<&str>) -> ConfigApp {
    ConfigApp::from_base(ConfigBase::from_values(
        key.map(str::to_string),
        Some("api.example.org".to_string()),
        Some("data/2.5/".to_string()),
        None,
        None,
    ))
}

#[test]
fn get_location_needs_a_city_name() {
    let r = opts(Some("ID"), None, None).get_location();
    match r {
        Err(Error::InvalidInputError(m)) => {
            assert!(m.contains("--country-code or --city-name"));
        }
        _ => panic!("expected InvalidInputError"),
    }
    let loc = opts(None, Some("Jakarta"), None).get_location().unwrap();
    assert_eq!(loc.get_cityname(), vec![("q", "Jakarta".to_string())]);
}

#[test]
fn get_api_needs_a_credential() {
    let config = config_with_key(None);
    let r = opts(None, Some("Jakarta"), None).get_api(&config);
    match r {
        Err(Error::InvalidInputError(m)) => assert_eq!(m, "invalid api key"),
        _ => panic!("expected InvalidInputError"),
    }
    assert!(opts(None, None, Some("KEY123")).get_api(&config).is_ok());
}

#[test]
fn apply_defaults_fills_only_a_missing_credential() {
    let config = config_with_key(Some("CONF_KEY"));
    let mut o = opts(None, Some("Jakarta"), None);
    o.apply_defaults(&config);
    assert_eq!(o.api_key.as_deref(), Some("CONF_KEY"));
    assert_eq!(o.city_name.as_deref(), Some("Jakarta"));

    let mut kept = opts(None, None, Some("CLI_KEY"));
    kept.apply_defaults(&config);
    assert_eq!(kept.api_key.as_deref(), Some("CLI_KEY"));
}

#[test]
fn help_message_names_the_options() {
    let msg = CliOpts::api_help_msg();
    assert!(msg.contains("--country-code"));
    assert!(msg.contains("--city-name"));
    assert!(msg.contains("--api-key"));
}

#[test]
fn config_defaults() {
    assert_eq!(default_api_endpoint(), "api.openweathermap.org");
    assert_eq!(default_api_path(), "data/2.5/");

    let c = ConfigBase::from_values(None, None, None, None, None);
    assert_eq!(c.api_endpoint, "api.openweathermap.org");
    assert_eq!(c.api_path, "data/2.5/");
    assert!(c.api_key.is_none());

    let fresh = ConfigApp::new();
    assert!(fresh.base.api_key.is_none());
    assert_eq!(fresh.base.api_endpoint, "");
    assert_eq!(fresh.base.api_path, "");
}

#[test]
fn error_messages_are_reachable() {
    let e = Error::RequestError("boom".to_string());
    assert_eq!(e.message(), "boom");
}
