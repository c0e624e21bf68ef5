//! The parsed shape of a weather query result and its deterministic text
//! rendering. Field names follow the remote service's response fields.

use vstd::prelude::*;
use vstd::string::*;

use crate::error::Error;
use crate::numfmt;
use crate::temperature::{
    celcius_of_kelvin, fahrenheit_of_kelvin, Temperature, MAX_CENTI_KELVIN,
};

verus! {

/// One condition entry of the response: a short category label and a human
/// description.
pub struct WeatherCond {
    pub main: String,
    pub description: String,
}

/// The `main` object of the response; only the temperature is read.
pub struct WeatherMain {
    pub temp: Temperature,
}

impl Default for WeatherMain {
    /// An absolute-zero temperature.
    fn default() -> (r: Self)
        ensures
            r.temp@ == 0,
    {
        WeatherMain { temp: Temperature::default() }
    }
}

/// The `sys` object of the response, with its optional country code.
pub struct Sys {
    pub country: Option<String>,
}

impl Default for Sys {
    /// No country code.
    fn default() -> (r: Self)
        ensures
            r.country is None,
    {
        Sys { country: None }
    }
}

/// A weather query result: condition entries (possibly none), the
/// temperature, the optional country code, and the place name.
pub struct WeatherData {
    pub weather: Vec<WeatherCond>,
    pub main: WeatherMain,
    pub sys: Sys,
    pub name: String,
}

impl Default for WeatherData {
    /// No conditions, absolute zero, no country, empty name.
    fn default() -> (r: Self)
        ensures
            r.weather@.len() == 0,
            r.main.temp@ == 0,
            r.sys.country is None,
            r.name@.len() == 0,
    {
        WeatherData { weather: Vec::new(), main: WeatherMain::default(), sys: Sys::default(), name: String::new() }
    }
}

/// The report text for the record `d`: a header line with the place only
/// when a country code is present, a temperature line in Celsius and
/// Fahrenheit with two decimal places, a conditions line with the first
/// condition's description (empty when there is none), and a trailing
/// blank line.
pub open spec fn report_spec(d: &WeatherData) -> Seq<char> {
    "Your location: "@ + (match d.sys.country {
        Some(country) => d.name@ + ", "@ + country@ + " "@,
        None => Seq::<char>::empty(),
    }) + "\nTemperature: "@ + numfmt::centi_str(celcius_of_kelvin(d.main.temp@)) + "°C ("@
        + numfmt::centi_str(fahrenheit_of_kelvin(d.main.temp@)) + "°F)\n"@ + "Conditions: "@ + (
    if d.weather@.len() > 0 {
        d.weather@[0].description@
    } else {
        Seq::<char>::empty()
    }) + "\n"@ + "\n"@
}

impl WeatherData {
    /// Builds a record from the fields a response body may carry; a missing
    /// required field, or a temperature below absolute zero (or beyond the
    /// supported range), is a `ParseError`.
    pub fn from_parts(
        weather: Option<Vec<WeatherCond>>,
        temp: Option<i64>,
        sys: Option<Sys>,
        name: Option<String>,
    ) -> (r: Result<WeatherData, Error>)
        ensures
            r is Ok <==> (weather is Some && temp is Some && 0 <= temp->0 <= MAX_CENTI_KELVIN
                && sys is Some && name is Some),
            r is Ok ==> r->Ok_0.weather == weather->0 && r->Ok_0.main.temp@ == temp->0 as int
                && r->Ok_0.sys == sys->0 && r->Ok_0.name == name->0,
            r is Err ==> r->Err_0 is ParseError,
            weather is None ==> r->Err_0.message_spec() == "response is missing the weather field"@,
            weather is Some && temp is None ==> r->Err_0.message_spec()
                == "response is missing the main.temp field"@,
            weather is Some && temp is Some && !(0 <= temp->0 <= MAX_CENTI_KELVIN)
                ==> r->Err_0.message_spec() == numfmt::centi_str(temp->0 as int)
                + " is not a valid Temperature"@,
            weather is Some && temp is Some && 0 <= temp->0 <= MAX_CENTI_KELVIN && sys is None
                ==> r->Err_0.message_spec() == "response is missing the sys field"@,
            weather is Some && temp is Some && 0 <= temp->0 <= MAX_CENTI_KELVIN && sys is Some
                && name is None ==> r->Err_0.message_spec()
                == "response is missing the name field"@,
    {
        let weather = match weather {
            Some(w) => w,
            None => {
                return Err(
                    Error::ParseError(String::from_str("response is missing the weather field")),
                );
            },
        };
        let temp = match temp {
            Some(t) => t,
            None => {
                return Err(
                    Error::ParseError(String::from_str("response is missing the main.temp field")),
                );
            },
        };
        let temp = match Temperature::try_from(temp) {
            Ok(t) => t,
            Err(e) => {
                return match e {
                    Error::InvalidValue(m) => Err(Error::ParseError(m)),
                    _ => unreached(),
                };
            },
        };
        let sys = match sys {
            Some(s) => s,
            None => {
                return Err(
                    Error::ParseError(String::from_str("response is missing the sys field")),
                );
            },
        };
        let name = match name {
            Some(n) => n,
            None => {
                return Err(
                    Error::ParseError(String::from_str("response is missing the name field")),
                );
            },
        };
        Ok(WeatherData { weather, main: WeatherMain { temp }, sys, name })
    }

    /// Renders the report for this record; deterministic, total, and
    /// exactly the text `report_spec` gives.
    pub fn get_current_conditions(&self) -> (r: String)
        ensures
            r@ == report_spec(self),
    {
        let mut output = String::from_str("Your location: ");
        match &self.sys.country {
            Some(country) => {
                output.append(self.name.as_str());
                output.append(", ");
                output.append(country.as_str());
                output.append(" ");
            },
            None => {},
        }
        output.append("\nTemperature: ");
        let c = numfmt::centi_to_string(self.main.temp.celcius());
        output.append(c.as_str());
        output.append("°C (");
        let f = numfmt::centi_to_string(self.main.temp.fahrenheit());
        output.append(f.as_str());
        output.append("°F)\n");
        output.append("Conditions: ");
        if self.weather.len() > 0 {
            output.append(self.weather[0].description.as_str());
        }
        output.append("\n");
        output.append("\n");
        proof {
            assert(output@ =~= report_spec(self));
        }
        output
    }
}

/// Law: the report for a record without condition entries still carries
/// the conditions line; it ends with `Conditions: ` followed by the empty
/// description and the trailing blank line.
pub proof fn law_empty_conditions(d: &WeatherData)
    requires
        d.weather@.len() == 0,
    ensures
        report_spec(d).len() >= 14,
        report_spec(d).subrange(report_spec(d).len() - 14, report_spec(d).len() as int)
            =~= "Conditions: "@ + "\n"@ + "\n"@,
{
    reveal_strlit("Conditions: ");
    reveal_strlit("\n");
    reveal_strlit("Your location: ");
    reveal_strlit("\nTemperature: ");
    assert(report_spec(d).subrange(report_spec(d).len() - 14, report_spec(d).len() as int)
        =~= "Conditions: "@ + "\n"@ + "\n"@);
}

} // verus!
