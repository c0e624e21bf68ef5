//! A validated temperature value type. The value is stored in kelvin, in
//! hundredths (the precision the reports use), and is never negative:
//! construction fails below absolute zero instead of clamping.

use vstd::prelude::*;
use vstd::string::*;
use vstd::arithmetic::div_mod::{lemma_fundamental_div_mod, lemma_fundamental_div_mod_converse};

use crate::error::Error;
use crate::numfmt;

verus! {

/// Largest internal value (hundredths of a kelvin) the type carries; keeps
/// every conversion inside fixed-width integer arithmetic.
pub const MAX_CENTI_KELVIN: i64 = 1_000_000_000_000;

/// Offset between kelvin and Celsius, in hundredths of a degree (273.15).
pub const CELCIUS_OFFSET_CENTI: i64 = 27315;

/// Offset of the Fahrenheit scale from absolute zero, in hundredths of a
/// degree (459.67).
pub const FAHRENHEIT_OFFSET_CENTI: i64 = 45967;

/// The Celsius value (in hundredths) of the internal value `k`.
pub open spec fn celcius_of_kelvin(k: int) -> int {
    k - CELCIUS_OFFSET_CENTI
}

/// The internal value of the Celsius value `c` (both in hundredths).
pub open spec fn kelvin_of_celcius(c: int) -> int {
    c + CELCIUS_OFFSET_CENTI
}

/// The Fahrenheit value (in hundredths) of the internal value `k`,
/// rounded to the nearest hundredth.
pub open spec fn fahrenheit_of_kelvin(k: int) -> int {
    (9 * k + 2) / 5 - FAHRENHEIT_OFFSET_CENTI
}

/// The internal value of the Fahrenheit value `f` (both in hundredths),
/// rounded to the nearest hundredth.
pub open spec fn kelvin_of_fahrenheit(f: int) -> int {
    (5 * (f + FAHRENHEIT_OFFSET_CENTI) + 4) / 9
}

/// A temperature, stored in hundredths of a kelvin.
#[derive(Clone, Copy, Debug, PartialEq, Eq, Structural)]
pub struct Temperature {
    centi_kelvin: i64,
}

impl View for Temperature {
    type V = int;

    closed spec fn view(&self) -> int {
        self.centi_kelvin as int
    }
}

impl Default for Temperature {
    /// Absolute zero.
    fn default() -> (r: Self)
        ensures
            r@ == 0,
    {
        Temperature { centi_kelvin: 0 }
    }
}

impl Temperature {
    /// The stored value is a well-formed internal temperature.
    #[verifier::type_invariant]
    pub open spec fn valid(self) -> bool {
        0 <= self@ <= MAX_CENTI_KELVIN as int
    }

    /// Builds a temperature directly from an internal value in hundredths
    /// of a kelvin; fails with `InvalidValue` on a negative input (and on
    /// one beyond the supported range).
    pub fn try_from(item: i64) -> (r: Result<Temperature, Error>)
        ensures
            r is Ok <==> (0 <= item && item <= MAX_CENTI_KELVIN),
            r is Ok ==> r->Ok_0@ == item as int,
            r is Err ==> r->Err_0 is InvalidValue && r->Err_0.message_spec() == numfmt::centi_str(
                item as int,
            ) + " is not a valid Temperature"@,
    {
        if item >= 0 && item <= MAX_CENTI_KELVIN {
            Ok(Temperature { centi_kelvin: item })
        } else {
            let mut m = numfmt::centi_to_string(item);
            m.append(" is not a valid Temperature");
            Err(Error::InvalidValue(m))
        }
    }

    /// Builds a temperature from a Celsius value in hundredths of a
    /// degree; fails with `InvalidValue` below -273.15 degrees (and above
    /// the supported range).
    pub fn from_celcius(t: i64) -> (r: Result<Temperature, Error>)
        ensures
            r is Ok <==> (-CELCIUS_OFFSET_CENTI <= t && t <= MAX_CENTI_KELVIN
                - CELCIUS_OFFSET_CENTI),
            r is Ok ==> r->Ok_0@ == kelvin_of_celcius(t as int),
            r is Err ==> r->Err_0 is InvalidValue && r->Err_0.message_spec() == numfmt::centi_str(
                t as int,
            ) + " is not a valid temperature in Celcius"@,
    {
        if t >= -CELCIUS_OFFSET_CENTI && t <= MAX_CENTI_KELVIN - CELCIUS_OFFSET_CENTI {
            Ok(Temperature { centi_kelvin: t + CELCIUS_OFFSET_CENTI })
        } else {
            let mut m = numfmt::centi_to_string(t);
            m.append(" is not a valid temperature in Celcius");
            Err(Error::InvalidValue(m))
        }
    }

    /// Builds a temperature from a Fahrenheit value in hundredths of a
    /// degree; fails with `InvalidValue` below -459.67 degrees (and above
    /// the supported range).
    pub fn from_fahrenheit(t: i64) -> (r: Result<Temperature, Error>)
        ensures
            r is Ok <==> (-FAHRENHEIT_OFFSET_CENTI <= t && kelvin_of_fahrenheit(t as int)
                <= MAX_CENTI_KELVIN as int),
            r is Ok ==> r->Ok_0@ == kelvin_of_fahrenheit(t as int),
            r is Err ==> r->Err_0 is InvalidValue && r->Err_0.message_spec() == numfmt::centi_str(
                t as int,
            ) + " is not a valid temperature in Fahrenheit"@,
    {
        if t >= -FAHRENHEIT_OFFSET_CENTI {
            let k128: i128 = (5 * ((t as i128) + (FAHRENHEIT_OFFSET_CENTI as i128)) + 4) / 9;
            if k128 <= MAX_CENTI_KELVIN as i128 {
                return Ok(Temperature { centi_kelvin: k128 as i64 });
            }
        }
        let mut m = numfmt::centi_to_string(t);
        m.append(" is not a valid temperature in Fahrenheit");
        Err(Error::InvalidValue(m))
    }

    /// The temperature in Celsius, in hundredths of a degree.
    pub fn celcius(self) -> (r: i64)
        ensures
            r as int == celcius_of_kelvin(self@),
    {
        proof {
            use_type_invariant(self);
        }
        self.centi_kelvin - CELCIUS_OFFSET_CENTI
    }

    /// The temperature in Fahrenheit, in hundredths of a degree, rounded
    /// to the nearest hundredth.
    pub fn fahrenheit(self) -> (r: i64)
        ensures
            r as int == fahrenheit_of_kelvin(self@),
    {
        proof {
            use_type_invariant(self);
        }
        (9 * self.centi_kelvin + 2) / 5 - FAHRENHEIT_OFFSET_CENTI
    }

    /// The internal value, in hundredths of a kelvin.
    pub fn to_internal(self) -> (r: i64)
        ensures
            r as int == self@,
    {
        proof {
            use_type_invariant(self);
        }
        self.centi_kelvin
    }

}

/// Law: converting an internal value to Celsius and back yields the same
/// internal value, and the Celsius value stays inside the domain that
/// `from_celcius` accepts.
pub proof fn law_celcius_round_trip(v: int)
    requires
        0 <= v <= MAX_CENTI_KELVIN as int,
    ensures
        -(CELCIUS_OFFSET_CENTI as int) <= celcius_of_kelvin(v) <= (MAX_CENTI_KELVIN
            - CELCIUS_OFFSET_CENTI) as int,
        kelvin_of_celcius(celcius_of_kelvin(v)) == v,
{
}

/// Law: converting an internal value to Fahrenheit and back yields exactly
/// the same internal value, and the Fahrenheit value stays inside the
/// domain that `from_fahrenheit` accepts: the Fahrenheit grid (hundredths
/// of a degree) is finer than the internal grid, and both conversions
/// round to the nearest hundredth.
pub proof fn law_fahrenheit_round_trip(v: int)
    requires
        0 <= v <= MAX_CENTI_KELVIN as int,
    ensures
        fahrenheit_of_kelvin(v) >= -(FAHRENHEIT_OFFSET_CENTI as int),
        kelvin_of_fahrenheit(fahrenheit_of_kelvin(v)) == v,
{
    let q = (9 * v + 2) / 5;
    let r = (9 * v + 2) % 5;
    lemma_fundamental_div_mod(9 * v + 2, 5);
    assert(9 * v + 2 == 5 * q + r);
    assert(5 * q + 4 == 9 * v + (6 - r));
    lemma_fundamental_div_mod_converse(5 * q + 4, 9, v, 6 - r);
}

/// Law: converting a Fahrenheit value to the internal unit and back yields
/// the original value up to one hundredth of a degree. (Exactness is
/// impossible in this direction: the internal grid is coarser than the
/// Fahrenheit grid.)
pub proof fn law_fahrenheit_reverse_trip_bound(f: int)
    requires
        -(FAHRENHEIT_OFFSET_CENTI as int) <= f,
    ensures
        kelvin_of_fahrenheit(f) >= 0,
        f - 1 <= fahrenheit_of_kelvin(kelvin_of_fahrenheit(f)) <= f + 1,
{
    let m = f + FAHRENHEIT_OFFSET_CENTI;
    let k = (5 * m + 4) / 9;
    let s = (5 * m + 4) % 9;
    lemma_fundamental_div_mod(5 * m + 4, 9);
    assert(5 * m + 4 == 9 * k + s);
    assert(9 * k + 2 == 5 * m + (6 - s));
    if s <= 1 {
        lemma_fundamental_div_mod_converse(9 * k + 2, 5, m + 1, 1 - s);
    } else if s <= 6 {
        lemma_fundamental_div_mod_converse(9 * k + 2, 5, m, 6 - s);
    } else {
        lemma_fundamental_div_mod_converse(9 * k + 2, 5, m - 1, 11 - s);
    }
}

} // verus!
