use weatherinfo::temperature::Temperature;
use weatherinfo::Error;

#[test]
fn try_from_rejects_negative_values() {
    for x in [-1i64, -100, -27315, i64::MIN] {
        let r = Temperature::try_from(x);
        assert!(matches!(r, Err(Error::InvalidValue(_))));
    }
}

#[test]
fn try_from_accepts_non_negative_values_exactly() {
    for x in [0i64, 1, 5, 30014, 1_000_000_000_000] {
        let t = Temperature::try_from(x).unwrap();
        assert_eq!(t.to_internal(), x);
    }
}

#[test]
fn try_from_error_carries_the_rejected_number() {
    let r = Temperature::try_from(-27316);
    match r {
        Err(Error::InvalidValue(m)) => {
            assert_eq!(m, "-273.16 is not a valid Temperature");
        }
        _ => panic!("expected InvalidValue"),
    }
}

#[test]
fn celsius_round_trip() {
    for v in [0i64, 1, 2, 12345, 30014, 999_999_999] {
        let t = Temperature::try_from(v).unwrap();
        let c = t.celcius();
        let back = Temperature::from_celcius(c).unwrap();
        assert_eq!(back.to_internal(), v);
    }
}

#[test]
fn fahrenheit_round_trip() {
    for v in [0i64, 1, 2, 3, 4, 5, 30014, 30015, 999_999_999, 1_000_000_000_000] {
        let t = Temperature::try_from(v).unwrap();
        let f = t.fahrenheit();
        let back = Temperature::from_fahrenheit(f).unwrap();
        assert_eq!(back.to_internal(), v);
    }
}

#[test]
fn fahrenheit_reverse_trip_is_within_one_hundredth() {
    for f in [-45967i64, -45966, -1, 0, 1, 2, 3200, 8058, 99_999] {
        let t = Temperature::from_fahrenheit(f).unwrap();
        let back = t.fahrenheit();
        assert!((back - f).abs() <= 1);
    }
}

#[test]
fn from_celcius_boundary() {
    let t = Temperature::from_celcius(-27315).unwrap();
    assert_eq!(t.to_internal(), 0);
    let r = Temperature::from_celcius(-27316);
    assert!(matches!(r, Err(Error::InvalidValue(_))));
}

#[test]
fn from_fahrenheit_boundary() {
    let t = Temperature::from_fahrenheit(-45967).unwrap();
    assert_eq!(t.to_internal(), 0);
    let r = Temperature::from_fahrenheit(-45968);
    assert!(matches!(r, Err(Error::InvalidValue(_))));
}

#[test]
fn conversions_are_exact_on_the_service_example() {
    let t = Temperature::try_from(30014).unwrap();
    assert_eq!(t.celcius(), 2699);
    assert_eq!(t.fahrenheit(), 8058);
}

#[test]
fn equality_is_value_based() {
    let a = Temperature::try_from(500).unwrap();
    let b = Temperature::from_celcius(500 - 27315).unwrap();
    assert_eq!(a, b);
}
