use nagiosplugin::{PerfData, PerfString, ToPerfString, Unit, UnitString, UnitStringCreateError};

#[test]
fn name_escaping() {
    let s = PerfString::new("test=a", &1, Unit::Unitless, None, None, None, None);
    assert_eq!(s.as_str(), "'test_a'=1;;;;");
    let s = PerfString::new("te'st", &1, Unit::Unitless, None, None, None, None);
    assert_eq!(s.as_str(), "'te''st'=1;;;;");
    let s = PerfString::new("te st", &1, Unit::Unitless, None, None, None, None);
    assert_eq!(s.as_str(), "'te st'=1;;;;");
}

#[test]
fn all_fields_keep_their_places() {
    let s = PerfString::new("x", &5u16, Unit::Seconds, None, None, None, None);
    assert_eq!(s.as_str(), "'x'=5s;;;;");
    let s = PerfString::new("x", &5u16, Unit::Milliseconds, Some(&1), Some(&2), Some(&3), Some(&4));
    assert_eq!(s.as_str(), "'x'=5ms;1;2;3;4");
}

#[test]
fn unit_symbols() {
    let units = [
        (Unit::Unitless, ""),
        (Unit::Seconds, "s"),
        (Unit::Milliseconds, "ms"),
        (Unit::Microseconds, "us"),
        (Unit::Percentage, "%"),
        (Unit::Bytes, "B"),
        (Unit::Kilobytes, "KB"),
        (Unit::Megabytes, "MB"),
        (Unit::Gigabytes, "GB"),
        (Unit::Terabytes, "TB"),
        (Unit::Counter, "c"),
    ];
    for (u, sym) in units {
        assert_eq!(u.as_str(), sym);
    }
    assert_eq!(Unit::default(), Unit::Unitless);
}

#[test]
fn unit_string_validation() {
    assert_eq!(UnitString::new("req/s").unwrap().as_str(), "req/s");
    assert_eq!(UnitString::new("a1"), Err(UnitStringCreateError::InvalidCharacters));
    assert_eq!(UnitString::new("a;b"), Err(UnitStringCreateError::InvalidCharacters));
    assert_eq!(UnitString::new("\"x"), Err(UnitStringCreateError::InvalidCharacters));
    assert_eq!(UnitString::new_unchecked("9;").as_str(), "9;");
    assert!("ok".parse::<UnitString>().is_ok());
    assert_eq!(
        UnitStringCreateError::InvalidCharacters.message(),
        "expected string to not include numbers, semicolons or quotes"
    );
}

#[test]
fn integer_renderings() {
    assert_eq!(0u8.to_perf_string(), "0");
    assert_eq!(255u8.to_perf_string(), "255");
    assert_eq!((-128i8).to_perf_string(), "-128");
    assert_eq!(u64::MAX.to_perf_string(), "18446744073709551615");
    assert_eq!(i64::MIN.to_perf_string(), "-9223372036854775808");
    assert_eq!(u128::MAX.to_perf_string(), u128::MAX.to_string());
    assert_eq!(i128::MIN.to_perf_string(), i128::MIN.to_string());
    assert_eq!(1000usize.to_perf_string(), "1000");
    assert_eq!((-7isize).to_perf_string(), "-7");
    assert_eq!(65535u16.to_perf_string(), "65535");
    assert_eq!((-32768i16).to_perf_string(), "-32768");
    assert_eq!(4000000000u32.to_perf_string(), "4000000000");
    assert_eq!((-5i32).to_perf_string(), "-5");
}

#[test]
fn perf_data_into_perf_string() {
    let p = PerfData::new("mem", 12u32)
        .with_unit(Unit::Megabytes)
        .with_thresholds(Some(40), None)
        .with_minimum(0)
        .with_maximum(64);
    let s: PerfString = p.into();
    assert_eq!(s.as_str(), "'mem'=12MB;40;;0;64");
    let s = PerfData::new("a b", 1i8).into_perf_string();
    assert_eq!(s.as_str(), "'a b'=1;;;;");
}
