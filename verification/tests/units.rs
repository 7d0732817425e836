use honeybee::units::{bytes_to_unit, unit_to_bytes, IecSymbol, SiSymbol, Unit};

/// The scaled amount and unit, as the bar shows a byte count.
fn scaled(bytes: u64, target: Unit) -> (f64, Unit) {
    let unit = bytes_to_unit(bytes, target);
    let base = match unit {
        Unit::Iec(_) => 1024_f64,
        Unit::Si(_) => 1000_f64,
    };
    let mut b = bytes as f64;
    for _ in 0..unit.exponent_of() {
        b /= base;
    }
    (b, unit)
}

#[test]
fn test_bytes_to_unit() {
    assert_eq!(
        scaled(1024, Unit::Iec(IecSymbol::KiB)),
        (1_f64, Unit::Iec(IecSymbol::KiB))
    );
    assert_eq!(
        scaled(1024 * 1024, Unit::Iec(IecSymbol::KiB)),
        (1024_f64, Unit::Iec(IecSymbol::KiB))
    );
    assert_eq!(
        scaled(1024 * 1024, Unit::Iec(IecSymbol::MiB)),
        (1_f64, Unit::Iec(IecSymbol::MiB))
    );
}

#[test]
fn test_unit_to_bytes() {
    assert_eq!(1024, unit_to_bytes(1, Unit::Iec(IecSymbol::KiB)));
    assert_eq!(1000, unit_to_bytes(1, Unit::Si(SiSymbol::K)));
}

#[test]
fn bytes_below_the_base_stay_bytes() {
    assert_eq!(bytes_to_unit(1023, Unit::Iec(IecSymbol::TiB)), Unit::Iec(IecSymbol::B));
    assert_eq!(bytes_to_unit(999, Unit::Si(SiSymbol::T)), Unit::Si(SiSymbol::B));
    assert_eq!(bytes_to_unit(0, Unit::Si(SiSymbol::G)), Unit::Si(SiSymbol::B));
}

#[test]
fn scaling_stops_at_the_target_and_at_terabytes() {
    assert_eq!(bytes_to_unit(5_000_000_000, Unit::Si(SiSymbol::M)), Unit::Si(SiSymbol::M));
    assert_eq!(bytes_to_unit(5_000_000_000, Unit::Si(SiSymbol::T)), Unit::Si(SiSymbol::G));
    assert_eq!(bytes_to_unit(u64::MAX, Unit::Iec(IecSymbol::TiB)), Unit::Iec(IecSymbol::TiB));
    assert_eq!(bytes_to_unit(2_000_000, Unit::Iec(IecSymbol::GiB)), Unit::Iec(IecSymbol::MiB));
}

#[test]
fn unit_multipliers() {
    assert_eq!(unit_to_bytes(3, Unit::Iec(IecSymbol::GiB)), 3 * 1024 * 1024 * 1024);
    assert_eq!(unit_to_bytes(2, Unit::Si(SiSymbol::T)), 2_000_000_000_000);
    assert_eq!(unit_to_bytes(7, Unit::Si(SiSymbol::B)), 7);
    assert_eq!(Unit::Iec(IecSymbol::TiB).bytes_per_unit(), 1 << 40);
}

#[test]
fn symbols_from_exponents() {
    assert_eq!(IecSymbol::try_from_exponent(0).unwrap(), IecSymbol::B);
    assert_eq!(IecSymbol::try_from_exponent(4).unwrap(), IecSymbol::TiB);
    assert_eq!(SiSymbol::try_from_exponent(2).unwrap(), SiSymbol::M);
    let e = IecSymbol::try_from_exponent(5).unwrap_err();
    assert_eq!(e.message.as_deref(), Some("Invalid IEC symbol"));
    let e = SiSymbol::try_from_exponent(9).unwrap_err();
    assert_eq!(e.message.as_deref(), Some("Invalid SI symbol"));
}

#[test]
fn symbols_from_letters() {
    assert_eq!(IecSymbol::try_from_char('k').unwrap(), IecSymbol::KiB);
    assert_eq!(IecSymbol::try_from_char('B').unwrap(), IecSymbol::B);
    assert_eq!(SiSymbol::try_from_char('T').unwrap(), SiSymbol::T);
    assert_eq!(IecSymbol::try_from_str("gigabytes").unwrap(), IecSymbol::GiB);
    assert_eq!(
        IecSymbol::try_from_char('x').unwrap_err().message.as_deref(),
        Some("Unknown IEC symbol")
    );
    assert_eq!(
        SiSymbol::try_from_str("p").unwrap_err().message.as_deref(),
        Some("Unknown SI symbol")
    );
    assert_eq!(Unit::iec_from_str("ti"), Unit::Iec(IecSymbol::TiB));
    assert_eq!(Unit::si_from_str("t"), Unit::Si(SiSymbol::T));
    assert_eq!(Unit::iec_from_char('m'), Unit::Iec(IecSymbol::MiB));
    assert_eq!(Unit::si_from_char('K'), Unit::Si(SiSymbol::K));
}

#[test]
fn unit_names_and_exponents() {
    assert_eq!(Unit::Iec(IecSymbol::MiB).to_string(), "MiB");
    assert_eq!(Unit::Si(SiSymbol::M).to_string(), "M");
    assert_eq!(Unit::Si(SiSymbol::B).to_string(), "B");
    assert_eq!(u32::from(Unit::Iec(IecSymbol::GiB)), 3);
    assert_eq!(u32::from(SiSymbol::T), 4);
    assert_eq!(u32::from(IecSymbol::B), 0);
    assert_eq!(IecSymbol::default(), IecSymbol::GiB);
    assert_eq!(SiSymbol::default(), SiSymbol::G);
}
