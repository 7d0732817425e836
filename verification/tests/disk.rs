use honeybee::modules::disk::{disk_sizes, prefixed_below_threshold, valid_prefix, PrefixType, ThresholdType};

#[test]
fn threshold_types() {
    assert_eq!(ThresholdType::try_from_str("bytes_free").unwrap(), ThresholdType::BytesFree);
    assert_eq!(ThresholdType::try_from_str("percentage_avail").unwrap(), ThresholdType::PercentageAvail);
    assert_eq!(ThresholdType::try_from_str("gbytes_avail").unwrap(), ThresholdType::PrefixBytesAvail('g'));
    assert_eq!(ThresholdType::try_from_str("kbytes_free").unwrap(), ThresholdType::PrefixBytesFree('k'));
    let e = ThresholdType::try_from_str("").unwrap_err();
    assert_eq!(e.message.as_deref(), Some("Empty string"));
    let e = ThresholdType::try_from_str("xbytes_free").unwrap_err();
    assert_eq!(e.message.as_deref(), Some("Invalid prefix"));
    let e = ThresholdType::try_from_str("gbites").unwrap_err();
    assert_eq!(e.message.as_deref(), Some("Invalid threshold type: gbites"));
    assert_eq!(ThresholdType::default(), ThresholdType::PercentageAvail);
    assert_eq!(PrefixType::default(), PrefixType::Binary);
}

#[test]
fn prefixes() {
    assert!(valid_prefix('t').is_ok());
    assert_eq!(valid_prefix('K').unwrap_err().message.as_deref(), Some("Invalid prefix"));
}

#[test]
fn prefixed_thresholds() {
    // 2 GiB = 2147483648 bytes
    assert!(prefixed_below_threshold(PrefixType::Binary, 4096, 500_000, 2, 'g'));
    assert!(!prefixed_below_threshold(PrefixType::Binary, 4096, 600_000, 2, 'g'));
    // 2 GB = 2000000000 bytes
    assert!(!prefixed_below_threshold(PrefixType::Decimal, 4096, 500_000, 2, 'g'));
}

#[test]
fn sizes_from_blocks() {
    assert_eq!(disk_sizes(4096, 100, 40, 30), (4096 * 40, 4096 * 60, 4096 * 100, 4096 * 30));
}
