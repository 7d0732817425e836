use honeybee::modules::memory::{
    memory_absolute, memory_absolute_checked, memory_format, memory_state, thresholds_fit_exec, Config, MemInfo, MemoryUsedMethod,
};
use honeybee::widget::WidgetState;

#[test]
fn test_memoryu_absolute() {
    assert_eq!(50, memory_absolute("50 %".into(), 100).unwrap());
    assert_eq!(50, memory_absolute("50%".into(), 100).unwrap());
    assert_eq!(1024, memory_absolute("1K".into(), 100).unwrap());
    assert_eq!(1024, memory_absolute("1k".into(), 100).unwrap());
    assert_eq!(1024, memory_absolute("1 K".into(), 100).unwrap());
}

#[test]
fn thresholds_in_units_and_percentages() {
    assert_eq!(memory_absolute("30 GiB", 0).unwrap(), 30 * 1024 * 1024 * 1024);
    assert_eq!(memory_absolute("10%", 1000).unwrap(), 100);
    assert_eq!(memory_absolute("33%", 10).unwrap(), 3);
    // all the digits count, wherever they are
    assert_eq!(memory_absolute("1%5", 1000).unwrap(), 150);
}

#[test]
fn bad_thresholds() {
    let e = memory_absolute("%", 100).unwrap_err();
    assert_eq!(e.message.as_deref(), Some("Bad threshold string"));
    assert_eq!(e.source.as_deref(), Some("cannot parse integer from empty string"));
    let e = memory_absolute("50", 100).unwrap_err();
    assert_eq!(e.message.as_deref(), Some("Bad threshold string"));
    assert_eq!(e.source, None);
    let e = memory_absolute("50 x", 100).unwrap_err();
    assert_eq!(e.message.as_deref(), Some("Unknown IEC symbol"));
    let e = memory_absolute("99999999999999999999%", 100).unwrap_err();
    assert_eq!(e.source.as_deref(), Some("number too large to fit in target type"));
}

#[test]
fn meminfo_is_read_in_bytes() {
    let contents = "MemTotal:       16000 kB\nMemFree:         4000 kB\nMemAvailable:    8000 kB\nBuffers:          500 kB\nCached:          1500 kB\nSwapCached:         0 kB\nShmem:            100 kB\n";
    let m = MemInfo::parse(contents).unwrap();
    assert_eq!(m.ram_total, 16000 * 1024);
    assert_eq!(m.ram_free, 4000 * 1024);
    assert_eq!(m.ram_available, 8000 * 1024);
    assert_eq!(m.ram_buffers, 500 * 1024);
    assert_eq!(m.ram_cached, 1500 * 1024);
    assert_eq!(m.ram_shared, 100 * 1024);
    assert_eq!(m.ram_used(&MemoryUsedMethod::Classical), 10000 * 1024);
    assert_eq!(m.ram_used(&MemoryUsedMethod::MemAvailable), 8000 * 1024);
}

#[test]
fn meminfo_errors() {
    let e = MemInfo::parse("MemTotal: 10 kB\n\nMemFree: 1 kB\n").unwrap_err();
    assert_eq!(e.message.as_deref(), Some("No field"));
    let e = MemInfo::parse("MemTotal:\n").unwrap_err();
    assert_eq!(e.message.as_deref(), Some("No value"));
    let e = MemInfo::parse("MemTotal: ten kB\n").unwrap_err();
    assert_eq!(e.message.as_deref(), Some("No value"));
    assert_eq!(MemInfo::parse("").unwrap(), MemInfo::default());
}

#[test]
fn memory_states() {
    let config = Config::default();
    let mut m = MemInfo::default();
    m.ram_total = 1000;
    m.ram_available = 500;
    assert_eq!(memory_state(&config, &m).unwrap(), WidgetState::Normal);
    m.ram_available = 80;
    assert_eq!(memory_state(&config, &m).unwrap(), WidgetState::Warning);
    m.ram_available = 40;
    assert_eq!(memory_state(&config, &m).unwrap(), WidgetState::Critical);
    let mut bad = Config::default();
    bad.threshold_critical = Some("x".to_string());
    assert!(memory_state(&bad, &m).is_err());
}

#[test]
fn overflowing_thresholds() {
    assert!(memory_absolute_checked("18446744073709551615%", 2).is_none());
    assert!(memory_absolute_checked("18446744073709551615 K", 2).is_none());
    assert_eq!(memory_absolute_checked("10%", 2).unwrap().unwrap(), 0);
    let mut m = MemInfo::default();
    m.ram_total = 2;
    let mut config = Config::default();
    config.threshold_critical = Some("18446744073709551615%".to_string());
    assert!(!thresholds_fit_exec(&config, &m));
    // a degraded threshold that fails is the error; the critical one is never read
    config.threshold_degraded = Some("x".to_string());
    assert!(thresholds_fit_exec(&config, &m));
    assert_eq!(memory_state(&config, &m).unwrap_err().message.as_deref(), Some("Bad threshold string"));
}

#[test]
fn memory_formats_by_state() {
    let mut config = Config::default();
    assert_eq!(memory_format(&config, WidgetState::Normal).full_text.as_deref(), Some("$percentage_used"));
    assert_eq!(memory_format(&config, WidgetState::Warning).full_text.as_deref(), Some("$percentage_available"));
    assert_eq!(memory_format(&config, WidgetState::Critical).full_text.as_deref(), Some("$percentage_available"));
    config.format = honeybee::formatting::Format::new().with_default("$used");
    assert_eq!(memory_format(&config, WidgetState::Normal).full_text.as_deref(), Some("$used"));
}
