use honeybee::modules::battery::{
    battery_path, battery_status, is_battery_low, time_remaining, ChargingStatus, Config, PowerSupplyInfo,
    ThresholdType,
};

fn raw() -> String {
    [
        "POWER_SUPPLY_NAME=BAT0",
        "POWER_SUPPLY_TYPE=Battery",
        "POWER_SUPPLY_STATUS=Discharging",
        "POWER_SUPPLY_PRESENT=1",
        "POWER_SUPPLY_TECHNOLOGY=Li-poly",
        "POWER_SUPPLY_CYCLE_COUNT=0",
        "POWER_SUPPLY_VOLTAGE_MIN_DESIGN=11550000",
        "POWER_SUPPLY_VOLTAGE_NOW=11358000",
        "POWER_SUPPLY_CURRENT_NOW=278000",
        "POWER_SUPPLY_CHARGE_FULL_DESIGN=4687000",
        "POWER_SUPPLY_CHARGE_FULL=4687000",
        "POWER_SUPPLY_CHARGE_NOW=1762000",
        "POWER_SUPPLY_CAPACITY=37",
        "POWER_SUPPLY_CAPACITY_LEVEL=Normal",
        "POWER_SUPPLY_MODEL_NAME=DELL J7H5M26",
        "POWER_SUPPLY_MANUFACTURER=SMP",
        "POWER_SUPPLY_SERIAL_NUMBER=1390",
    ]
    .join("\n")
}

#[test]
fn test_power_supply() {
    let psi = PowerSupplyInfo::parse(&raw(), false).unwrap();
    // the charge is known, so the capacity line is not used
    assert_eq!(psi.percentage_remaining, -1);
    assert_eq!(psi.status, ChargingStatus::Discharging);
    assert_eq!(psi.remaining, 1762000);
    assert_eq!(psi.full_design, 4687000);
    assert_eq!(psi.full_last, 4687000);
    assert_eq!(psi.present_rate, 278000);
    assert_eq!(psi.voltage, 11358000);
    assert!(!psi.watt_as_unit);
    assert_eq!(psi.full(), 4687000);
    assert!(!psi.is_down());
    // 1762000 / 4687000 of 100, as the bar computes it
    let percentage = (psi.remaining as f64 / psi.full() as f64) * 100_f64;
    assert_eq!(percentage, 37.59334328995092);
}

#[test]
fn capacity_before_charge_is_kept() {
    let psi = PowerSupplyInfo::parse("POWER_SUPPLY_CAPACITY=80\nPOWER_SUPPLY_STATUS=Charging\n", true).unwrap();
    assert_eq!(psi.percentage_remaining, 80);
    assert_eq!(psi.status, ChargingStatus::Charging);
    assert!(psi.last_full_capacity);
    let psi = PowerSupplyInfo::parse("POWER_SUPPLY_TIME_TO_EMPTY_NOW=90\nPOWER_SUPPLY_ENERGY_NOW=5\n", false).unwrap();
    assert_eq!(psi.seconds_remaining, 5400);
    assert!(psi.watt_as_unit);
    assert_eq!(psi.remaining, 5);
}

#[test]
fn uevent_errors() {
    let e = PowerSupplyInfo::parse("POWER_SUPPLY_STATUS\n", false).unwrap_err();
    assert_eq!(e.message.as_deref(), Some("No value"));
    let e = PowerSupplyInfo::parse("POWER_SUPPLY_CHARGE_NOW=lots\n", false).unwrap_err();
    assert_eq!(e.message.as_deref(), Some("POWER_SUPPLY_CHARGE_NOW"));
    assert_eq!(e.source.as_deref(), Some("invalid digit found in string"));
    assert_eq!(e.to_string(), "POWER_SUPPLY_CHARGE_NOW. (Source invalid digit found in string)");
    let e = PowerSupplyInfo::parse("POWER_SUPPLY_NAME=BAT0\n\n", false).unwrap_err();
    assert_eq!(e.message.as_deref(), Some("No value"));
}

#[test]
fn full_charge_choice() {
    let mut psi = PowerSupplyInfo::parse("", false).unwrap();
    assert!(psi.is_down());
    psi.full_design = 100;
    psi.full_last = 90;
    assert_eq!(psi.full(), 100);
    psi.last_full_capacity = true;
    assert_eq!(psi.full(), 90);
    psi.full_design = 0;
    psi.last_full_capacity = false;
    assert_eq!(psi.full(), 90);
}

#[test]
fn charging_status_words() {
    assert_eq!(ChargingStatus::from("Charging"), ChargingStatus::Charging);
    assert_eq!(ChargingStatus::from("Not charging"), ChargingStatus::Discharging);
    assert_eq!(ChargingStatus::from("Discharging"), ChargingStatus::Discharging);
    assert_eq!(ChargingStatus::from("Full"), ChargingStatus::Full);
    assert_eq!(ChargingStatus::from("full"), ChargingStatus::Unknown);
    assert_eq!(ChargingStatus::default(), ChargingStatus::Discharging);
}

#[test]
fn low_battery() {
    let mut config = Config::default();
    assert!(is_battery_low(&config, ChargingStatus::Discharging, Some(9), None));
    assert!(!is_battery_low(&config, ChargingStatus::Discharging, Some(10), None));
    assert!(!is_battery_low(&config, ChargingStatus::Charging, Some(1), None));
    assert!(!is_battery_low(&config, ChargingStatus::Discharging, None, Some(1)));
    config.threshold_type = ThresholdType::Time;
    assert!(is_battery_low(&config, ChargingStatus::Discharging, None, Some(599)));
    assert!(!is_battery_low(&config, ChargingStatus::Discharging, None, Some(600)));
    config.low_threshold = 0;
    assert!(!is_battery_low(&config, ChargingStatus::Discharging, None, Some(0)));
}

#[test]
fn status_texts_and_path() {
    let config = Config::default();
    assert_eq!(battery_status(&config, ChargingStatus::Charging), "CHR");
    assert_eq!(battery_status(&config, ChargingStatus::Discharging), "BAT");
    assert_eq!(battery_status(&config, ChargingStatus::Unknown), "UNK");
    assert_eq!(battery_status(&config, ChargingStatus::Full), "FULL");
    assert_eq!(battery_path(&config), "/sys/class/power_supply/BAT0/uevent");
    let mut c = Config::default();
    c.number = 12;
    assert_eq!(battery_path(&c), "/sys/class/power_supply/BAT12/uevent");
    // only the first `%d` stands for the number
    c.path = "/sys/%d/BAT%d".into();
    assert_eq!(battery_path(&c), "/sys/12/BAT%d");
    c.path = "/sys/class/power_supply/BAT1/uevent".into();
    assert_eq!(battery_path(&c), "/sys/class/power_supply/BAT1/uevent");
}

#[test]
fn remaining_time() {
    assert_eq!(time_remaining(0), "00:00:00");
    assert_eq!(time_remaining(3725), "01:02:05");
    assert_eq!(time_remaining(100 * 3600 + 59), "100:00:59");
}
