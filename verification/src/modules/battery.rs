//! The status of a battery from its `uevent` file in `/sys`: charging,
//! discharging, unknown or full, how much is left, and when it runs out.
use vstd::prelude::*;

use crate::errors::{error_with, Error, ErrorKind, ErrorView};
use crate::formatting::Format;
use crate::modules::memory::{parsed_is, Outcome, Parsed};
use crate::text::{
    chars_of, decimal, lines, lines_of, parse_i32, parse_i64, parse_int, push_char, replace_first,
    replace_first_str, split_on, split_on_char, str_eq, trim, trim_chars, u64_to_string, views, ParseIntError,
};

verus! {

/// The operating status of a power supply (`POWER_SUPPLY_STATUS_*` in the
/// kernel's `power_supply.h`).
#[derive(Clone, Copy, Debug, Eq, PartialEq, Structural)]
pub enum ChargingStatus {
    Unknown,
    Charging,
    Discharging,
    Full,
}

impl Default for ChargingStatus {
    fn default() -> (res: ChargingStatus)
        ensures
            res == ChargingStatus::Discharging,
    {
        ChargingStatus::Discharging
    }
}

/// The status that the kernel's word `s` stands for.
pub open spec fn charging_status_of(s: Seq<char>) -> ChargingStatus {
    if s == "Charging"@ {
        ChargingStatus::Charging
    } else if s == "Discharging"@ || s == "Not charging"@ {
        ChargingStatus::Discharging
    } else if s == "Full"@ {
        ChargingStatus::Full
    } else {
        ChargingStatus::Unknown
    }
}

impl<'a> From<&'a str> for ChargingStatus {
    fn from(status: &'a str) -> (res: ChargingStatus) {
        if str_eq(status, "Charging") {
            ChargingStatus::Charging
        } else if str_eq(status, "Discharging") || str_eq(status, "Not charging") {
            ChargingStatus::Discharging
        } else if str_eq(status, "Full") {
            ChargingStatus::Full
        } else {
            ChargingStatus::Unknown
        }
    }
}

impl<'a> vstd::std_specs::convert::FromSpecImpl<&'a str> for ChargingStatus {
    open spec fn obeys_from_spec() -> bool {
        true
    }

    open spec fn from_spec(v: &'a str) -> ChargingStatus {
        charging_status_of(v@)
    }
}

/// What the low threshold is compared with.
#[derive(Clone, Copy, Debug, Eq, PartialEq, Structural)]
pub enum ThresholdType {
    Time,
    Percentage,
}

impl Default for ThresholdType {
    fn default() -> (res: ThresholdType)
        ensures
            res == ThresholdType::Percentage,
    {
        ThresholdType::Percentage
    }
}

/// The figures of a power supply, as its `uevent` file gives them; -1
/// where a figure was not given.
#[derive(Clone, Copy, Debug, Eq, PartialEq, Structural)]
pub struct PowerSupplyInfo {
    pub full_last: i64,
    pub full_design: i64,
    pub remaining: i64,
    pub present_rate: i64,
    pub seconds_remaining: i32,
    pub voltage: i64,
    pub percentage_remaining: i32,
    pub status: ChargingStatus,
    pub watt_as_unit: bool,
    pub last_full_capacity: bool,
}

/// The figures before any line is read.
pub open spec fn initial_info(last_full_capacity: bool) -> PowerSupplyInfo {
    PowerSupplyInfo {
        full_last: -1i64,
        full_design: -1i64,
        remaining: -1i64,
        present_rate: -1i64,
        seconds_remaining: -1i32,
        voltage: -1i64,
        percentage_remaining: -1i32,
        status: ChargingStatus::Discharging,
        watt_as_unit: false,
        last_full_capacity,
    }
}

/// The error of a value that does not read: the field is the message and
/// the parse error the source.
pub open spec fn bad_value(field: Seq<char>, e: ParseIntError) -> ErrorView {
    ErrorView { kind: ErrorKind::Other, message: Some(field), source: Some(e.spec_message()) }
}

/// The `i64` that `value` reads as.
pub open spec fn read_i64(value: Seq<char>) -> Result<int, ParseIntError> {
    parse_int(value, true, i64::MIN as int, i64::MAX as int)
}

/// The `i32` that `value` reads as.
pub open spec fn read_i32(value: Seq<char>) -> Result<int, ParseIntError> {
    parse_int(value, true, i32::MIN as int, i32::MAX as int)
}

/// The figures after the field `field` with the value `value`.
pub open spec fn info_field(info: PowerSupplyInfo, field: Seq<char>, value: Seq<char>) -> Outcome<PowerSupplyInfo> {
    if field == "POWER_SUPPLY_ENERGY_NOW"@ || field == "POWER_SUPPLY_CHARGE_NOW"@ {
        match read_i64(value) {
            Err(e) => Outcome::Failed(bad_value(field, e)),
            Ok(v) => Outcome::Done(PowerSupplyInfo {
                watt_as_unit: field == "POWER_SUPPLY_ENERGY_NOW"@,
                remaining: v as i64,
                percentage_remaining: -1i32,
                ..info
            }),
        }
    } else if field == "POWER_SUPPLY_CAPACITY"@ {
        if info.remaining == -1 {
            match read_i32(value) {
                Err(e) => Outcome::Failed(bad_value(field, e)),
                Ok(v) => Outcome::Done(PowerSupplyInfo { percentage_remaining: v as i32, ..info }),
            }
        } else {
            Outcome::Done(info)
        }
    } else if field == "POWER_SUPPLY_CURRENT_NOW"@ || field == "POWER_SUPPLY_POWER_NOW"@ {
        match read_i64(value) {
            Err(e) => Outcome::Failed(bad_value(field, e)),
            Ok(v) => Outcome::Done(PowerSupplyInfo { present_rate: v as i64, ..info }),
        }
    } else if field == "POWER_SUPPLY_VOLTAGE_NOW"@ {
        match read_i64(value) {
            Err(e) => Outcome::Failed(bad_value(field, e)),
            Ok(v) => Outcome::Done(PowerSupplyInfo { voltage: v as i64, ..info }),
        }
    } else if field == "POWER_SUPPLY_TIME_TO_EMPTY_NOW"@ {
        match read_i32(value) {
            Err(e) => Outcome::Failed(bad_value(field, e)),
            Ok(v) => if v * 60 < i32::MIN || v * 60 > i32::MAX {
                Outcome::Overflows
            } else {
                Outcome::Done(PowerSupplyInfo { seconds_remaining: (v * 60) as i32, ..info })
            },
        }
    } else if field == "POWER_SUPPLY_STATUS"@ {
        Outcome::Done(PowerSupplyInfo { status: charging_status_of(value), ..info })
    } else if field == "POWER_SUPPLY_CHARGE_FULL_DESIGN"@ || field == "POWER_SUPPLY_ENERGY_FULL_DESIGN"@ {
        match read_i64(value) {
            Err(e) => Outcome::Failed(bad_value(field, e)),
            Ok(v) => Outcome::Done(PowerSupplyInfo { full_design: v as i64, ..info }),
        }
    } else if field == "POWER_SUPPLY_ENERGY_FULL"@ || field == "POWER_SUPPLY_CHARGE_FULL"@ {
        match read_i64(value) {
            Err(e) => Outcome::Failed(bad_value(field, e)),
            Ok(v) => Outcome::Done(PowerSupplyInfo { full_last: v as i64, ..info }),
        }
    } else {
        Outcome::Done(info)
    }
}

/// The figures after the line `line`: the line, trimmed, is split at `=`;
/// the first piece is the field and the second the value.
pub open spec fn info_line(info: PowerSupplyInfo, line: Seq<char>) -> Outcome<PowerSupplyInfo> {
    let pieces = split_on(trim(line), '=');
    if pieces.len() < 2 {
        Outcome::Failed(error_with("No value"@))
    } else {
        info_field(info, pieces[0], pieces[1])
    }
}

/// The figures that the lines give.
pub open spec fn info_lines(info: PowerSupplyInfo, lines: Seq<Seq<char>>) -> Outcome<PowerSupplyInfo>
    decreases lines.len(),
{
    if lines.len() == 0 {
        Outcome::Done(info)
    } else {
        match info_lines(info, lines.drop_last()) {
            Outcome::Done(m) => info_line(m, lines.last()),
            other => other,
        }
    }
}

proof fn lemma_info_prefix(info: PowerSupplyInfo, lines: Seq<Seq<char>>, k: int)
    requires
        0 <= k <= lines.len(),
        !(info_lines(info, lines.take(k)) is Done),
    ensures
        info_lines(info, lines) == info_lines(info, lines.take(k)),
    decreases lines.len() - k,
{
    if k < lines.len() {
        assert(lines.take(k + 1).drop_last() =~= lines.take(k));
        lemma_info_prefix(info, lines, k + 1);
    } else {
        assert(lines.take(k) =~= lines);
    }
}

fn parse_field_i64(field: &str, value: &str) -> (res: Result<i64, Error>)
    ensures
        match read_i64(value@) {
            Ok(v) => res == Ok::<i64, Error>(v as i64),
            Err(e) => res matches Err(f) && f@ == bad_value(field@, e),
        },
{
    match parse_i64(value) {
        Ok(v) => Ok(v),
        Err(e) => Err(Error::new(field).with_source(e.message())),
    }
}

fn parse_field_i32(field: &str, value: &str) -> (res: Result<i32, Error>)
    ensures
        match read_i32(value@) {
            Ok(v) => res == Ok::<i32, Error>(v as i32) && i32::MIN <= v <= i32::MAX,
            Err(e) => res matches Err(f) && f@ == bad_value(field@, e),
        },
{
    match parse_i32(value) {
        Ok(v) => Ok(v),
        Err(e) => Err(Error::new(field).with_source(e.message())),
    }
}

impl PowerSupplyInfo {
    fn read_line(&mut self, line: &str) -> (res: Parsed<()>)
        ensures
            match info_line(*old(self), line@) {
                Outcome::Done(m) => res is Done && *final(self) == m,
                Outcome::Failed(e) => res matches Parsed::Failed(f) && f@ == e,
                Outcome::Overflows => res is Overflows,
            },
    {
        match self.read_field_line(line) {
            Ok(true) => Parsed::Done(()),
            Ok(false) => Parsed::Overflows,
            Err(e) => Parsed::Failed(e),
        }
    }

    fn read_field_line(&mut self, line: &str) -> (res: Result<bool, Error>)
        ensures
            match info_line(*old(self), line@) {
                Outcome::Done(m) => res == Ok::<bool, Error>(true) && *final(self) == m,
                Outcome::Failed(e) => res matches Err(f) && f@ == e,
                Outcome::Overflows => res == Ok::<bool, Error>(false),
            },
    {
        let v = chars_of(line);
        let t = trim_chars(&v);
        let pieces = split_on_char(&t, '=');
        assert(views(pieces@) == split_on(trim(line@), '='));
        if pieces.len() < 2 {
            return Err(Error::new("No value"));
        }
        let field = pieces[0].as_str();
        let value = pieces[1].as_str();
        assert(field@ == split_on(trim(line@), '=')[0]);
        assert(value@ == split_on(trim(line@), '=')[1]);
        proof {
            reveal_strlit("POWER_SUPPLY_ENERGY_NOW");
            reveal_strlit("POWER_SUPPLY_CHARGE_NOW");
            reveal_strlit("POWER_SUPPLY_CAPACITY");
            reveal_strlit("POWER_SUPPLY_CURRENT_NOW");
            reveal_strlit("POWER_SUPPLY_VOLTAGE_NOW");
            reveal_strlit("POWER_SUPPLY_TIME_TO_EMPTY_NOW");
            reveal_strlit("POWER_SUPPLY_POWER_NOW");
            reveal_strlit("POWER_SUPPLY_STATUS");
            reveal_strlit("POWER_SUPPLY_CHARGE_FULL_DESIGN");
            reveal_strlit("POWER_SUPPLY_ENERGY_FULL_DESIGN");
            reveal_strlit("POWER_SUPPLY_ENERGY_FULL");
            reveal_strlit("POWER_SUPPLY_CHARGE_FULL");
        }
        if str_eq(field, "POWER_SUPPLY_ENERGY_NOW") {
            self.watt_as_unit = true;
            self.remaining = parse_field_i64(field, value)?;
            self.percentage_remaining = -1;
        } else if str_eq(field, "POWER_SUPPLY_CHARGE_NOW") {
            self.watt_as_unit = false;
            self.remaining = parse_field_i64(field, value)?;
            self.percentage_remaining = -1;
        } else if str_eq(field, "POWER_SUPPLY_CAPACITY") {
            if self.remaining == -1 {
                self.percentage_remaining = parse_field_i32(field, value)?;
            }
        } else if str_eq(field, "POWER_SUPPLY_CURRENT_NOW") {
            self.present_rate = parse_field_i64(field, value)?;
        } else if str_eq(field, "POWER_SUPPLY_VOLTAGE_NOW") {
            self.voltage = parse_field_i64(field, value)?;
        } else if str_eq(field, "POWER_SUPPLY_TIME_TO_EMPTY_NOW") {
            let minutes = parse_field_i32(field, value)?;
            if minutes < -35791394 || minutes > 35791394 {
                return Ok(false);
            }
            self.seconds_remaining = minutes * 60;
        } else if str_eq(field, "POWER_SUPPLY_POWER_NOW") {
            self.present_rate = parse_field_i64(field, value)?;
        } else if str_eq(field, "POWER_SUPPLY_STATUS") {
            self.status = ChargingStatus::from(value);
        } else if str_eq(field, "POWER_SUPPLY_CHARGE_FULL_DESIGN") || str_eq(field, "POWER_SUPPLY_ENERGY_FULL_DESIGN") {
            self.full_design = parse_field_i64(field, value)?;
        } else if str_eq(field, "POWER_SUPPLY_ENERGY_FULL") || str_eq(field, "POWER_SUPPLY_CHARGE_FULL") {
            self.full_last = parse_field_i64(field, value)?;
        }
        Ok(true)
    }

    /// Reads the contents of a `uevent` file, line by line; every line is
    /// `FIELD=value`, and a line without a value, or a value of a field in
    /// use that does not read as a number, is an error; minutes to empty
    /// that overflow an `i32` in seconds are an overflow.
    pub fn parse_checked(contents: &str, last_full_capacity: bool) -> (res: Parsed<PowerSupplyInfo>)
        ensures
            parsed_is(res, info_lines(initial_info(last_full_capacity), lines_of(contents@))),
    {
        let ls = lines(contents);
        let ghost all = lines_of(contents@);
        let ghost init = initial_info(last_full_capacity);
        let mut info = PowerSupplyInfo {
            full_last: -1,
            full_design: -1,
            remaining: -1,
            present_rate: -1,
            seconds_remaining: -1,
            voltage: -1,
            percentage_remaining: -1,
            status: ChargingStatus::Discharging,
            watt_as_unit: false,
            last_full_capacity,
        };
        let mut i: usize = 0;
        assert(all.take(0) =~= Seq::<Seq<char>>::empty());
        while i < ls.len()
            invariant
                i <= ls@.len(),
                views(ls@) == all,
                all == lines_of(contents@),
                init == initial_info(last_full_capacity),
                info_lines(init, all.take(i as int)) == Outcome::Done(info),
            decreases ls.len() - i,
        {
            assert(all.take(i + 1).drop_last() =~= all.take(i as int));
            assert(all.take(i + 1).last() == ls@[i as int]@);
            match info.read_line(ls[i].as_str()) {
                Parsed::Done(()) => {},
                Parsed::Failed(e) => {
                    proof { lemma_info_prefix(init, all, i + 1); }
                    return Parsed::Failed(e);
                },
                Parsed::Overflows => {
                    proof { lemma_info_prefix(init, all, i + 1); }
                    return Parsed::Overflows;
                },
            }
            i = i + 1;
        }
        assert(all.take(i as int) =~= all);
        Parsed::Done(info)
    }

    /// Reads the contents of a `uevent` file whose minutes to empty fit in
    /// seconds.
    pub fn parse(contents: &str, last_full_capacity: bool) -> (res: Result<PowerSupplyInfo, Error>)
        requires
            !(info_lines(initial_info(last_full_capacity), lines_of(contents@)) is Overflows),
        ensures
            match info_lines(initial_info(last_full_capacity), lines_of(contents@)) {
                Outcome::Done(m) => res == Ok::<PowerSupplyInfo, Error>(m),
                Outcome::Failed(e) => res matches Err(f) && f@ == e,
                Outcome::Overflows => false,
            },
    {
        match PowerSupplyInfo::parse_checked(contents, last_full_capacity) {
            Parsed::Done(m) => Ok(m),
            Parsed::Failed(e) => Err(e),
            Parsed::Overflows => Err(Error::new("overflow")),
        }
    }

    /// The charge or energy of the battery when full: the last full one
    /// where there is no design figure, or where asked for and known; else
    /// the design figure.
    pub open spec fn spec_full(self) -> i64 {
        if self.full_design <= 0 || (self.last_full_capacity && self.full_last > 0) {
            self.full_last
        } else {
            self.full_design
        }
    }

    /// The charge or energy of the battery when full.
    pub fn full(&self) -> (res: i64)
        ensures
            res == self.spec_full(),
    {
        if self.full_design <= 0 || (self.last_full_capacity && self.full_last > 0) {
            self.full_last
        } else {
            self.full_design
        }
    }

    /// Whether there is no battery to show: nothing is known of its full
    /// charge, of its remaining charge, or of its percentage.
    pub fn is_down(&self) -> (res: bool)
        ensures
            res == (self.spec_full() <= 0 && self.remaining <= 0 && self.percentage_remaining <= 0),
    {
        self.full() <= 0 && self.remaining <= 0 && self.percentage_remaining <= 0
    }
}

/// The settings of the battery module.
#[derive(Clone, Debug)]
pub struct Config {
    /// The index of the battery in `/sys`.
    pub number: usize,
    /// The path of its `uevent` file; the first `%d` stands for `number`.
    pub path: String,
    pub format: Format,
    /// The format where there is no battery.
    pub format_down: Format,
    pub status_chr: String,
    pub status_bat: String,
    pub status_unk: String,
    pub status_full: String,
    /// Below this the state of a discharging battery is critical.
    pub low_threshold: i64,
    pub threshold_type: ThresholdType,
    pub last_full_capacity: bool,
    pub hide_seconds: bool,
}

impl Default for Config {
    fn default() -> (res: Config)
        ensures
            res.number == 0,
            res.path@ == "/sys/class/power_supply/BAT%d/uevent"@,
            res.format@.full_text == Some("$status $percentage $remaining"@),
            res.format_down@.full_text == Some("No battery"@),
            res.status_chr@ == "CHR"@,
            res.status_bat@ == "BAT"@,
            res.status_unk@ == "UNK"@,
            res.status_full@ == "FULL"@,
            res.low_threshold == 10,
            res.threshold_type == ThresholdType::Percentage,
            !res.last_full_capacity,
            !res.hide_seconds,
    {
        Config {
            number: 0,
            path: String::from_str("/sys/class/power_supply/BAT%d/uevent"),
            format: Format::new().with_default("$status $percentage $remaining"),
            format_down: Format::new().with_default("No battery"),
            status_chr: String::from_str("CHR"),
            status_bat: String::from_str("BAT"),
            status_unk: String::from_str("UNK"),
            status_full: String::from_str("FULL"),
            low_threshold: 10,
            threshold_type: ThresholdType::Percentage,
            last_full_capacity: false,
            hide_seconds: false,
        }
    }
}

/// The path of the `uevent` file: `path` with its first `%d` replaced by
/// the battery's number.
pub fn battery_path(config: &Config) -> (res: String)
    ensures
        res@ == replace_first(config.path@, "%d"@, decimal(config.number as nat)),
{
    let n = u64_to_string(config.number as u64);
    replace_first_str(config.path.as_str(), "%d", n.as_str())
}

/// Whether the battery is low: it is discharging, the threshold is
/// positive, and the whole percentage left (where known, that is not
/// negative) or the whole seconds left (likewise) is below the threshold,
/// the threshold being minutes for the time.
pub open spec fn battery_low(config: Config, status: ChargingStatus, percentage: Option<i64>, seconds: Option<i64>) -> bool {
    if config.low_threshold <= 0 || status != ChargingStatus::Discharging {
        false
    } else {
        match config.threshold_type {
            ThresholdType::Percentage => match percentage {
                Some(p) => p < config.low_threshold,
                None => false,
            },
            ThresholdType::Time => match seconds {
                Some(s) => s < 60 * config.low_threshold,
                None => false,
            },
        }
    }
}

/// Whether the battery is low, given the whole percentage left and the
/// whole seconds left (`None` where the figure is negative).
pub fn is_battery_low(config: &Config, status: ChargingStatus, percentage: Option<i64>, seconds: Option<i64>) -> (res: bool)
    requires
        config.threshold_type == ThresholdType::Time && config.low_threshold > 0 && status
            == ChargingStatus::Discharging && seconds is Some ==> 60 * config.low_threshold <= i64::MAX,
    ensures
        res == battery_low(*config, status, percentage, seconds),
{
    if config.low_threshold <= 0 || status != ChargingStatus::Discharging {
        return false;
    }
    match config.threshold_type {
        ThresholdType::Percentage => match percentage {
            Some(p) => p < config.low_threshold,
            None => false,
        },
        ThresholdType::Time => match seconds {
            Some(s) => s < 60 * config.low_threshold,
            None => false,
        },
    }
}

/// The configured text of the status.
pub open spec fn status_text(config: Config, status: ChargingStatus) -> Seq<char> {
    match status {
        ChargingStatus::Unknown => config.status_unk@,
        ChargingStatus::Charging => config.status_chr@,
        ChargingStatus::Discharging => config.status_bat@,
        ChargingStatus::Full => config.status_full@,
    }
}

/// The configured text of the status.
pub fn battery_status<'a>(config: &'a Config, status: ChargingStatus) -> (res: &'a str)
    ensures
        res@ == status_text(*config, status),
{
    match status {
        ChargingStatus::Unknown => config.status_unk.as_str(),
        ChargingStatus::Charging => config.status_chr.as_str(),
        ChargingStatus::Discharging => config.status_bat.as_str(),
        ChargingStatus::Full => config.status_full.as_str(),
    }
}

/// `n` in at least two digits.
pub open spec fn two_digits(n: nat) -> Seq<char> {
    if n < 10 {
        seq!['0'] + decimal(n)
    } else {
        decimal(n)
    }
}

/// `seconds` as hours, minutes and seconds, each in at least two digits:
/// `HH:MM:SS`.
pub open spec fn hms(seconds: nat) -> Seq<char> {
    two_digits(seconds / 3600) + seq![':'] + two_digits((seconds % 3600) / 60) + seq![':'] + two_digits(seconds % 60)
}

fn push_two_digits(s: &mut String, n: u64)
    ensures
        final(s)@ == old(s)@ + two_digits(n as nat),
{
    if n < 10 {
        push_char(s, '0');
    }
    let d = u64_to_string(n);
    s.append(d.as_str());
}

/// The remaining time, `HH:MM:SS`, of `seconds` seconds.
pub fn time_remaining(seconds: u64) -> (res: String)
    ensures
        res@ == hms(seconds as nat),
{
    let hours = seconds / 3600;
    let rest = seconds - hours * 3600;
    let minutes = rest / 60;
    let secs = rest - minutes * 60;
    assert(rest == seconds % 3600);
    assert(secs == seconds % 60) by (nonlinear_arith)
        requires
            hours == seconds / 3600,
            rest == seconds - hours * 3600,
            minutes == rest / 60,
            secs == rest - minutes * 60,
    ;
    let mut res = String::new();
    push_two_digits(&mut res, hours);
    push_char(&mut res, ':');
    push_two_digits(&mut res, minutes);
    push_char(&mut res, ':');
    push_two_digits(&mut res, secs);
    assert(res@ =~= hms(seconds as nat));
    res
}

} // verus!

verus! {

/// A discharging battery with a positive threshold is low exactly where
/// its whole percentage left is below the threshold (for the percentage
/// type), or its whole seconds left are below the threshold in minutes
/// (for the time type); a battery that is not discharging, or a threshold
/// that is not positive, is never low; and a battery that is low stays low
/// with less left or with a higher threshold.
pub proof fn lemma_battery_low_threshold(config: Config, status: ChargingStatus, p: i64, q: i64, s: i64, higher: i64)
    ensures
        config.low_threshold > 0 && config.threshold_type == ThresholdType::Percentage ==> battery_low(
            config,
            ChargingStatus::Discharging,
            Some(p),
            None,
        ) == (p < config.low_threshold),
        config.low_threshold > 0 && config.threshold_type == ThresholdType::Time ==> battery_low(
            config,
            ChargingStatus::Discharging,
            None,
            Some(s),
        ) == (s < 60 * config.low_threshold),
        status != ChargingStatus::Discharging || config.low_threshold <= 0 ==> !battery_low(
            config,
            status,
            Some(p),
            Some(s),
        ),
        battery_low(config, status, Some(p), Some(s)) && q <= p ==> battery_low(config, status, Some(q), Some(s)),
        battery_low(config, status, Some(p), Some(s)) && config.low_threshold <= higher ==> battery_low(
            Config { low_threshold: higher, ..config },
            status,
            Some(p),
            Some(s),
        ),
{
}

/// A time of `h` hours, `m` minutes and `s` seconds is shown as those three
/// numbers, two digits at least each.
pub proof fn lemma_hms_parts(h: nat, m: nat, s: nat)
    requires
        m < 60,
        s < 60,
    ensures
        hms(h * 3600 + m * 60 + s) == two_digits(h) + seq![':'] + two_digits(m) + seq![':'] + two_digits(s),
{
    let t = h * 3600 + m * 60 + s;
    assert(t / 3600 == h && t % 3600 == m * 60 + s) by (nonlinear_arith)
        requires t == h * 3600 + m * 60 + s, m < 60, s < 60;
    assert((m * 60 + s) / 60 == m) by (nonlinear_arith)
        requires m < 60, s < 60;
    assert(t % 60 == s) by (nonlinear_arith)
        requires t == h * 3600 + m * 60 + s, m < 60, s < 60;
}

} // verus!
