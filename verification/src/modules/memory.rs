//! Memory usage on Linux, from `/proc/meminfo`.
use vstd::prelude::*;

use crate::errors::{error_with, opt_view, Error, ErrorKind, ErrorView};
use crate::formatting::{Format, FormatView};
use crate::text::{
    chars_of, is_digit, lines, lines_of, parse_int, parse_u64, split_whitespace, string_from_chars,
    trim_start, trim_start_chars, views, words, ParseIntError,
};
use crate::units::{iec_of_char, power, unit_to_bytes, IecSymbol, Unit};
use crate::widget::WidgetState;

verus! {

/// The digits of `s`, in order.
pub open spec fn keep_digits(s: Seq<char>) -> Seq<char>
    decreases s.len(),
{
    if s.len() == 0 {
        s
    } else if is_digit(s.last()) {
        keep_digits(s.drop_last()).push(s.last())
    } else {
        keep_digits(s.drop_last())
    }
}

/// The characters of `s` that are not digits, in order.
pub open spec fn drop_digits(s: Seq<char>) -> Seq<char>
    decreases s.len(),
{
    if s.len() == 0 {
        s
    } else if is_digit(s.last()) {
        drop_digits(s.drop_last())
    } else {
        drop_digits(s.drop_last()).push(s.last())
    }
}

/// The error of a threshold whose number does not read: it names the
/// parse error as its source.
pub open spec fn bad_threshold_parse(e: ParseIntError) -> ErrorView {
    ErrorView { kind: ErrorKind::Other, message: Some("Bad threshold string"@), source: Some(e.spec_message()) }
}

/// How a threshold reads: all its digits together make the amount; the
/// first of the other characters after white space is either `%`, for a
/// percentage of `total`, or the letter of an IEC unit.
pub enum Threshold {
    Percent(nat),
    Bytes(nat, IecSymbol),
}

/// How the threshold `s` reads, or the error that reading it gives.
pub open spec fn parse_threshold(s: Seq<char>) -> Result<Threshold, ErrorView> {
    match parse_int(keep_digits(s), false, 0, u64::MAX as int) {
        Err(e) => Err(bad_threshold_parse(e)),
        Ok(amount) => {
            let rest = trim_start(drop_digits(s));
            if rest.len() == 0 {
                Err(error_with("Bad threshold string"@))
            } else if rest[0] == '%' {
                Ok(Threshold::Percent(amount as nat))
            } else {
                match iec_of_char(rest[0]) {
                    Some(sym) => Ok(Threshold::Bytes(amount as nat, sym)),
                    None => Err(error_with("Unknown IEC symbol"@)),
                }
            }
        },
    }
}

/// The number of bytes that the threshold `s` stands for where the memory
/// totals `total` bytes: the percentage of `total` (rounded down), or the
/// amount in the unit.
pub open spec fn memory_threshold(s: Seq<char>, total: nat) -> Result<int, ErrorView> {
    match parse_threshold(s) {
        Err(e) => Err(e),
        Ok(Threshold::Percent(p)) => Ok((p * total / 100) as int),
        Ok(Threshold::Bytes(a, sym)) => Ok((a * power(1024, sym.exponent())) as int),
    }
}

/// Whether the products that reading `s` against `total` takes fit in a
/// `u64` (the reading panics where they do not).
pub open spec fn threshold_fits(s: Seq<char>, total: nat) -> bool {
    match parse_threshold(s) {
        Ok(Threshold::Percent(p)) => p * total <= u64::MAX,
        Ok(Threshold::Bytes(a, sym)) => a * power(1024, sym.exponent()) <= u64::MAX,
        Err(_) => true,
    }
}

fn partition_digits(s: &str) -> (res: (Vec<char>, Vec<char>))
    ensures
        res.0@ == keep_digits(s@),
        res.1@ == drop_digits(s@),
{
    let v = chars_of(s);
    let mut digits: Vec<char> = Vec::new();
    let mut others: Vec<char> = Vec::new();
    let mut i: usize = 0;
    while i < v.len()
        invariant
            i <= v@.len(),
            v@ == s@,
            digits@ == keep_digits(v@.take(i as int)),
            others@ == drop_digits(v@.take(i as int)),
        decreases v.len() - i,
    {
        assert(v@.take(i + 1).drop_last() =~= v@.take(i as int));
        if '0' <= v[i] && v[i] <= '9' {
            digits.push(v[i]);
        } else {
            others.push(v[i]);
        }
        i = i + 1;
    }
    assert(v@.take(i as int) =~= v@);
    (digits, others)
}

/// Converts the threshold `mem_amount` into bytes where the memory totals
/// `mem_total` bytes, or tells that the products overflow (`None`).
pub fn memory_absolute_checked(mem_amount: &str, mem_total: u64) -> (res: Option<Result<u64, Error>>)
    ensures
        res is None <==> !threshold_fits(mem_amount@, mem_total as nat),
        res matches Some(r) ==> match memory_threshold(mem_amount@, mem_total as nat) {
            Ok(v) => r == Ok::<u64, Error>(v as u64),
            Err(e) => r matches Err(f) && f@ == e,
        },
{
    let (digits, others) = partition_digits(mem_amount);
    let digits_str = string_from_chars(digits.as_slice());
    let amount = match parse_u64(digits_str.as_str()) {
        Ok(a) => a,
        Err(e) => {
            return Some(Err(Error::new("Bad threshold string").with_source(e.message())));
        },
    };
    let rest = trim_start_chars(&others);
    if rest.len() == 0 {
        return Some(Err(Error::new("Bad threshold string")));
    }
    let unit = rest[0];
    if unit == '%' {
        if mem_total > 0 && amount > u64::MAX / mem_total {
            proof {
                assert(amount * mem_total > u64::MAX) by (nonlinear_arith)
                    requires mem_total > 0, amount > u64::MAX / mem_total;
            }
            return None;
        }
        proof {
            assert(amount * mem_total <= u64::MAX) by (nonlinear_arith)
                requires mem_total == 0 || amount <= u64::MAX / mem_total;
        }
        Some(Ok(amount * mem_total / 100))
    } else {
        match IecSymbol::try_from_char(unit) {
            Ok(sym) => {
                let m = Unit::Iec(sym).bytes_per_unit();
                proof { crate::units::lemma_power_positive(1024, sym.exponent()); }
                if amount > u64::MAX / m {
                    proof {
                        assert(amount * m > u64::MAX) by (nonlinear_arith)
                            requires m > 0, amount > u64::MAX / m;
                    }
                    return None;
                }
                proof {
                    assert(amount * m <= u64::MAX) by (nonlinear_arith)
                        requires m > 0, amount <= u64::MAX / m;
                }
                Some(Ok(unit_to_bytes(amount, Unit::Iec(sym))))
            },
            Err(e) => Some(Err(e)),
        }
    }
}

/// Converts the threshold `mem_amount` into bytes where the memory totals
/// `mem_total` bytes: a percentage such as `"10%"` of the total, or an
/// amount such as `"2 G"` in an IEC unit.
pub fn memory_absolute(mem_amount: &str, mem_total: u64) -> (res: Result<u64, Error>)
    requires
        threshold_fits(mem_amount@, mem_total as nat),
    ensures
        match memory_threshold(mem_amount@, mem_total as nat) {
            Ok(v) => res == Ok::<u64, Error>(v as u64),
            Err(e) => res matches Err(f) && f@ == e,
        },
{
    match memory_absolute_checked(mem_amount, mem_total) {
        Some(r) => r,
        None => Err(Error::new("overflow")),
    }
}

/// How the used memory is counted.
#[derive(Clone, Copy, Debug, Eq, PartialEq, Structural)]
pub enum MemoryUsedMethod {
    /// Total memory less free, buffers and cache (as Gnome's system monitor).
    Classical,
    /// Total memory less the available memory (as `free`).
    MemAvailable,
}

impl Default for MemoryUsedMethod {
    fn default() -> (res: MemoryUsedMethod)
        ensures
            res == MemoryUsedMethod::Classical,
    {
        MemoryUsedMethod::Classical
    }
}

/// The memory figures of `/proc/meminfo`, in bytes.
#[derive(Clone, Copy, Debug, Default, Eq, PartialEq, Structural)]
pub struct MemInfo {
    pub ram_total: u64,
    pub ram_free: u64,
    pub ram_buffers: u64,
    pub ram_available: u64,
    pub ram_cached: u64,
    pub ram_shared: u64,
}

/// The outcome of reading lines: what they give, the error at the first
/// line that does not read, or an overflow (where the reading panics).
pub enum Outcome<T> {
    Done(T),
    Failed(ErrorView),
    Overflows,
}

/// The outcome of reading, as a value: what was read, the error, or an
/// overflow (where reading panics).
#[derive(Debug)]
pub enum Parsed<T> {
    Done(T),
    Failed(Error),
    Overflows,
}

/// Whether `p` is the outcome `o`.
pub open spec fn parsed_is<T>(p: Parsed<T>, o: Outcome<T>) -> bool {
    match p {
        Parsed::Done(a) => o == Outcome::<T>::Done(a),
        Parsed::Failed(e) => o matches Outcome::Failed(v) && e@ == v,
        Parsed::Overflows => o is Overflows,
    }
}

/// The figures after the line `line` of `/proc/meminfo`: its first word is
/// the field and its second word the value in KiB; the fields that are not
/// kept leave the figures as they are.
pub open spec fn meminfo_line(m: MemInfo, line: Seq<char>) -> Outcome<MemInfo> {
    let w = words(line);
    if w.len() == 0 {
        Outcome::Failed(error_with("No field"@))
    } else if w.len() < 2 || parse_int(w[1], false, 0, u64::MAX as int) is Err {
        Outcome::Failed(error_with("No value"@))
    } else {
        let field = w[0];
        let value = parse_int(w[1], false, 0, u64::MAX as int)->Ok_0 * 1024;
        if field != "MemTotal:"@ && field != "MemFree:"@ && field != "MemAvailable:"@ && field
            != "Buffers:"@ && field != "Cached:"@ && field != "Shmem:"@ {
            Outcome::Done(m)
        } else if value > u64::MAX {
            Outcome::Overflows
        } else if field == "MemTotal:"@ {
            Outcome::Done(MemInfo { ram_total: value as u64, ..m })
        } else if field == "MemFree:"@ {
            Outcome::Done(MemInfo { ram_free: value as u64, ..m })
        } else if field == "MemAvailable:"@ {
            Outcome::Done(MemInfo { ram_available: value as u64, ..m })
        } else if field == "Buffers:"@ {
            Outcome::Done(MemInfo { ram_buffers: value as u64, ..m })
        } else if field == "Cached:"@ {
            Outcome::Done(MemInfo { ram_cached: value as u64, ..m })
        } else {
            Outcome::Done(MemInfo { ram_shared: value as u64, ..m })
        }
    }
}

/// The figures that the lines give, starting from zeros.
pub open spec fn meminfo_lines(lines: Seq<Seq<char>>) -> Outcome<MemInfo>
    decreases lines.len(),
{
    if lines.len() == 0 {
        Outcome::Done(MemInfo { ram_total: 0, ram_free: 0, ram_buffers: 0, ram_available: 0, ram_cached: 0, ram_shared: 0 })
    } else {
        match meminfo_lines(lines.drop_last()) {
            Outcome::Done(m) => meminfo_line(m, lines.last()),
            other => other,
        }
    }
}

proof fn lemma_meminfo_prefix(lines: Seq<Seq<char>>, k: int)
    requires
        0 <= k <= lines.len(),
        !(meminfo_lines(lines.take(k)) is Done),
    ensures
        meminfo_lines(lines) == meminfo_lines(lines.take(k)),
    decreases lines.len() - k,
{
    if k < lines.len() {
        assert(lines.take(k + 1).drop_last() =~= lines.take(k));
        lemma_meminfo_prefix(lines, k + 1);
    } else {
        assert(lines.take(k) =~= lines);
    }
}

fn str_is(s: &String, lit: &str) -> (res: bool)
    ensures
        res == (s@ == lit@),
{
    crate::text::str_eq(s.as_str(), lit)
}

impl MemInfo {
    fn read_line(&mut self, line: &str) -> (res: Parsed<()>)
        ensures
            match meminfo_line(*old(self), line@) {
                Outcome::Done(m) => res is Done && *final(self) == m,
                Outcome::Failed(e) => res matches Parsed::Failed(f) && f@ == e,
                Outcome::Overflows => res is Overflows,
            },
    {
        let v = chars_of(line);
        let w = split_whitespace(&v);
        assert(views(w@) == words(line@));
        if w.len() == 0 {
            return Parsed::Failed(Error::new("No field"));
        }
        if w.len() < 2 {
            return Parsed::Failed(Error::new("No value"));
        }
        assert(w@[1]@ == words(line@)[1]);
        let value = match parse_u64(w[1].as_str()) {
            Ok(x) => x,
            Err(_) => {
                return Parsed::Failed(Error::new("No value"));
            },
        };
        let field = &w[0];
        assert(field@ == words(line@)[0]);
        proof {
            reveal_strlit("MemTotal:");
            reveal_strlit("MemFree:");
            reveal_strlit("MemAvailable:");
            reveal_strlit("Buffers:");
            reveal_strlit("Cached:");
            reveal_strlit("Shmem:");
        }
        let kept = str_is(field, "MemTotal:") || str_is(field, "MemFree:") || str_is(field, "MemAvailable:")
            || str_is(field, "Buffers:") || str_is(field, "Cached:") || str_is(field, "Shmem:");
        if !kept {
            return Parsed::Done(());
        }
        if value > u64::MAX / 1024 {
            return Parsed::Overflows;
        }
        if str_is(field, "MemTotal:") {
            self.ram_total = value * 1024;
        } else if str_is(field, "MemFree:") {
            self.ram_free = value * 1024;
        } else if str_is(field, "MemAvailable:") {
            self.ram_available = value * 1024;
        } else if str_is(field, "Buffers:") {
            self.ram_buffers = value * 1024;
        } else if str_is(field, "Cached:") {
            self.ram_cached = value * 1024;
        } else {
            self.ram_shared = value * 1024;
        }
        Parsed::Done(())
    }

    /// Reads the contents of `/proc/meminfo`, line by line, converting the
    /// values from KiB to bytes; a line without a field or without a value
    /// is an error, and a value too large for bytes in a `u64` an overflow.
    pub fn parse_checked(contents: &str) -> (res: Parsed<MemInfo>)
        ensures
            parsed_is(res, meminfo_lines(lines_of(contents@))),
    {
        let ls = lines(contents);
        let ghost all = lines_of(contents@);
        let mut m = MemInfo { ram_total: 0, ram_free: 0, ram_buffers: 0, ram_available: 0, ram_cached: 0, ram_shared: 0 };
        let mut i: usize = 0;
        assert(all.take(0) =~= Seq::<Seq<char>>::empty());
        while i < ls.len()
            invariant
                i <= ls@.len(),
                views(ls@) == all,
                all == lines_of(contents@),
                meminfo_lines(all.take(i as int)) == Outcome::Done(m),
            decreases ls.len() - i,
        {
            assert(all.take(i + 1).drop_last() =~= all.take(i as int));
            assert(all.take(i + 1).last() == ls@[i as int]@);
            match m.read_line(ls[i].as_str()) {
                Parsed::Done(()) => {},
                Parsed::Failed(e) => {
                    proof { lemma_meminfo_prefix(all, i + 1); }
                    return Parsed::Failed(e);
                },
                Parsed::Overflows => {
                    proof { lemma_meminfo_prefix(all, i + 1); }
                    return Parsed::Overflows;
                },
            }
            i = i + 1;
        }
        assert(all.take(i as int) =~= all);
        Parsed::Done(m)
    }

    /// Reads the contents of `/proc/meminfo`, whose values must fit in bytes.
    pub fn parse(contents: &str) -> (res: Result<MemInfo, Error>)
        requires
            !(meminfo_lines(lines_of(contents@)) is Overflows),
        ensures
            match meminfo_lines(lines_of(contents@)) {
                Outcome::Done(m) => res == Ok::<MemInfo, Error>(m),
                Outcome::Failed(e) => res matches Err(f) && f@ == e,
                Outcome::Overflows => false,
            },
    {
        match MemInfo::parse_checked(contents) {
            Parsed::Done(m) => Ok(m),
            Parsed::Failed(e) => Err(e),
            Parsed::Overflows => Err(Error::new("overflow")),
        }
    }

    /// The used memory, as `method` counts it.
    pub open spec fn spec_ram_used(self, method: MemoryUsedMethod) -> int {
        match method {
            MemoryUsedMethod::Classical => self.ram_total - self.ram_free - self.ram_buffers - self.ram_cached,
            MemoryUsedMethod::MemAvailable => self.ram_total - self.ram_available,
        }
    }

    /// The used memory, as `used_method` counts it; the figures must not
    /// give a negative amount.
    pub fn ram_used(&self, used_method: &MemoryUsedMethod) -> (res: u64)
        requires
            match used_method {
                MemoryUsedMethod::Classical => self.ram_total - self.ram_free >= 0 && self.ram_total
                    - self.ram_free - self.ram_buffers >= 0 && self.spec_ram_used(*used_method) >= 0,
                MemoryUsedMethod::MemAvailable => self.spec_ram_used(*used_method) >= 0,
            },
        ensures
            res == self.spec_ram_used(*used_method),
    {
        match used_method {
            MemoryUsedMethod::Classical => self.ram_total - self.ram_free - self.ram_buffers - self.ram_cached,
            MemoryUsedMethod::MemAvailable => self.ram_total - self.ram_available,
        }
    }
}

/// The settings of the memory module.
#[derive(Clone, Debug)]
pub struct Config {
    /// The format of the normal state (`"$percentage_used"` where it has no
    /// text).
    pub format: Format,
    /// The format of the warning and critical states
    /// (`"$percentage_available"` where it has no text).
    pub format_degraded: Format,
    /// Below this much available memory the state is a warning.
    pub threshold_degraded: Option<String>,
    /// Below this much available memory the state is critical.
    pub threshold_critical: Option<String>,
    /// How the used memory is counted.
    pub memory_used_method: Option<MemoryUsedMethod>,
    /// The unit of the placeholders.
    pub unit: Option<Unit>,
    /// The decimals of the placeholders.
    pub decimals: Option<usize>,
}

impl Default for Config {
    fn default() -> (res: Config)
        ensures
            res.format@.full_text is None,
            res.format_degraded@.full_text is None,
            opt_view(res.threshold_degraded) == Some("10%"@),
            opt_view(res.threshold_critical) == Some("5%"@),
            res.memory_used_method == Some(MemoryUsedMethod::Classical),
            res.unit == Some(Unit::Iec(IecSymbol::GiB)),
            res.decimals == Some(1usize),
    {
        Config {
            format: Format::new(),
            format_degraded: Format::new(),
            threshold_degraded: Some(String::from_str("10%")),
            threshold_critical: Some(String::from_str("5%")),
            memory_used_method: Some(MemoryUsedMethod::Classical),
            unit: Some(Unit::Iec(IecSymbol::GiB)),
            decimals: Some(1),
        }
    }
}

/// The state of the memory widget: critical where the available memory is
/// below the critical threshold, else a warning where it is below the
/// degraded one, else normal; a threshold that does not read is the error.
pub open spec fn memory_state_of(config: Config, m: MemInfo) -> Result<WidgetState, ErrorView> {
    let degraded = match config.threshold_degraded {
        Some(t) => match memory_threshold(t@, m.ram_total as nat) {
            Ok(v) => Ok(m.ram_available < v),
            Err(e) => Err(e),
        },
        None => Ok(false),
    };
    let critical = match config.threshold_critical {
        Some(t) => match memory_threshold(t@, m.ram_total as nat) {
            Ok(v) => Ok(m.ram_available < v),
            Err(e) => Err(e),
        },
        None => Ok(false),
    };
    match degraded {
        Err(e) => Err(e),
        Ok(d) => match critical {
            Err(e) => Err(e),
            Ok(c) => Ok(
                if c {
                    WidgetState::Critical
                } else if d {
                    WidgetState::Warning
                } else {
                    WidgetState::Normal
                },
            ),
        },
    }
}

/// Whether the thresholds of `config` that are read against `m` read
/// without overflow: the degraded one, then the critical one where the
/// degraded one did not fail.
pub open spec fn thresholds_fit(config: Config, m: MemInfo) -> bool {
    let degraded_ok = match config.threshold_degraded {
        Some(t) => memory_threshold(t@, m.ram_total as nat) is Ok,
        None => true,
    };
    &&& (config.threshold_degraded matches Some(t) ==> threshold_fits(t@, m.ram_total as nat))
    &&& (degraded_ok ==> (config.threshold_critical matches Some(t) ==> threshold_fits(t@, m.ram_total as nat)))
}

/// Whether the thresholds of `config` read against `m` without overflow.
pub fn thresholds_fit_exec(config: &Config, m: &MemInfo) -> (res: bool)
    ensures
        res == thresholds_fit(*config, *m),
{
    let (d, degraded_ok) = match &config.threshold_degraded {
        Some(t) => match memory_absolute_checked(t.as_str(), m.ram_total) {
            None => (false, false),
            Some(r) => (true, r.is_ok()),
        },
        None => (true, true),
    };
    let c = match &config.threshold_critical {
        Some(t) => !degraded_ok || memory_absolute_checked(t.as_str(), m.ram_total).is_some(),
        None => true,
    };
    d && c
}

/// The state of the memory widget for the figures `m`; the degraded format
/// is shown in every state but the normal one.
pub fn memory_state(config: &Config, m: &MemInfo) -> (res: Result<WidgetState, Error>)
    requires
        thresholds_fit(*config, *m),
    ensures
        match memory_state_of(*config, *m) {
            Ok(s) => res == Ok::<WidgetState, Error>(s),
            Err(e) => res matches Err(f) && f@ == e,
        },
{
    let mut state = WidgetState::Normal;
    if let Some(degraded) = &config.threshold_degraded {
        let threshold = memory_absolute(degraded.as_str(), m.ram_total)?;
        if m.ram_available < threshold {
            state = WidgetState::Warning;
        }
    }
    if let Some(critical) = &config.threshold_critical {
        let threshold = memory_absolute(critical.as_str(), m.ram_total)?;
        if m.ram_available < threshold {
            state = WidgetState::Critical;
        }
    }
    Ok(state)
}

/// `f`, or, where it has no full text, the same with `default` as its full
/// text.
pub open spec fn format_or(f: FormatView, default: Seq<char>) -> FormatView {
    match f.full_text {
        Some(_) => f,
        None => FormatView { full_text: Some(default), short_text: f.short_text },
    }
}

fn format_with_default(f: &Format, default: &str) -> (res: Format)
    ensures
        res@ == format_or(f@, default@),
{
    let g = f.clone();
    if g.full_text.is_none() {
        g.with_default(default)
    } else {
        g
    }
}

/// The format that the memory widget shows in `state`: `format` (by
/// default `"$percentage_used"`) in the normal state, `format_degraded` (by
/// default `"$percentage_available"`) in the warning and critical ones.
pub fn memory_format(config: &Config, state: WidgetState) -> (res: Format)
    ensures
        res@ == (if state == WidgetState::Normal {
            format_or(config.format@, "$percentage_used"@)
        } else {
            format_or(config.format_degraded@, "$percentage_available"@)
        }),
{
    if state == WidgetState::Normal {
        format_with_default(&config.format, "$percentage_used")
    } else {
        format_with_default(&config.format_degraded, "$percentage_available")
    }
}

/// The used memory and what is not used make up the whole: counted by
/// `MemAvailable`, the used and the available memory add up to the total;
/// counted the classical way, the used, free, buffer and cache memory add
/// up to the total.
pub proof fn lemma_used_memory_parts(m: MemInfo)
    ensures
        m.spec_ram_used(MemoryUsedMethod::MemAvailable) + m.ram_available == m.ram_total,
        m.spec_ram_used(MemoryUsedMethod::Classical) + m.ram_free + m.ram_buffers + m.ram_cached == m.ram_total,
{
}

} // verus!
