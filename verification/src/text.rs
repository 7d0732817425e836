//! Character-level text utilities shared by the parsers and renderers of the
//! library: building strings, substring replacement, decimal numbers and
//! splitting.
use vstd::prelude::*;

verus! {

/// Appends `c` to `s` (`String::push`).
#[verifier::external_body]
pub(crate) fn push_char(s: &mut String, c: char)
    ensures
        final(s)@ == old(s)@.push(c),
{
    s.push(c);
}

/// The characters of `s`, in order.
pub fn chars_of(s: &str) -> (res: Vec<char>)
    ensures
        res@ == s@,
{
    let mut res: Vec<char> = Vec::new();
    for c in it: s.chars()
        invariant
            res@ == it.seq().take(it.index() as int),
    {
        res.push(c);
    }
    res
}

/// A string made of the characters of `v`, in order.
pub fn string_from_chars(v: &[char]) -> (res: String)
    ensures
        res@ == v@,
{
    let mut res = String::new();
    let mut i: usize = 0;
    while i < v.len()
        invariant
            i <= v.len(),
            res@ == v@.take(i as int),
        decreases v.len() - i,
    {
        push_char(&mut res, v[i]);
        i = i + 1;
    }
    res
}

/// Whether `p` occurs in `s` at position `i`.
pub open spec fn occurs_at(s: Seq<char>, p: Seq<char>, i: int) -> bool {
    0 <= i && i + p.len() <= s.len() && s.subrange(i, i + p.len()) == p
}

/// `s` with every occurrence of `needle` replaced by `with`, the occurrences
/// taken from the left without overlapping. An empty needle occurs before
/// every character and at the end.
pub open spec fn replace_all(s: Seq<char>, needle: Seq<char>, with: Seq<char>) -> Seq<char>
    decreases s.len(),
{
    if needle.len() == 0 {
        if s.len() == 0 {
            with
        } else {
            with + seq![s[0]] + replace_all(s.drop_first(), needle, with)
        }
    } else if occurs_at(s, needle, 0) {
        with + replace_all(s.skip(needle.len() as int), needle, with)
    } else if s.len() == 0 {
        s
    } else {
        seq![s[0]] + replace_all(s.drop_first(), needle, with)
    }
}

pub(crate) fn matches_at(s: &Vec<char>, p: &Vec<char>, i: usize) -> (res: bool)
    requires
        i <= s@.len(),
    ensures
        res == occurs_at(s@, p@, i as int),
{
    if p.len() > s.len() - i {
        return false;
    }
    let mut j: usize = 0;
    while j < p.len()
        invariant
            j <= p@.len(),
            i <= s@.len(),
            i + p@.len() <= s.len(),
            forall|k: int| 0 <= k < j ==> s@[i + k] == p@[k],
        decreases p.len() - j,
    {
        if s[i + j] != p[j] {
            assert(s@.subrange(i as int, i + p@.len())[j as int] != p@[j as int]);
            return false;
        }
        j = j + 1;
    }
    assert(s@.subrange(i as int, i + p@.len()) =~= p@);
    true
}

/// Replaces every occurrence of `needle` in `s` by `with` (`str::replace`).
pub fn replace_str(s: &str, needle: &str, with: &str) -> (res: String)
    ensures
        res@ == replace_all(s@, needle@, with@),
{
    let h = chars_of(s);
    let n = chars_of(needle);
    let mut res = String::new();
    let mut i: usize = 0;
    assert(h@.skip(0) =~= h@);
    while i < h.len()
        invariant
            i <= h@.len(),
            h@ == s@,
            n@ == needle@,
            replace_all(s@, needle@, with@) == res@ + replace_all(h@.skip(i as int), n@, with@),
        decreases h.len() - i,
    {
        let ghost rest = h@.skip(i as int);
        if n.len() > 0 && matches_at(&h, &n, i) {
            assert(occurs_at(rest, n@, 0)) by {
                assert(rest.subrange(0, n@.len() as int) =~= h@.subrange(i as int, i + n@.len()));
            }
            assert(rest.skip(n@.len() as int) =~= h@.skip(i + n@.len()));
            res.append(with);
            i = i + n.len();
        } else {
            if n.len() > 0 {
                assert(!occurs_at(rest, n@, 0)) by {
                    if occurs_at(rest, n@, 0) {
                        assert(rest.subrange(0, n@.len() as int) =~= h@.subrange(i as int, i + n@.len()));
                    }
                }
            } else {
                res.append(with);
            }
            assert(rest.drop_first() =~= h@.skip(i + 1));
            push_char(&mut res, h[i]);
            i = i + 1;
        }
    }
    assert(h@.skip(i as int) =~= Seq::<char>::empty());
    if n.len() == 0 {
        res.append(with);
    }
    res
}

/// `s` with the first occurrence of `needle` replaced by `with`
/// (`str::replacen` with a count of one); `s` itself where `needle` does
/// not occur. An empty needle occurs at the start.
pub open spec fn replace_first(s: Seq<char>, needle: Seq<char>, with: Seq<char>) -> Seq<char>
    decreases s.len(),
{
    if occurs_at(s, needle, 0) {
        with + s.skip(needle.len() as int)
    } else if s.len() == 0 {
        s
    } else {
        seq![s[0]] + replace_first(s.drop_first(), needle, with)
    }
}

/// A string made of the characters of `v` from `a` up to `b`.
fn string_from_range(v: &Vec<char>, a: usize, b: usize) -> (res: String)
    requires
        a <= b <= v@.len(),
    ensures
        res@ == v@.subrange(a as int, b as int),
{
    let mut res = String::new();
    let mut i: usize = a;
    while i < b
        invariant
            a <= i <= b <= v@.len(),
            res@ == v@.subrange(a as int, i as int),
        decreases b - i,
    {
        push_char(&mut res, v[i]);
        assert(res@ =~= v@.subrange(a as int, i + 1));
        i = i + 1;
    }
    res
}

/// Replaces the first occurrence of `needle` in `s` by `with`.
pub fn replace_first_str(s: &str, needle: &str, with: &str) -> (res: String)
    ensures
        res@ == replace_first(s@, needle@, with@),
{
    let h = chars_of(s);
    let n = chars_of(needle);
    let mut i: usize = 0;
    assert(h@.skip(0) =~= h@);
    assert(h@.take(0) + replace_first(h@.skip(0), n@, with@) =~= replace_first(h@, n@, with@));
    while i < h.len()
        invariant
            i <= h@.len(),
            h@ == s@,
            n@ == needle@,
            replace_first(s@, needle@, with@) == h@.take(i as int) + replace_first(h@.skip(i as int), n@, with@),
        decreases h.len() - i,
    {
        let ghost rest = h@.skip(i as int);
        if matches_at(&h, &n, i) {
            assert(occurs_at(rest, n@, 0)) by {
                assert(rest.subrange(0, n@.len() as int) =~= h@.subrange(i as int, i + n@.len()));
            }
            assert(rest.skip(n@.len() as int) =~= h@.skip(i + n@.len()));
            let mut res = string_from_range(&h, 0, i);
            res.append(with);
            let tail = string_from_range(&h, i + n.len(), h.len());
            res.append(tail.as_str());
            assert(h@.subrange(0, i as int) =~= h@.take(i as int));
            assert(h@.subrange(i + n@.len(), h@.len() as int) =~= h@.skip(i + n@.len()));
            return res;
        }
        assert(!occurs_at(rest, n@, 0)) by {
            if occurs_at(rest, n@, 0) {
                assert(rest.subrange(0, n@.len() as int) =~= h@.subrange(i as int, i + n@.len()));
            }
        }
        assert(rest.drop_first() =~= h@.skip(i + 1));
        assert(h@.take(i as int) + (seq![h@[i as int]] + replace_first(h@.skip(i + 1), n@, with@))
            =~= h@.take(i + 1) + replace_first(h@.skip(i + 1), n@, with@));
        i = i + 1;
    }
    assert(h@.skip(i as int) =~= Seq::<char>::empty());
    if matches_at(&h, &n, i) {
        assert(n@.len() == 0);
        let ghost e = h@.skip(i as int);
        assert(occurs_at(e, n@, 0)) by {
            assert(e.subrange(0, 0) =~= n@);
        }
        assert(e.skip(0) =~= Seq::<char>::empty());
        assert(replace_first(e, n@, with@) =~= with@);
        let mut res = s.to_owned();
        res.append(with);
        assert(h@.take(i as int) =~= h@);
        return res;
    }
    assert(!occurs_at(h@.skip(i as int), n@, 0)) by {
        if occurs_at(h@.skip(i as int), n@, 0) {
            assert(h@.skip(i as int).subrange(0, n@.len() as int) =~= h@.subrange(i as int, i + n@.len()));
        }
    }
    assert(h@.take(i as int) =~= h@);
    s.to_owned()
}

} // verus!

verus! {

/// Whether `c` is one of the ASCII digits `0` to `9`.
pub open spec fn is_digit(c: char) -> bool {
    '0' <= c && c <= '9'
}

/// The value of the ASCII digit `c`.
pub open spec fn digit_value(c: char) -> int {
    c as int - '0' as int
}

/// The digit that stands for `d`, for `0 <= d < 10`.
pub open spec fn digit_char(d: int) -> char {
    (d + '0' as int) as char
}

/// The decimal notation of `n`, without leading zeros.
pub open spec fn decimal(n: nat) -> Seq<char>
    decreases n,
{
    if n < 10 {
        seq![digit_char(n as int)]
    } else {
        decimal(n / 10).push(digit_char((n % 10) as int))
    }
}

/// The decimal notation of the integer `n`, with a `-` in front of a
/// negative one.
pub open spec fn signed_decimal(n: int) -> Seq<char> {
    if n < 0 {
        seq!['-'] + decimal((-n) as nat)
    } else {
        decimal(n as nat)
    }
}

/// The digit that stands for `d`.
pub fn digit_to_char(d: u8) -> (c: char)
    requires
        d < 10,
    ensures
        c == digit_char(d as int),
        is_digit(c),
{
    (d + 48u8) as char
}

/// The decimal notation of `n` (`u64::to_string`).
pub fn u64_to_string(n: u64) -> (res: String)
    ensures
        res@ == decimal(n as nat),
{
    let mut digits: Vec<char> = Vec::new();
    let mut m: u64 = n;
    // the digits of n, least significant first
    while m >= 10
        invariant
            decimal(n as nat) == decimal(m as nat) + digits@.reverse(),
        decreases m,
    {
        let c = digit_to_char((m % 10) as u8);
        let ghost before = digits@;
        digits.push(c);
        assert(digits@.reverse() =~= seq![c] + before.reverse());
        assert(decimal(m as nat) == decimal((m / 10) as nat).push(c));
        assert(decimal((m / 10) as nat).push(c) + before.reverse() =~= decimal((m / 10) as nat) + digits@.reverse());
        m = m / 10;
    }
    let c = digit_to_char(m as u8);
    let ghost before = digits@;
    digits.push(c);
    assert(digits@.reverse() =~= seq![c] + before.reverse());
    let mut res = String::new();
    let mut i: usize = digits.len();
    while i > 0
        invariant
            i <= digits@.len(),
            res@ == digits@.reverse().take(digits@.len() - i),
        decreases i,
    {
        i = i - 1;
        push_char(&mut res, digits[i]);
        assert(digits@.reverse().take(digits@.len() - i) =~= digits@.reverse().take(digits@.len() - i - 1).push(digits@[i as int]));
    }
    assert(digits@.reverse().take(digits@.len() as int) =~= digits@.reverse());
    assert(decimal(n as nat) =~= digits@.reverse());
    res
}

} // verus!

verus! {

/// Why a decimal integer could not be read (the kinds of std's `ParseIntError`).
#[derive(Clone, Copy, Debug, PartialEq, Eq)]
pub enum ParseIntError {
    Empty,
    InvalidDigit,
    PosOverflow,
    NegOverflow,
}

impl ParseIntError {
    /// The description of the error, as std words it.
    pub open spec fn spec_message(self) -> Seq<char> {
        match self {
            ParseIntError::Empty => "cannot parse integer from empty string"@,
            ParseIntError::InvalidDigit => "invalid digit found in string"@,
            ParseIntError::PosOverflow => "number too large to fit in target type"@,
            ParseIntError::NegOverflow => "number too small to fit in target type"@,
        }
    }

    /// The description of the error.
    pub fn message(&self) -> (res: String)
        ensures
            res@ == self.spec_message(),
    {
        match self {
            ParseIntError::Empty => {
                let r = String::from_str("cannot parse integer from empty string");
                proof { reveal_strlit("cannot parse integer from empty string"); }
                r
            },
            ParseIntError::InvalidDigit => {
                let r = String::from_str("invalid digit found in string");
                proof { reveal_strlit("invalid digit found in string"); }
                r
            },
            ParseIntError::PosOverflow => {
                let r = String::from_str("number too large to fit in target type");
                proof { reveal_strlit("number too large to fit in target type"); }
                r
            },
            ParseIntError::NegOverflow => {
                let r = String::from_str("number too small to fit in target type");
                proof { reveal_strlit("number too small to fit in target type"); }
                r
            },
        }
    }
}

/// Reads the digits of `digits` from the left into a number between `min`
/// and `max`, negative where `positive` is false; the first character that
/// is not a digit, or the first step out of range, is the error.
pub open spec fn parse_digits(digits: Seq<char>, positive: bool, min: int, max: int) -> Result<int, ParseIntError>
    decreases digits.len(),
{
    if digits.len() == 0 {
        Ok(0)
    } else {
        match parse_digits(digits.drop_last(), positive, min, max) {
            Err(e) => Err(e),
            Ok(acc) => {
                let c = digits.last();
                if !is_digit(c) {
                    Err(ParseIntError::InvalidDigit)
                } else if positive {
                    if acc * 10 + digit_value(c) > max {
                        Err(ParseIntError::PosOverflow)
                    } else {
                        Ok(acc * 10 + digit_value(c))
                    }
                } else {
                    if acc * 10 - digit_value(c) < min {
                        Err(ParseIntError::NegOverflow)
                    } else {
                        Ok(acc * 10 - digit_value(c))
                    }
                }
            },
        }
    }
}

/// The decimal integer that `s` spells, as std's `from_str` reads it for an
/// integer type with bounds `min` and `max`: an optional `+` (or, where
/// `signed`, `-`) followed by digits.
pub open spec fn parse_int(s: Seq<char>, signed: bool, min: int, max: int) -> Result<int, ParseIntError> {
    if s.len() == 0 {
        Err(ParseIntError::Empty)
    } else if s.len() == 1 && (s[0] == '+' || s[0] == '-') {
        Err(ParseIntError::InvalidDigit)
    } else if s[0] == '+' {
        parse_digits(s.drop_first(), true, min, max)
    } else if s[0] == '-' && signed {
        parse_digits(s.drop_first(), false, min, max)
    } else {
        parse_digits(s, true, min, max)
    }
}

proof fn lemma_parse_digits_range(digits: Seq<char>, positive: bool, min: int, max: int)
    requires
        min <= 0 <= max,
    ensures
        parse_digits(digits, positive, min, max) matches Ok(v) ==> min <= v <= max
            && (positive ==> v >= 0) && (!positive ==> v <= 0),
    decreases digits.len(),
{
    if digits.len() > 0 {
        lemma_parse_digits_range(digits.drop_last(), positive, min, max);
    }
}

fn parse_digits_exec(v: &Vec<char>, start: usize, positive: bool, min: i128, max: i128) -> (res: Result<i128, ParseIntError>)
    requires
        start <= v@.len(),
        -0x1_0000_0000_0000_0000 <= min <= 0 <= max <= 0x1_0000_0000_0000_0000,
    ensures
        res == (match parse_digits(v@.skip(start as int), positive, min as int, max as int) {
            Ok(x) => Ok::<i128, ParseIntError>(x as i128),
            Err(e) => Err(e),
        }),
        res matches Ok(x) ==> min <= x <= max,
{
    let ghost d = v@.skip(start as int);
    let mut acc: i128 = 0;
    let mut i: usize = start;
    assert(d.take(0) =~= Seq::<char>::empty());
    while i < v.len()
        invariant
            start <= i <= v@.len(),
            d == v@.skip(start as int),
            -0x1_0000_0000_0000_0000 <= min <= 0 <= max <= 0x1_0000_0000_0000_0000,
            min <= acc <= max,
            positive ==> acc >= 0,
            !positive ==> acc <= 0,
            parse_digits(d.take(i - start), positive, min as int, max as int) == Ok::<int, ParseIntError>(acc as int),
        decreases v.len() - i,
    {
        let c = v[i];
        assert(d.take(i - start + 1).drop_last() =~= d.take(i - start));
        assert(d.take(i - start + 1).last() == c);
        if !('0' <= c && c <= '9') {
            proof { lemma_parse_prefix_err(d, (i - start + 1) as int, positive, min as int, max as int); }
            return Err(ParseIntError::InvalidDigit);
        }
        let dv = (c as u32 - '0' as u32) as i128;
        if positive {
            if acc * 10 + dv > max {
                proof { lemma_parse_prefix_err(d, (i - start + 1) as int, positive, min as int, max as int); }
                return Err(ParseIntError::PosOverflow);
            }
            acc = acc * 10 + dv;
        } else {
            if acc * 10 - dv < min {
                proof { lemma_parse_prefix_err(d, (i - start + 1) as int, positive, min as int, max as int); }
                return Err(ParseIntError::NegOverflow);
            }
            acc = acc * 10 - dv;
        }
        i = i + 1;
    }
    assert(d.take(i - start) =~= d);
    Ok(acc)
}

/// An error while reading a prefix of the digits stays the error of the whole.
proof fn lemma_parse_prefix_err(d: Seq<char>, k: int, positive: bool, min: int, max: int)
    requires
        0 <= k <= d.len(),
        parse_digits(d.take(k), positive, min, max) is Err,
    ensures
        parse_digits(d, positive, min, max) == parse_digits(d.take(k), positive, min, max),
    decreases d.len() - k,
{
    if k < d.len() {
        assert(d.take(k + 1).drop_last() =~= d.take(k));
        lemma_parse_prefix_err(d, k + 1, positive, min, max);
    } else {
        assert(d.take(k) =~= d);
    }
}

fn parse_int_exec(s: &str, signed: bool, min: i128, max: i128) -> (res: Result<i128, ParseIntError>)
    requires
        -0x1_0000_0000_0000_0000 <= min <= 0 <= max <= 0x1_0000_0000_0000_0000,
    ensures
        res == (match parse_int(s@, signed, min as int, max as int) {
            Ok(x) => Ok::<i128, ParseIntError>(x as i128),
            Err(e) => Err(e),
        }),
        res matches Ok(x) ==> min <= x <= max,
{
    let v = chars_of(s);
    if v.len() == 0 {
        return Err(ParseIntError::Empty);
    }
    if v.len() == 1 && (v[0] == '+' || v[0] == '-') {
        return Err(ParseIntError::InvalidDigit);
    }
    if v[0] == '+' {
        assert(v@.skip(1) =~= v@.drop_first());
        parse_digits_exec(&v, 1, true, min, max)
    } else if v[0] == '-' && signed {
        assert(v@.skip(1) =~= v@.drop_first());
        parse_digits_exec(&v, 1, false, min, max)
    } else {
        assert(v@.skip(0) =~= v@);
        parse_digits_exec(&v, 0, true, min, max)
    }
}

proof fn lemma_parse_int_range(s: Seq<char>, signed: bool, min: int, max: int)
    requires
        min <= 0 <= max,
    ensures
        parse_int(s, signed, min, max) matches Ok(v) ==> min <= v <= max,
{
    if s.len() > 0 {
        lemma_parse_digits_range(s.drop_first(), true, min, max);
        lemma_parse_digits_range(s.drop_first(), false, min, max);
        lemma_parse_digits_range(s, true, min, max);
    }
}

/// Reads `s` as a `u64` (`u64::from_str`).
pub fn parse_u64(s: &str) -> (res: Result<u64, ParseIntError>)
    ensures
        res == (match parse_int(s@, false, 0, u64::MAX as int) {
            Ok(x) => Ok::<u64, ParseIntError>(x as u64),
            Err(e) => Err(e),
        }),
        parse_int(s@, false, 0, u64::MAX as int) matches Ok(x) ==> 0 <= x <= u64::MAX as int,
{
    proof { lemma_parse_int_range(s@, false, 0, u64::MAX as int); }
    match parse_int_exec(s, false, 0, u64::MAX as i128) {
        Ok(x) => Ok(x as u64),
        Err(e) => Err(e),
    }
}

/// Reads `s` as an `i64` (`i64::from_str`).
pub fn parse_i64(s: &str) -> (res: Result<i64, ParseIntError>)
    ensures
        res == (match parse_int(s@, true, i64::MIN as int, i64::MAX as int) {
            Ok(x) => Ok::<i64, ParseIntError>(x as i64),
            Err(e) => Err(e),
        }),
        parse_int(s@, true, i64::MIN as int, i64::MAX as int) matches Ok(x) ==> i64::MIN as int <= x <= i64::MAX as int,
{
    proof { lemma_parse_int_range(s@, true, i64::MIN as int, i64::MAX as int); }
    match parse_int_exec(s, true, i64::MIN as i128, i64::MAX as i128) {
        Ok(x) => Ok(x as i64),
        Err(e) => Err(e),
    }
}

/// Reads `s` as an `i32` (`i32::from_str`).
pub fn parse_i32(s: &str) -> (res: Result<i32, ParseIntError>)
    ensures
        res == (match parse_int(s@, true, i32::MIN as int, i32::MAX as int) {
            Ok(x) => Ok::<i32, ParseIntError>(x as i32),
            Err(e) => Err(e),
        }),
        parse_int(s@, true, i32::MIN as int, i32::MAX as int) matches Ok(x) ==> i32::MIN as int <= x <= i32::MAX as int,
{
    proof { lemma_parse_int_range(s@, true, i32::MIN as int, i32::MAX as int); }
    match parse_int_exec(s, true, i32::MIN as i128, i32::MAX as i128) {
        Ok(x) => Ok(x as i32),
        Err(e) => Err(e),
    }
}

} // verus!

verus! {

/// Whether `c` has the Unicode property White_Space (`char::is_whitespace`).
pub open spec fn is_whitespace(c: char) -> bool {
    ||| ('\u{9}' <= c && c <= '\u{d}')
    ||| c == ' '
    ||| c == '\u{85}'
    ||| c == '\u{a0}'
    ||| c == '\u{1680}'
    ||| ('\u{2000}' <= c && c <= '\u{200a}')
    ||| c == '\u{2028}'
    ||| c == '\u{2029}'
    ||| c == '\u{202f}'
    ||| c == '\u{205f}'
    ||| c == '\u{3000}'
}

/// Whether `c` has the Unicode property White_Space.
pub fn is_whitespace_char(c: char) -> (res: bool)
    ensures
        res == is_whitespace(c),
{
    ('\u{9}' <= c && c <= '\u{d}') || c == ' ' || c == '\u{85}' || c == '\u{a0}' || c == '\u{1680}'
        || ('\u{2000}' <= c && c <= '\u{200a}') || c == '\u{2028}' || c == '\u{2029}'
        || c == '\u{202f}' || c == '\u{205f}' || c == '\u{3000}'
}

/// `s` without its leading white space.
pub open spec fn trim_start(s: Seq<char>) -> Seq<char>
    decreases s.len(),
{
    if s.len() > 0 && is_whitespace(s[0]) {
        trim_start(s.drop_first())
    } else {
        s
    }
}

/// `s` without its trailing white space.
pub open spec fn trim_end(s: Seq<char>) -> Seq<char>
    decreases s.len(),
{
    if s.len() > 0 && is_whitespace(s.last()) {
        trim_end(s.drop_last())
    } else {
        s
    }
}

/// `s` without leading and trailing white space.
pub open spec fn trim(s: Seq<char>) -> Seq<char> {
    trim_end(trim_start(s))
}

/// `s` without its leading white space (`str::trim_start`).
pub fn trim_start_chars(s: &Vec<char>) -> (res: Vec<char>)
    ensures
        res@ == trim_start(s@),
{
    let mut i: usize = 0;
    assert(s@.skip(0) =~= s@);
    while i < s.len() && is_whitespace_char(s[i])
        invariant
            i <= s@.len(),
            trim_start(s@) == trim_start(s@.skip(i as int)),
        decreases s.len() - i,
    {
        assert(s@.skip(i as int).drop_first() =~= s@.skip(i + 1));
        i = i + 1;
    }
    let mut res: Vec<char> = Vec::new();
    let mut j: usize = i;
    while j < s.len()
        invariant
            i <= j <= s@.len(),
            res@ == s@.subrange(i as int, j as int),
        decreases s.len() - j,
    {
        res.push(s[j]);
        assert(res@ =~= s@.subrange(i as int, j + 1));
        j = j + 1;
    }
    assert(s@.subrange(i as int, s@.len() as int) =~= s@.skip(i as int));
    res
}

/// `s` without its trailing white space (`str::trim_end`).
pub fn trim_end_chars(s: &Vec<char>) -> (res: Vec<char>)
    ensures
        res@ == trim_end(s@),
{
    let mut n: usize = s.len();
    assert(s@.take(n as int) =~= s@);
    while n > 0 && is_whitespace_char(s[n - 1])
        invariant
            n <= s@.len(),
            trim_end(s@) == trim_end(s@.take(n as int)),
        decreases n,
    {
        assert(s@.take(n as int).drop_last() =~= s@.take(n - 1));
        n = n - 1;
    }
    let mut res: Vec<char> = Vec::new();
    let mut j: usize = 0;
    while j < n
        invariant
            j <= n <= s@.len(),
            res@ == s@.take(j as int),
        decreases n - j,
    {
        res.push(s[j]);
        assert(res@ =~= s@.take(j + 1));
        j = j + 1;
    }
    res
}

/// `s` without leading and trailing white space (`str::trim`).
pub fn trim_chars(s: &Vec<char>) -> (res: Vec<char>)
    ensures
        res@ == trim(s@),
{
    let t = trim_start_chars(s);
    trim_end_chars(&t)
}

/// Adds `prefix` in front of the first piece of `pieces`.
pub open spec fn prepend_first(prefix: Seq<char>, pieces: Seq<Seq<char>>) -> Seq<Seq<char>> {
    pieces.update(0, prefix + pieces[0])
}

/// The pieces of `s` between the occurrences of `sep` (`str::split` on a
/// character): one more piece than there are separators.
pub open spec fn split_on(s: Seq<char>, sep: char) -> Seq<Seq<char>>
    decreases s.len(),
{
    if s.len() == 0 {
        seq![Seq::<char>::empty()]
    } else if s[0] == sep {
        seq![Seq::<char>::empty()] + split_on(s.drop_first(), sep)
    } else {
        prepend_first(seq![s[0]], split_on(s.drop_first(), sep))
    }
}

/// Splitting yields at least one piece.
pub proof fn lemma_split_on_nonempty(s: Seq<char>, sep: char)
    ensures
        split_on(s, sep).len() >= 1,
    decreases s.len(),
{
    if s.len() > 0 {
        lemma_split_on_nonempty(s.drop_first(), sep);
    }
}

/// The views of a vector of strings.
pub open spec fn views(v: Seq<String>) -> Seq<Seq<char>> {
    v.map_values(|x: String| x@)
}

/// The pieces of `s` between the occurrences of `sep` (`str::split`).
pub fn split_on_char(s: &Vec<char>, sep: char) -> (res: Vec<String>)
    ensures
        views(res@) == split_on(s@, sep),
{
    let mut pieces: Vec<String> = Vec::new();
    let mut cur: Vec<char> = Vec::new();
    let mut i: usize = 0;
    assert(s@.skip(0) =~= s@);
    proof { lemma_split_on_nonempty(s@, sep); }
    assert(prepend_first(Seq::<char>::empty(), split_on(s@, sep)) =~= split_on(s@, sep));
    while i < s.len()
        invariant
            i <= s@.len(),
            split_on(s@, sep) == views(pieces@) + prepend_first(cur@, split_on(s@.skip(i as int), sep)),
        decreases s.len() - i,
    {
        let ghost rest = split_on(s@.skip(i + 1), sep);
        proof { lemma_split_on_nonempty(s@.skip(i + 1), sep); }
        assert(s@.skip(i as int).drop_first() =~= s@.skip(i + 1));
        if s[i] == sep {
            let piece = string_from_chars(cur.as_slice());
            let ghost old_pieces = pieces@;
            pieces.push(piece);
            assert(views(pieces@) =~= views(old_pieces).push(cur@));
            assert(prepend_first(cur@, seq![Seq::<char>::empty()] + rest) =~= seq![cur@] + rest);
            assert(prepend_first(Seq::<char>::empty(), rest) =~= rest);
            assert(views(old_pieces) + (seq![cur@] + rest) =~= views(pieces@) + rest);
            cur = Vec::new();
        } else {
            let ghost old_cur = cur@;
            cur.push(s[i]);
            assert(old_cur + (seq![s@[i as int]] + rest[0]) =~= cur@ + rest[0]);
            assert(prepend_first(old_cur, prepend_first(seq![s@[i as int]], rest)) =~= prepend_first(cur@, rest));
        }
        i = i + 1;
    }
    assert(s@.skip(i as int) =~= Seq::<char>::empty());
    let piece = string_from_chars(cur.as_slice());
    let ghost old_pieces = pieces@;
    pieces.push(piece);
    assert(views(pieces@) =~= views(old_pieces).push(cur@));
    assert(prepend_first(cur@, seq![Seq::<char>::empty()]) =~= seq![cur@]);
    assert(views(old_pieces) + seq![cur@] =~= views(pieces@));
    pieces
}

/// The lines of `s`, as a reader hands them out one by one: the pieces
/// between line feeds, where a final line feed ends the last line and
/// starts none.
pub open spec fn lines_of(s: Seq<char>) -> Seq<Seq<char>> {
    if s.len() == 0 {
        Seq::empty()
    } else if s.last() == '\n' {
        split_on(s, '\n').drop_last()
    } else {
        split_on(s, '\n')
    }
}

/// The lines of `s`.
pub fn lines(s: &str) -> (res: Vec<String>)
    ensures
        views(res@) == lines_of(s@),
{
    let v = chars_of(s);
    if v.len() == 0 {
        let r: Vec<String> = Vec::new();
        assert(views(r@) =~= Seq::<Seq<char>>::empty());
        return r;
    }
    let mut pieces = split_on_char(&v, '\n');
    if v[v.len() - 1] == '\n' {
        proof { lemma_split_on_nonempty(v@, '\n'); }
        let ghost before = pieces@;
        pieces.pop();
        assert(views(pieces@) =~= views(before).drop_last());
    }
    pieces
}

/// The length of the run of characters at the start of `s` that are not
/// white space.
pub open spec fn word_len(s: Seq<char>) -> nat
    decreases s.len(),
{
    if s.len() > 0 && !is_whitespace(s[0]) {
        1 + word_len(s.drop_first())
    } else {
        0
    }
}

/// A word is no longer than the text, and not empty where the text
/// starts with a character that is not white space.
pub proof fn lemma_word_len(s: Seq<char>)
    ensures
        word_len(s) <= s.len(),
        s.len() > 0 && !is_whitespace(s[0]) ==> word_len(s) >= 1,
    decreases s.len(),
{
    if s.len() > 0 && !is_whitespace(s[0]) {
        lemma_word_len(s.drop_first());
    }
}

/// The words of `s`: the maximal runs of characters that are not white
/// space (`str::split_whitespace`).
pub open spec fn words(s: Seq<char>) -> Seq<Seq<char>>
    decreases s.len(),
{
    if s.len() == 0 {
        Seq::empty()
    } else if is_whitespace(s[0]) {
        words(s.drop_first())
    } else {
        proof { lemma_word_len(s); }
        seq![s.take(word_len(s) as int)] + words(s.skip(word_len(s) as int))
    }
}

proof fn lemma_word_len_exact(s: Seq<char>, k: int)
    requires
        0 <= k <= s.len(),
        forall|j: int| 0 <= j < k ==> !is_whitespace(#[trigger] s[j]),
        k == s.len() || is_whitespace(s[k]),
    ensures
        word_len(s) == k,
    decreases k,
{
    if k > 0 {
        assert forall|j: int| 0 <= j < k - 1 implies !is_whitespace(#[trigger] s.drop_first()[j]) by {
            assert(s.drop_first()[j] == s[j + 1]);
        }
        lemma_word_len_exact(s.drop_first(), k - 1);
    }
}

/// The words of `s` (`str::split_whitespace`).
pub fn split_whitespace(s: &Vec<char>) -> (res: Vec<String>)
    ensures
        views(res@) == words(s@),
{
    let mut out: Vec<String> = Vec::new();
    let mut i: usize = 0;
    assert(s@.skip(0) =~= s@);
    while i < s.len()
        invariant
            i <= s@.len(),
            words(s@) == views(out@) + words(s@.skip(i as int)),
        decreases s.len() - i,
    {
        let ghost t = s@.skip(i as int);
        if is_whitespace_char(s[i]) {
            assert(t.drop_first() =~= s@.skip(i + 1));
            i = i + 1;
        } else {
            let mut j: usize = i;
            let mut word: Vec<char> = Vec::new();
            while j < s.len() && !is_whitespace_char(s[j])
                invariant
                    i <= j <= s@.len(),
                    word@ == s@.subrange(i as int, j as int),
                    forall|k: int| i <= k < j ==> !is_whitespace(#[trigger] s@[k]),
                decreases s.len() - j,
            {
                word.push(s[j]);
                assert(word@ =~= s@.subrange(i as int, j + 1));
                j = j + 1;
            }
            proof {
                assert forall|k: int| 0 <= k < j - i implies !is_whitespace(#[trigger] t[k]) by {
                    assert(t[k] == s@[i + k]);
                }
                lemma_word_len_exact(t, j - i);
                assert(t.take(j - i) =~= word@);
                assert(t.skip(j - i) =~= s@.skip(j as int));
            }
            let w = string_from_chars(word.as_slice());
            let ghost before = out@;
            out.push(w);
            assert(views(out@) =~= views(before).push(word@));
            assert(views(before) + (seq![word@] + words(s@.skip(j as int))) =~= views(out@) + words(s@.skip(j as int)));
            i = j;
        }
    }
    assert(s@.skip(i as int) =~= Seq::<char>::empty());
    assert(views(out@) + Seq::<Seq<char>>::empty() =~= views(out@));
    out
}

} // verus!

verus! {

/// Whether `a` and `b` hold the same characters (`==` on `str`).
pub fn str_eq(a: &str, b: &str) -> (res: bool)
    ensures
        res == (a@ == b@),
{
    let x = chars_of(a);
    let y = chars_of(b);
    if x.len() != y.len() {
        return false;
    }
    let mut i: usize = 0;
    while i < x.len()
        invariant
            i <= x@.len(),
            x@ == a@,
            y@ == b@,
            x@.len() == y@.len(),
            forall|k: int| 0 <= k < i ==> x@[k] == y@[k],
        decreases x.len() - i,
    {
        if x[i] != y[i] {
            return false;
        }
        i = i + 1;
    }
    assert(x@ =~= y@);
    true
}

} // verus!

verus! {

/// Replacing a text by itself leaves every string as it is.
pub proof fn lemma_replace_by_itself(s: Seq<char>, needle: Seq<char>)
    ensures
        replace_all(s, needle, needle) == s,
    decreases s.len(),
{
    if needle.len() == 0 {
        if s.len() > 0 {
            lemma_replace_by_itself(s.drop_first(), needle);
            assert(needle + seq![s[0]] + s.drop_first() =~= s);
        }
    } else if occurs_at(s, needle, 0) {
        lemma_replace_by_itself(s.skip(needle.len() as int), needle);
        assert(s.subrange(0, needle.len() as int) + s.skip(needle.len() as int) =~= s);
    } else if s.len() > 0 {
        lemma_replace_by_itself(s.drop_first(), needle);
        assert(seq![s[0]] + s.drop_first() =~= s);
    }
}

/// A text that does not occur in `s` replaces nothing.
pub proof fn lemma_replace_absent(s: Seq<char>, needle: Seq<char>, with: Seq<char>)
    requires
        needle.len() > 0,
        forall|i: int| !occurs_at(s, needle, i),
    ensures
        replace_all(s, needle, with) == s,
    decreases s.len(),
{
    assert(!occurs_at(s, needle, 0));
    if s.len() > 0 {
        let t = s.drop_first();
        assert forall|i: int| !occurs_at(t, needle, i) by {
            if occurs_at(t, needle, i) {
                assert(s.subrange(i + 1, i + 1 + needle.len()) =~= t.subrange(i, i + needle.len()));
                assert(occurs_at(s, needle, i + 1));
            }
        }
        lemma_replace_absent(t, needle, with);
        assert(seq![s[0]] + t =~= s);
    }
}

proof fn lemma_decimal_digits(n: nat)
    ensures
        decimal(n).len() > 0,
        forall|i: int| 0 <= i < decimal(n).len() ==> is_digit(#[trigger] decimal(n)[i]),
    decreases n,
{
    if n >= 10 {
        lemma_decimal_digits(n / 10);
        let d = decimal(n / 10);
        let c = digit_char((n % 10) as int);
        assert forall|i: int| 0 <= i < decimal(n).len() implies is_digit(#[trigger] decimal(n)[i]) by {
            if i < d.len() {
                assert(decimal(n)[i] == d[i]);
            }
        }
    }
}

proof fn lemma_parse_decimal_digits(n: nat, max: int)
    requires
        n <= max,
    ensures
        parse_digits(decimal(n), true, 0, max) == Ok::<int, ParseIntError>(n as int),
    decreases n,
{
    let d = decimal(n);
    if n < 10 {
        let c = digit_char(n as int);
        assert(d.drop_last() =~= Seq::<char>::empty());
        assert(d.last() == c);
        assert(is_digit(c) && digit_value(c) == n);
        assert(parse_digits(d.drop_last(), true, 0, max) == Ok::<int, ParseIntError>(0));
        assert(0 * 10 + digit_value(c) == n);
    } else {
        let q = n / 10;
        let r = n % 10;
        lemma_parse_decimal_digits(q, max);
        let c = digit_char(r as int);
        assert(d == decimal(q).push(c));
        assert(d.drop_last() =~= decimal(q));
        assert(d.last() == c);
        assert(is_digit(c) && digit_value(c) == r);
        assert(q * 10 + r == n) by (nonlinear_arith)
            requires q == n / 10, r == n % 10;
        assert(parse_digits(d.drop_last(), true, 0, max) == Ok::<int, ParseIntError>(q as int));
    }
}

/// Reading the decimal notation of a number back gives the number: what
/// `u64_to_string` writes, `parse_u64` reads.
pub proof fn lemma_parse_decimal(n: nat)
    requires
        n <= u64::MAX,
    ensures
        parse_int(decimal(n), false, 0, u64::MAX as int) == Ok::<int, ParseIntError>(n as int),
{
    lemma_decimal_digits(n);
    lemma_parse_decimal_digits(n, u64::MAX as int);
    assert(is_digit(decimal(n)[0]));
}

} // verus!
