//! Byte units: IEC symbols (powers of 1024) and SI symbols (powers of 1000).
use vstd::prelude::*;

use crate::errors::{error_with, Error};

verus! {

/// The highest exponent that a symbol stands for.
pub const MAX_EXPONENT: usize = 4;

/// `base` to the power `e`.
pub open spec fn power(base: nat, e: nat) -> nat
    decreases e,
{
    if e == 0 {
        1
    } else {
        base * power(base, (e - 1) as nat)
    }
}

/// A power of a positive base is positive.
pub proof fn lemma_power_positive(base: nat, e: nat)
    requires
        base >= 1,
    ensures
        power(base, e) >= 1,
    decreases e,
{
    if e > 0 {
        lemma_power_positive(base, (e - 1) as nat);
        assert(base * power(base, (e - 1) as nat) >= power(base, (e - 1) as nat)) by (nonlinear_arith)
            requires base >= 1, power(base, (e - 1) as nat) >= 1;
    }
}

/// Powers of a positive base grow with the exponent.
pub proof fn lemma_power_monotonic(base: nat, e1: nat, e2: nat)
    requires
        base >= 1,
        e1 <= e2,
    ensures
        power(base, e1) <= power(base, e2),
    decreases e2,
{
    if e2 > e1 {
        lemma_power_monotonic(base, e1, (e2 - 1) as nat);
        lemma_power_positive(base, (e2 - 1) as nat);
        assert(base * power(base, (e2 - 1) as nat) >= power(base, (e2 - 1) as nat)) by (nonlinear_arith)
            requires base >= 1, power(base, (e2 - 1) as nat) >= 1;
    }
}

/// A binary (IEC) symbol for a number of bytes.
#[derive(Clone, Copy, Debug, Eq, PartialEq, Structural)]
pub enum IecSymbol {
    B,
    KiB,
    MiB,
    GiB,
    TiB,
}

/// A decimal (SI) symbol for a number of bytes.
#[derive(Clone, Copy, Debug, Eq, PartialEq, Structural)]
pub enum SiSymbol {
    B,
    K,
    M,
    G,
    T,
}

/// A unit for byte counts: a symbol of one of the two systems.
#[derive(Clone, Copy, Debug, Eq, PartialEq, Structural)]
pub enum Unit {
    Iec(IecSymbol),
    Si(SiSymbol),
}

impl IecSymbol {
    /// The power of 1024 that the symbol stands for.
    pub open spec fn exponent(self) -> nat {
        match self {
            IecSymbol::B => 0,
            IecSymbol::KiB => 1,
            IecSymbol::MiB => 2,
            IecSymbol::GiB => 3,
            IecSymbol::TiB => 4,
        }
    }

    /// How the symbol is written.
    pub open spec fn name(self) -> Seq<char> {
        match self {
            IecSymbol::B => "B"@,
            IecSymbol::KiB => "KiB"@,
            IecSymbol::MiB => "MiB"@,
            IecSymbol::GiB => "GiB"@,
            IecSymbol::TiB => "TiB"@,
        }
    }

    /// How the symbol is written.
    pub fn to_string(&self) -> (res: String)
        ensures
            res@ == self.name(),
    {
        proof {
            reveal_strlit("B");
            reveal_strlit("KiB");
            reveal_strlit("MiB");
            reveal_strlit("GiB");
            reveal_strlit("TiB");
        }
        match self {
            IecSymbol::B => String::from_str("B"),
            IecSymbol::KiB => String::from_str("KiB"),
            IecSymbol::MiB => String::from_str("MiB"),
            IecSymbol::GiB => String::from_str("GiB"),
            IecSymbol::TiB => String::from_str("TiB"),
        }
    }
}

impl SiSymbol {
    /// The power of 1000 that the symbol stands for.
    pub open spec fn exponent(self) -> nat {
        match self {
            SiSymbol::B => 0,
            SiSymbol::K => 1,
            SiSymbol::M => 2,
            SiSymbol::G => 3,
            SiSymbol::T => 4,
        }
    }

    /// How the symbol is written.
    pub open spec fn name(self) -> Seq<char> {
        match self {
            SiSymbol::B => "B"@,
            SiSymbol::K => "K"@,
            SiSymbol::M => "M"@,
            SiSymbol::G => "G"@,
            SiSymbol::T => "T"@,
        }
    }

    /// How the symbol is written.
    pub fn to_string(&self) -> (res: String)
        ensures
            res@ == self.name(),
    {
        proof {
            reveal_strlit("B");
            reveal_strlit("K");
            reveal_strlit("M");
            reveal_strlit("G");
            reveal_strlit("T");
        }
        match self {
            SiSymbol::B => String::from_str("B"),
            SiSymbol::K => String::from_str("K"),
            SiSymbol::M => String::from_str("M"),
            SiSymbol::G => String::from_str("G"),
            SiSymbol::T => String::from_str("T"),
        }
    }
}

impl Default for IecSymbol {
    fn default() -> (res: Self)
        ensures
            res == IecSymbol::GiB,
    {
        IecSymbol::GiB
    }
}

impl Default for SiSymbol {
    fn default() -> (res: Self)
        ensures
            res == SiSymbol::G,
    {
        SiSymbol::G
    }
}

/// The IEC symbol for the power `e` of 1024, for `e` up to 4.
pub open spec fn iec_of_exponent(e: int) -> Option<IecSymbol> {
    if e == 0 {
        Some(IecSymbol::B)
    } else if e == 1 {
        Some(IecSymbol::KiB)
    } else if e == 2 {
        Some(IecSymbol::MiB)
    } else if e == 3 {
        Some(IecSymbol::GiB)
    } else if e == 4 {
        Some(IecSymbol::TiB)
    } else {
        None
    }
}

/// The SI symbol for the power `e` of 1000, for `e` up to 4.
pub open spec fn si_of_exponent(e: int) -> Option<SiSymbol> {
    if e == 0 {
        Some(SiSymbol::B)
    } else if e == 1 {
        Some(SiSymbol::K)
    } else if e == 2 {
        Some(SiSymbol::M)
    } else if e == 3 {
        Some(SiSymbol::G)
    } else if e == 4 {
        Some(SiSymbol::T)
    } else {
        None
    }
}

/// The IEC symbol that the letter `c` stands for, in either case.
pub open spec fn iec_of_char(c: char) -> Option<IecSymbol> {
    if c == 'b' || c == 'B' {
        Some(IecSymbol::B)
    } else if c == 'k' || c == 'K' {
        Some(IecSymbol::KiB)
    } else if c == 'm' || c == 'M' {
        Some(IecSymbol::MiB)
    } else if c == 'g' || c == 'G' {
        Some(IecSymbol::GiB)
    } else if c == 't' || c == 'T' {
        Some(IecSymbol::TiB)
    } else {
        None
    }
}

/// The SI symbol that the letter `c` stands for, in either case.
pub open spec fn si_of_char(c: char) -> Option<SiSymbol> {
    if c == 'b' || c == 'B' {
        Some(SiSymbol::B)
    } else if c == 'k' || c == 'K' {
        Some(SiSymbol::K)
    } else if c == 'm' || c == 'M' {
        Some(SiSymbol::M)
    } else if c == 'g' || c == 'G' {
        Some(SiSymbol::G)
    } else if c == 't' || c == 'T' {
        Some(SiSymbol::T)
    } else {
        None
    }
}

impl IecSymbol {
    /// The symbol for the power `value` of 1024; `"Invalid IEC symbol"`
    /// beyond the fourth.
    pub fn try_from_exponent(value: usize) -> (res: Result<Self, Error>)
        ensures
            match iec_of_exponent(value as int) {
                Some(s) => res == Ok::<IecSymbol, Error>(s),
                None => res matches Err(e) && e@ == error_with("Invalid IEC symbol"@),
            },
    {
        match value {
            0 => Ok(Self::B),
            1 => Ok(Self::KiB),
            2 => Ok(Self::MiB),
            3 => Ok(Self::GiB),
            4 => Ok(Self::TiB),
            _ => Err(Error::new("Invalid IEC symbol")),
        }
    }
}

impl IecSymbol {
    /// The symbol that the letter `value` stands for, in either case;
    /// `"Unknown IEC symbol"` for any other character.
    pub fn try_from_char(value: char) -> (res: Result<Self, Error>)
        ensures
            match iec_of_char(value) {
                Some(s) => res == Ok::<IecSymbol, Error>(s),
                None => res matches Err(e) && e@ == error_with("Unknown IEC symbol"@),
            },
    {
        match value {
            'b' | 'B' => Ok(Self::B),
            'k' | 'K' => Ok(Self::KiB),
            'm' | 'M' => Ok(Self::MiB),
            'g' | 'G' => Ok(Self::GiB),
            't' | 'T' => Ok(Self::TiB),
            _ => Err(Error::new("Unknown IEC symbol")),
        }
    }
}

impl IecSymbol {
    /// The symbol of the first letter of `value`, which must not be empty.
    pub fn try_from_str(value: &str) -> (res: Result<Self, Error>)
        requires
            value@.len() > 0,
        ensures
            match iec_of_char(value@[0]) {
                Some(s) => res == Ok::<IecSymbol, Error>(s),
                None => res matches Err(e) && e@ == error_with("Unknown IEC symbol"@),
            },
    {
        IecSymbol::try_from_char(value.get_char(0))
    }
}

impl SiSymbol {
    /// The symbol for the power `value` of 1000; `"Invalid SI symbol"`
    /// beyond the fourth.
    pub fn try_from_exponent(value: usize) -> (res: Result<Self, Error>)
        ensures
            match si_of_exponent(value as int) {
                Some(s) => res == Ok::<SiSymbol, Error>(s),
                None => res matches Err(e) && e@ == error_with("Invalid SI symbol"@),
            },
    {
        match value {
            0 => Ok(Self::B),
            1 => Ok(Self::K),
            2 => Ok(Self::M),
            3 => Ok(Self::G),
            4 => Ok(Self::T),
            _ => Err(Error::new("Invalid SI symbol")),
        }
    }
}

impl SiSymbol {
    /// The symbol that the letter `value` stands for, in either case;
    /// `"Unknown SI symbol"` for any other character.
    pub fn try_from_char(value: char) -> (res: Result<Self, Error>)
        ensures
            match si_of_char(value) {
                Some(s) => res == Ok::<SiSymbol, Error>(s),
                None => res matches Err(e) && e@ == error_with("Unknown SI symbol"@),
            },
    {
        match value {
            'b' | 'B' => Ok(Self::B),
            'k' | 'K' => Ok(Self::K),
            'm' | 'M' => Ok(Self::M),
            'g' | 'G' => Ok(Self::G),
            't' | 'T' => Ok(Self::T),
            _ => Err(Error::new("Unknown SI symbol")),
        }
    }
}

impl SiSymbol {
    /// The symbol of the first letter of `value`, which must not be empty.
    pub fn try_from_str(value: &str) -> (res: Result<Self, Error>)
        requires
            value@.len() > 0,
        ensures
            match si_of_char(value@[0]) {
                Some(s) => res == Ok::<SiSymbol, Error>(s),
                None => res matches Err(e) && e@ == error_with("Unknown SI symbol"@),
            },
    {
        SiSymbol::try_from_char(value.get_char(0))
    }
}

impl Unit {
    /// The power of the base that the unit stands for.
    pub open spec fn exponent(self) -> nat {
        match self {
            Unit::Iec(s) => s.exponent(),
            Unit::Si(s) => s.exponent(),
        }
    }

    /// 1024 for IEC units, 1000 for SI units.
    pub open spec fn base(self) -> nat {
        match self {
            Unit::Iec(_) => 1024,
            Unit::Si(_) => 1000,
        }
    }

    /// The number of bytes in one of the unit.
    pub open spec fn multiplier(self) -> nat {
        power(self.base(), self.exponent())
    }

    /// How the unit is written.
    pub open spec fn name(self) -> Seq<char> {
        match self {
            Unit::Iec(s) => s.name(),
            Unit::Si(s) => s.name(),
        }
    }

    /// Whether two units belong to the same system.
    pub open spec fn same_system(self, other: Unit) -> bool {
        (self is Iec) == (other is Iec)
    }

    /// The IEC unit of the first letter of `value`, which must name one.
    pub fn iec_from_str(value: &str) -> (res: Unit)
        requires
            value@.len() > 0,
            iec_of_char(value@[0]) is Some,
        ensures
            res == Unit::Iec(iec_of_char(value@[0])->0),
    {
        match IecSymbol::try_from_str(value) {
            Ok(s) => Unit::Iec(s),
            Err(_) => Unit::Iec(IecSymbol::B),
        }
    }

    /// The IEC unit of the letter `c`, which must name one.
    pub fn iec_from_char(c: char) -> (res: Unit)
        requires
            iec_of_char(c) is Some,
        ensures
            res == Unit::Iec(iec_of_char(c)->0),
    {
        match IecSymbol::try_from_char(c) {
            Ok(s) => Unit::Iec(s),
            Err(_) => Unit::Iec(IecSymbol::B),
        }
    }

    /// The SI unit of the first letter of `value`, which must name one.
    pub fn si_from_str(value: &str) -> (res: Unit)
        requires
            value@.len() > 0,
            si_of_char(value@[0]) is Some,
        ensures
            res == Unit::Si(si_of_char(value@[0])->0),
    {
        match SiSymbol::try_from_str(value) {
            Ok(s) => Unit::Si(s),
            Err(_) => Unit::Si(SiSymbol::B),
        }
    }

    /// The SI unit of the letter `c`, which must name one.
    pub fn si_from_char(c: char) -> (res: Unit)
        requires
            si_of_char(c) is Some,
        ensures
            res == Unit::Si(si_of_char(c)->0),
    {
        match SiSymbol::try_from_char(c) {
            Ok(s) => Unit::Si(s),
            Err(_) => Unit::Si(SiSymbol::B),
        }
    }

    /// How the unit is written.
    pub fn to_string(&self) -> (res: String)
        ensures
            res@ == self.name(),
    {
        match self {
            Unit::Iec(s) => s.to_string(),
            Unit::Si(s) => s.to_string(),
        }
    }

    /// The number of bytes in one of the unit.
    pub fn bytes_per_unit(&self) -> (res: u64)
        ensures
            res == self.multiplier(),
    {
        proof {
            lemma_small_powers(self.base());
            lemma_power_monotonic(self.base(), self.exponent(), 5);
        }
        unit_to_bytes(1, *self)
    }

    /// The power of the base that the unit stands for.
    pub fn exponent_of(&self) -> (res: u32)
        ensures
            res == self.exponent(),
    {
        match self {
            Unit::Iec(IecSymbol::B) | Unit::Si(SiSymbol::B) => 0,
            Unit::Iec(IecSymbol::KiB) | Unit::Si(SiSymbol::K) => 1,
            Unit::Iec(IecSymbol::MiB) | Unit::Si(SiSymbol::M) => 2,
            Unit::Iec(IecSymbol::GiB) | Unit::Si(SiSymbol::G) => 3,
            Unit::Iec(IecSymbol::TiB) | Unit::Si(SiSymbol::T) => 4,
        }
    }
}

impl From<Unit> for u32 {
    fn from(value: Unit) -> (res: u32) {
        value.exponent_of()
    }
}

impl vstd::std_specs::convert::FromSpecImpl<Unit> for u32 {
    open spec fn obeys_from_spec() -> bool {
        true
    }

    open spec fn from_spec(v: Unit) -> u32 {
        v.exponent() as u32
    }
}

impl From<IecSymbol> for u32 {
    fn from(value: IecSymbol) -> (res: u32) {
        Unit::Iec(value).exponent_of()
    }
}

impl vstd::std_specs::convert::FromSpecImpl<IecSymbol> for u32 {
    open spec fn obeys_from_spec() -> bool {
        true
    }

    open spec fn from_spec(v: IecSymbol) -> u32 {
        v.exponent() as u32
    }
}

impl From<SiSymbol> for u32 {
    fn from(value: SiSymbol) -> (res: u32) {
        Unit::Si(value).exponent_of()
    }
}

impl vstd::std_specs::convert::FromSpecImpl<SiSymbol> for u32 {
    open spec fn obeys_from_spec() -> bool {
        true
    }

    open spec fn from_spec(v: SiSymbol) -> u32 {
        v.exponent() as u32
    }
}

/// The unit of `target`'s system that `bytes` is scaled to: the highest
/// power of the base up to `target`'s that does not exceed `bytes` (the
/// power 0 where `bytes` is below the base).
pub open spec fn scaled_exponent(bytes: nat, target: Unit, e: nat) -> bool {
    &&& e <= target.exponent()
    &&& (e == 0 || power(target.base(), e) <= bytes)
    &&& (e == target.exponent() || bytes < power(target.base(), e + 1))
}

/// The unit of `target`'s system in which `bytes` is shown: the base is
/// divided out of `bytes` while the result stays at or above the base, at
/// most up to `target`'s symbol. The scaled amount is `bytes` divided by
/// the unit's multiplier.
pub fn bytes_to_unit(bytes: u64, target: Unit) -> (res: Unit)
    ensures
        res.same_system(target),
        scaled_exponent(bytes as nat, target, res.exponent()),
{
    let base: u64 = match target {
        Unit::Iec(_) => 1024,
        Unit::Si(_) => 1000,
    };
    let target_exponent = target.exponent_of();
    let mut exponent: u32 = 0;
    // base^(exponent + 1)
    let mut next: u64 = base;
    proof {
        assert(power(base as nat, 1) == base * power(base as nat, 0));
    }
    while (exponent as usize) < MAX_EXPONENT && exponent != target_exponent && bytes >= next
        invariant
            base == target.base(),
            target_exponent == target.exponent(),
            exponent <= target_exponent,
            exponent == 0 || power(base as nat, exponent as nat) <= bytes,
            next == power(base as nat, (exponent + 1) as nat),
            exponent <= 4,
        decreases 4 - exponent,
    {
        proof {
            assert(power(base as nat, (exponent + 2) as nat) == base * power(base as nat, (exponent + 1) as nat));
            lemma_small_powers(base as nat);
            lemma_power_monotonic(base as nat, (exponent + 2) as nat, 5);
        }
        exponent = exponent + 1;
        next = base * next;
    }
    match target {
        Unit::Iec(_) => Unit::Iec(
            match exponent {
                0 => IecSymbol::B,
                1 => IecSymbol::KiB,
                2 => IecSymbol::MiB,
                3 => IecSymbol::GiB,
                _ => IecSymbol::TiB,
            },
        ),
        Unit::Si(_) => Unit::Si(
            match exponent {
                0 => SiSymbol::B,
                1 => SiSymbol::K,
                2 => SiSymbol::M,
                3 => SiSymbol::G,
                _ => SiSymbol::T,
            },
        ),
    }
}

/// The fifth power of either base fits well within a `u64`.
pub proof fn lemma_small_powers(base: nat)
    requires
        base == 1024 || base == 1000,
    ensures
        power(base, 5) <= 1125899906842624,
{
    reveal_with_fuel(power, 6);
    assert(power(base, 5) == base * (base * (base * (base * (base * 1)))));
    assert(base * (base * (base * (base * (base * 1)))) <= 1125899906842624) by (nonlinear_arith)
        requires base <= 1024;
}

/// `amount` units of `unit`, in bytes.
pub fn unit_to_bytes(amount: u64, unit: Unit) -> (res: u64)
    requires
        amount * unit.multiplier() <= u64::MAX,
    ensures
        res == amount * unit.multiplier(),
{
    let base: u64 = match unit {
        Unit::Iec(_) => 1024,
        Unit::Si(_) => 1000,
    };
    let e = unit.exponent_of();
    let mut m: u64 = 1;
    let mut i: u32 = 0;
    proof { lemma_small_powers(base as nat); }
    while i < e
        invariant
            base == unit.base(),
            e == unit.exponent(),
            e <= 4,
            i <= e,
            m == power(base as nat, i as nat),
        decreases e - i,
    {
        proof {
            lemma_small_powers(base as nat);
            lemma_power_monotonic(base as nat, (i + 1) as nat, 5);
            assert(power(base as nat, (i + 1) as nat) == base * power(base as nat, i as nat));
        }
        m = base * m;
        i = i + 1;
    }
    amount * m
}

} // verus!

verus! {

/// A symbol's exponent gives the symbol back, and every exponent up to 4
/// gives a symbol with that exponent.
pub proof fn lemma_exponent_round_trip(iec: IecSymbol, si: SiSymbol, e: int)
    ensures
        iec_of_exponent(iec.exponent() as int) == Some(iec),
        si_of_exponent(si.exponent() as int) == Some(si),
        0 <= e <= 4 ==> iec_of_exponent(e)->0.exponent() == e && si_of_exponent(e)->0.exponent() == e,
        (e < 0 || e > 4) ==> iec_of_exponent(e) is None && si_of_exponent(e) is None,
{
}

/// The first letter of a symbol's name reads back as the symbol.
pub proof fn lemma_name_round_trip(iec: IecSymbol, si: SiSymbol)
    ensures
        iec_of_char(iec.name()[0]) == Some(iec),
        si_of_char(si.name()[0]) == Some(si),
{
    reveal_strlit("B");
    reveal_strlit("KiB");
    reveal_strlit("MiB");
    reveal_strlit("GiB");
    reveal_strlit("TiB");
    reveal_strlit("K");
    reveal_strlit("M");
    reveal_strlit("G");
    reveal_strlit("T");
}

/// The unit in which a byte count is shown is determined by the count and
/// the target.
pub proof fn lemma_scaled_exponent_unique(bytes: nat, target: Unit, e1: nat, e2: nat)
    requires
        scaled_exponent(bytes, target, e1),
        scaled_exponent(bytes, target, e2),
    ensures
        e1 == e2,
{
    if e1 < e2 {
        lemma_power_monotonic(target.base(), e1 + 1, e2);
    } else if e2 < e1 {
        lemma_power_monotonic(target.base(), e2 + 1, e1);
    }
}

/// More bytes are never shown in a smaller unit.
pub proof fn lemma_scaled_exponent_monotonic(b1: nat, b2: nat, target: Unit, e1: nat, e2: nat)
    requires
        b1 <= b2,
        scaled_exponent(b1, target, e1),
        scaled_exponent(b2, target, e2),
    ensures
        e1 <= e2,
{
    if e1 > e2 {
        lemma_power_monotonic(target.base(), e2 + 1, e1);
    }
}

/// One whole unit, in bytes, is shown in that very unit.
pub proof fn lemma_whole_unit_scales_to_itself(unit: Unit)
    ensures
        scaled_exponent(unit.multiplier(), unit, unit.exponent()),
{
}

} // verus!
