//! The used, free, available and total bytes of a mounted filesystem.
use vstd::prelude::*;

use crate::errors::{error_with, Error};
use crate::text::{chars_of, str_eq, string_from_chars};
use crate::units::{iec_of_char, si_of_char, unit_to_bytes, Unit};

verus! {

/// The prefixes in which byte counts are shown.
#[derive(Clone, Copy, Debug, Eq, PartialEq, Structural)]
pub enum PrefixType {
    /// IEC prefixes: powers of 1024.
    Binary,
    /// SI prefixes: powers of 1000.
    Decimal,
    Custom,
}

impl Default for PrefixType {
    fn default() -> (res: PrefixType)
        ensures
            res == PrefixType::Binary,
    {
        PrefixType::Binary
    }
}

/// What the low threshold is compared with.
#[derive(Clone, Copy, Debug, Eq, PartialEq, Structural)]
pub enum ThresholdType {
    BytesFree,
    BytesAvail,
    PercentageFree,
    PercentageAvail,
    /// Free bytes in the unit of the prefix letter.
    PrefixBytesFree(char),
    /// Available bytes in the unit of the prefix letter.
    PrefixBytesAvail(char),
}

impl Default for ThresholdType {
    fn default() -> (res: ThresholdType)
        ensures
            res == ThresholdType::PercentageAvail,
    {
        ThresholdType::PercentageAvail
    }
}

/// Whether `p` is one of the prefix letters `k`, `m`, `g` and `t`.
pub open spec fn is_prefix(p: char) -> bool {
    p == 'k' || p == 'm' || p == 'g' || p == 't'
}

/// Checks that `p` is a prefix letter: `"Invalid prefix"` where it is not.
pub fn valid_prefix(p: char) -> (res: Result<(), Error>)
    ensures
        is_prefix(p) ==> res is Ok,
        !is_prefix(p) ==> (res matches Err(e) && e@ == error_with("Invalid prefix"@)),
{
    if !(p == 'k' || p == 'm' || p == 'g' || p == 't') {
        Err(Error::new("Invalid prefix"))
    } else {
        Ok(())
    }
}

/// The threshold type that `value` names, if it names one.
pub open spec fn threshold_type_of(value: Seq<char>) -> Option<ThresholdType> {
    if value == "bytes_free"@ {
        Some(ThresholdType::BytesFree)
    } else if value == "bytes_avail"@ {
        Some(ThresholdType::BytesAvail)
    } else if value == "percentage_free"@ {
        Some(ThresholdType::PercentageFree)
    } else if value == "percentage_avail"@ {
        Some(ThresholdType::PercentageAvail)
    } else if value.len() > 0 && is_prefix(value[0]) && value.drop_first() == "bytes_free"@ {
        Some(ThresholdType::PrefixBytesFree(value[0]))
    } else if value.len() > 0 && is_prefix(value[0]) && value.drop_first() == "bytes_avail"@ {
        Some(ThresholdType::PrefixBytesAvail(value[0]))
    } else {
        None
    }
}

impl ThresholdType {
    /// Reads a threshold type: `bytes_free`, `bytes_avail`,
    /// `percentage_free`, `percentage_avail`, or one of the first two after
    /// a prefix letter (`gbytes_avail`). The errors: `"Empty string"`,
    /// `"Invalid prefix"` where the first letter is not a prefix, and
    /// `"Invalid threshold type: "` with the value otherwise.
    pub fn try_from_str(value: &str) -> (res: Result<ThresholdType, Error>)
        ensures
            match threshold_type_of(value@) {
                Some(t) => res == Ok::<ThresholdType, Error>(t),
                None => res matches Err(e) && e@ == (if value@.len() == 0 {
                    error_with("Empty string"@)
                } else if !is_prefix(value@[0]) {
                    error_with("Invalid prefix"@)
                } else {
                    error_with("Invalid threshold type: "@ + value@)
                }),
            },
    {
        proof {
            reveal_strlit("bytes_free");
            reveal_strlit("bytes_avail");
            reveal_strlit("percentage_free");
            reveal_strlit("percentage_avail");
        }
        if str_eq(value, "bytes_free") {
            return Ok(ThresholdType::BytesFree);
        }
        if str_eq(value, "bytes_avail") {
            return Ok(ThresholdType::BytesAvail);
        }
        if str_eq(value, "percentage_free") {
            return Ok(ThresholdType::PercentageFree);
        }
        if str_eq(value, "percentage_avail") {
            return Ok(ThresholdType::PercentageAvail);
        }
        let v = chars_of(value);
        if v.len() == 0 {
            return Err(Error::new("Empty string"));
        }
        let unit = v[0];
        valid_prefix(unit)?;
        let mut rest: Vec<char> = Vec::new();
        let mut i: usize = 1;
        while i < v.len()
            invariant
                1 <= i <= v@.len(),
                rest@ == v@.subrange(1, i as int),
            decreases v.len() - i,
        {
            rest.push(v[i]);
            assert(rest@ =~= v@.subrange(1, i + 1));
            i = i + 1;
        }
        assert(rest@ =~= value@.drop_first());
        let ttype = string_from_chars(rest.as_slice());
        if str_eq(ttype.as_str(), "bytes_free") {
            Ok(ThresholdType::PrefixBytesFree(unit))
        } else if str_eq(ttype.as_str(), "bytes_avail") {
            Ok(ThresholdType::PrefixBytesAvail(unit))
        } else {
            let mut msg = String::from_str("Invalid threshold type: ");
            msg.append(value);
            proof { reveal_strlit("Invalid threshold type: "); }
            Err(Error::new(msg.as_str()))
        }
    }
}

/// The unit of the prefix letter `c` in the prefixes of `ptype`: IEC for
/// binary prefixes, SI otherwise.
pub open spec fn prefix_unit(ptype: PrefixType, c: char) -> Option<Unit> {
    match ptype {
        PrefixType::Binary => match iec_of_char(c) {
            Some(s) => Some(Unit::Iec(s)),
            None => None,
        },
        _ => match si_of_char(c) {
            Some(s) => Some(Unit::Si(s)),
            None => None,
        },
    }
}

/// Whether `value` times `free` is below `low_threshold` units of the
/// prefix letter `c`, which must name a unit; the products must fit.
pub fn prefixed_below_threshold(ptype: PrefixType, value: u64, free: u64, low_threshold: u64, c: char) -> (res: bool)
    requires
        prefix_unit(ptype, c) is Some,
        low_threshold * prefix_unit(ptype, c)->0.multiplier() <= u64::MAX,
        value * free <= u64::MAX,
    ensures
        res == (value * free < low_threshold * prefix_unit(ptype, c)->0.multiplier()),
{
    let unit = match ptype {
        PrefixType::Binary => Unit::iec_from_char(c),
        _ => Unit::si_from_char(c),
    };
    let bytes = unit_to_bytes(low_threshold, unit);
    value * free < bytes
}

/// The sizes in bytes of a filesystem of `blocks` blocks of `unit_size`
/// bytes, of which `blocks_free` are free and `blocks_available` available:
/// free, used, total and available bytes.
pub fn disk_sizes(unit_size: u64, blocks: u64, blocks_free: u64, blocks_available: u64) -> (res: (u64, u64, u64, u64))
    requires
        blocks_free <= blocks,
        unit_size * blocks <= u64::MAX,
        unit_size * blocks_available <= u64::MAX,
    ensures
        res.0 == unit_size * blocks_free,
        res.1 == unit_size * (blocks - blocks_free),
        res.2 == unit_size * blocks,
        res.3 == unit_size * blocks_available,
        res.0 + res.1 == res.2,
{
    proof {
        assert(unit_size * blocks_free + unit_size * (blocks - blocks_free) == unit_size * blocks) by (nonlinear_arith)
            requires blocks_free <= blocks;
        assert(unit_size * blocks_free <= unit_size * blocks) by (nonlinear_arith)
            requires blocks_free <= blocks;
        assert(unit_size * (blocks - blocks_free) <= unit_size * blocks) by (nonlinear_arith)
            requires blocks_free <= blocks;
    }
    (unit_size * blocks_free, unit_size * (blocks - blocks_free), unit_size * blocks, unit_size * blocks_available)
}

} // verus!
