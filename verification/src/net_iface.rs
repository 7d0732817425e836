//! What is read from the kernel's replies about network interfaces: the
//! traffic counters of a link and the SSID among the information elements
//! of a BSS.
use vstd::prelude::*;
use vstd::endian::{endianness, Endian};
use vstd::utf8::{decode_utf8, valid_utf8};

use crate::errors::{error_with, Error};
use crate::text::{decimal, u64_to_string};

verus! {

/// The traffic of a link, in bytes.
#[derive(Clone, Copy, Debug, Default, Eq, PartialEq, Structural)]
pub struct RtnlLinkStats {
    pub rx_bytes: u64,
    pub tx_bytes: u64,
}

/// The number that the bytes `b` encode, least significant first.
pub open spec fn le_value(b: Seq<u8>) -> nat
    decreases b.len(),
{
    if b.len() == 0 {
        0
    } else {
        (b[0] + 256 * le_value(b.drop_first())) as nat
    }
}

/// The number that the bytes `b` encode, most significant first.
pub open spec fn be_value(b: Seq<u8>) -> nat
    decreases b.len(),
{
    if b.len() == 0 {
        0
    } else {
        (b.last() + 256 * be_value(b.drop_last())) as nat
    }
}

/// The `u64` that the eight bytes `b` encode in the machine's byte order.
pub open spec fn native_u64(b: Seq<u8>) -> nat {
    match endianness() {
        Endian::Little => le_value(b),
        Endian::Big => be_value(b),
    }
}

/// The eight bytes of `bytes` from `offset`.
fn eight_bytes(bytes: &[u8], offset: usize) -> (res: [u8; 8])
    requires
        offset + 8 <= bytes@.len(),
    ensures
        res@ == bytes@.subrange(offset as int, offset + 8),
{
    let res = [
        bytes[offset],
        bytes[offset + 1],
        bytes[offset + 2],
        bytes[offset + 3],
        bytes[offset + 4],
        bytes[offset + 5],
        bytes[offset + 6],
        bytes[offset + 7],
    ];
    assert(res@ =~= bytes@.subrange(offset as int, offset + 8));
    res
}

/// The `u64` of the eight bytes `b` with `u64::from_ne_bytes`, which takes
/// them in the machine's byte order.
#[verifier::external_body]
fn u64_from_ne_bytes(b: [u8; 8]) -> (res: u64)
    ensures
        res == native_u64(b@),
{
    u64::from_ne_bytes(b)
}

/// The `Debug` text of a byte slice: the numbers between brackets, with a
/// comma and a space between them.
pub open spec fn bytes_debug(b: Seq<u8>) -> Seq<char> {
    "["@ + bytes_list(b) + "]"@
}

/// The numbers of `b` with a comma and a space between them.
pub open spec fn bytes_list(b: Seq<u8>) -> Seq<char>
    decreases b.len(),
{
    if b.len() == 0 {
        Seq::empty()
    } else if b.len() == 1 {
        decimal(b[0] as nat)
    } else {
        bytes_list(b.drop_last()) + ", "@ + decimal(b.last() as nat)
    }
}

fn debug_bytes(b: &[u8]) -> (res: String)
    ensures
        res@ == bytes_debug(b@),
{
    proof {
        reveal_strlit("[");
        reveal_strlit("]");
        reveal_strlit(", ");
    }
    let mut res = String::from_str("[");
    let mut i: usize = 0;
    while i < b.len()
        invariant
            i <= b@.len(),
            res@ == "["@ + bytes_list(b@.take(i as int)),
        decreases b.len() - i,
    {
        assert(b@.take(i + 1).drop_last() =~= b@.take(i as int));
        if i > 0 {
            res.append(", ");
        }
        let d = u64_to_string(b[i] as u64);
        res.append(d.as_str());
        i = i + 1;
    }
    assert(b@.take(i as int) =~= b@);
    res.append("]");
    res
}

impl RtnlLinkStats {
    /// Reads the received and transmitted bytes out of a
    /// `rtnl_link_stats64`: the third and the fourth of its 64-bit counters,
    /// in the machine's byte order. Fewer than 32 bytes are an error.
    pub fn from_rtnl_link_stats64(stats: &[u8]) -> (res: Result<RtnlLinkStats, Error>)
        ensures
            stats@.len() < 32 ==> (res matches Err(e) && e@ == error_with(
                "Bad contents for interface stats: "@ + bytes_debug(stats@),
            )),
            stats@.len() >= 32 ==> (res matches Ok(s) && s.rx_bytes == native_u64(stats@.subrange(16, 24))
                && s.tx_bytes == native_u64(stats@.subrange(24, 32))),
    {
        if stats.len() < 32 {
            let mut msg = String::from_str("Bad contents for interface stats: ");
            proof { reveal_strlit("Bad contents for interface stats: "); }
            let d = debug_bytes(stats);
            msg.append(d.as_str());
            return Err(Error::new(msg.as_str()));
        }
        Ok(RtnlLinkStats {
            rx_bytes: u64_from_ne_bytes(eight_bytes(stats, 16)),
            tx_bytes: u64_from_ne_bytes(eight_bytes(stats, 24)),
        })
    }
}

/// Where the search for the SSID element stops: skipping elements, each
/// of a type byte, a length byte and that many bytes, while more than two
/// bytes are left and the next element is not the SSID (type 0). `None`
/// where an element claims more bytes than are left (the search panics).
pub open spec fn ssid_element_start(ies: Seq<u8>, p: nat) -> Option<nat>
    decreases ies.len() - p,
{
    if p < ies.len() && ies.len() - p > 2 && ies[p as int] != 0 {
        let q = (p + ies[p + 1int] + 2) as nat;
        if q > ies.len() {
            None
        } else {
            ssid_element_start(ies, q)
        }
    } else {
        Some(p)
    }
}

/// Whether no element before the SSID claims more bytes than are left.
pub fn ssid_search_fits(ies: &[u8]) -> (res: bool)
    ensures
        res == ssid_element_start(ies@, 0) is Some,
{
    let mut p: usize = 0;
    while p < ies.len() && ies.len() - p > 2 && ies[p] != 0
        invariant
            p <= ies@.len(),
            ssid_element_start(ies@, p as nat) == ssid_element_start(ies@, 0),
        decreases ies.len() - p,
    {
        let step = ies[p + 1] as usize + 2;
        if step > ies.len() - p {
            return false;
        }
        p = p + step;
    }
    true
}

/// The text that `String::from_utf8_lossy` makes of `bytes`.
pub uninterp spec fn utf8_lossy(bytes: Seq<u8>) -> Seq<char>;

/// Decodes `bytes` with `String::from_utf8_lossy`, which replaces what is
/// not UTF-8; the claims are that the result depends on the bytes alone and
/// that valid UTF-8 is decoded as it is (as std documents).
#[verifier::external_body]
fn string_from_utf8_lossy(bytes: &[u8]) -> (res: String)
    ensures
        res@ == utf8_lossy(bytes@),
        valid_utf8(bytes@) ==> res@ == decode_utf8(bytes@),
{
    String::from_utf8_lossy(bytes).into_owned()
}

/// The SSID element's bytes, where the elements hold one that is whole.
pub open spec fn ssid_bytes(ies: Seq<u8>) -> Option<Seq<u8>> {
    match ssid_element_start(ies, 0) {
        Some(p) => {
            let rest = ies.skip(p as int);
            if rest.len() < 2 || rest.len() < rest[1] + 2 {
                None
            } else {
                Some(rest.subrange(2, 2 + rest[1]))
            }
        },
        None => None,
    }
}

/// The SSID among the information elements `ies` of a BSS, decoded
/// leniently, where there is one; the elements must not claim more bytes
/// than there are.
pub fn find_ssid(ies: &[u8]) -> (res: Option<String>)
    requires
        ssid_element_start(ies@, 0) is Some,
    ensures
        match ssid_bytes(ies@) {
            Some(b) => res matches Some(s) && s@ == utf8_lossy(b) && (valid_utf8(b) ==> s@ == decode_utf8(b)),
            None => res is None,
        },
{
    let mut p: usize = 0;
    while p < ies.len() && ies.len() - p > 2 && ies[p] != 0
        invariant
            p <= ies@.len(),
            ssid_element_start(ies@, p as nat) == ssid_element_start(ies@, 0),
            ssid_element_start(ies@, 0) is Some,
        decreases ies.len() - p,
    {
        p = p + ies[p + 1] as usize + 2;
    }
    let n = ies.len() - p;
    if n < 2 || n < ies[p + 1] as usize + 2 {
        return None;
    }
    let len = ies[p + 1] as usize;
    let mut ssid: Vec<u8> = Vec::new();
    let mut i: usize = 0;
    while i < len
        invariant
            i <= len,
            p + 2 + len <= ies.len(),
            ssid@ == ies@.subrange(p + 2, p + 2 + i),
        decreases len - i,
    {
        ssid.push(ies[p + 2 + i]);
        assert(ssid@ =~= ies@.subrange(p + 2, p + 2 + i + 1));
        i = i + 1;
    }
    assert(ssid@ =~= ies@.skip(p as int).subrange(2, 2 + len));
    Some(string_from_utf8_lossy(ssid.as_slice()))
}

/// Whether a link whose operational state (`IFLA_OPERSTATE`) is `state` is
/// up: the state `IF_OPER_UP`, 6.
pub fn link_is_up(state: u8) -> (res: bool)
    ensures
        res == (state == 6),
{
    state == 6
}

/// The bytes of an optional byte slice.
pub open spec fn opt_bytes(o: Option<&[u8]>) -> Option<Seq<u8>> {
    match o {
        Some(b) => Some(b@),
        None => None,
    }
}

/// The address that one reply about an interface's addresses gives, of
/// `len` bytes: none where its scope is not the universe (0); else its
/// local address where it has one, else its address, where that has
/// `len` bytes.
pub open spec fn reply_address_of(scope: u8, local: Option<Seq<u8>>, address: Option<Seq<u8>>, len: nat) -> Option<
    Seq<u8>,
> {
    if scope != 0 {
        None
    } else {
        match (if local is Some { local } else { address }) {
            Some(b) => if b.len() == len { Some(b) } else { None },
            None => None,
        }
    }
}

/// The address that one reply about an interface's addresses gives (see
/// `reply_address_of`).
pub fn reply_address(scope: u8, local: Option<&[u8]>, address: Option<&[u8]>, len: usize) -> (res: Option<Vec<u8>>)
    ensures
        match reply_address_of(scope, opt_bytes(local), opt_bytes(address), len as nat) {
            Some(b) => res matches Some(v) && v@ == b,
            None => res is None,
        },
{
    if scope != 0 {
        return None;
    }
    let chosen = match local {
        Some(b) => Some(b),
        None => address,
    };
    match chosen {
        Some(b) => {
            if b.len() == len {
                let mut v: Vec<u8> = Vec::new();
                let mut i: usize = 0;
                while i < b.len()
                    invariant
                        i <= b@.len(),
                        v@ == b@.take(i as int),
                    decreases b.len() - i,
                {
                    v.push(b[i]);
                    assert(v@ =~= b@.take(i + 1));
                    i = i + 1;
                }
                assert(b@.take(i as int) =~= b@);
                Some(v)
            } else {
                None
            }
        },
        None => None,
    }
}

/// The SSID of a wireless interface: the one that nl80211 gives for the
/// interface, decoded leniently, else the one among the information
/// elements `ies` of its BSS (whose elements must then not claim more
/// bytes than there are).
pub fn wireless_ssid(iface_ssid: Option<&[u8]>, ies: Option<&[u8]>) -> (res: Option<String>)
    requires
        iface_ssid is None ==> (ies matches Some(b) ==> ssid_element_start(b@, 0) is Some),
    ensures
        match iface_ssid {
            Some(b) => res matches Some(s) && s@ == utf8_lossy(b@) && (valid_utf8(b@) ==> s@ == decode_utf8(b@)),
            None => match opt_bytes(ies) {
                Some(b) => match ssid_bytes(b) {
                    Some(x) => res matches Some(s) && s@ == utf8_lossy(x) && (valid_utf8(x) ==> s@ == decode_utf8(x)),
                    None => res is None,
                },
                None => res is None,
            },
        },
{
    match iface_ssid {
        Some(b) => Some(string_from_utf8_lossy(b)),
        None => match ies {
            Some(b) => find_ssid(b),
            None => None,
        },
    }
}

/// `m` divided by 100, rounded toward zero.
pub open spec fn hundredths_toward_zero(m: int) -> int {
    if m >= 0 {
        m / 100
    } else {
        -((-m) / 100)
    }
}

/// The signal of a station in dBm: the station's own where nl80211 gives
/// it, else that of its BSS, which is given in hundredths of a dBm: divided
/// by 100 (toward zero) and cut to an `i8` as `as` cuts.
pub fn station_signal(station: Option<i8>, bss: Option<i32>) -> (res: Option<i8>)
    ensures
        res == (match station {
            Some(x) => Some(x),
            None => match bss {
                Some(m) => Some(hundredths_toward_zero(m as int) as i8),
                None => None,
            },
        }),
{
    match station {
        Some(x) => Some(x),
        None => match bss {
            Some(m) => {
                let q: i32 = if m >= 0 {
                    m / 100
                } else {
                    -((-(m as i64) / 100) as i32)
                };
                assert(q == hundredths_toward_zero(m as int));
                Some(q as i8)
            },
            None => None,
        },
    }
}

} // verus!
