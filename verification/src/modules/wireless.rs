//! A wireless interface: whether it is up, its addresses and SSID, and the
//! traffic counters from which the transfer speeds are computed.
use vstd::prelude::*;

use crate::formatting::{distinct_keys, lemma_key_index, lookup, Entry, Format, Placeholders};
use crate::net_iface::RtnlLinkStats;
use crate::widget::WidgetState;

verus! {

/// The settings of the wireless module.
#[derive(Clone, Debug)]
pub struct Config {
    /// The name of the interface.
    pub interface: String,
    /// The format where the interface is up.
    pub format_up: Format,
    /// The format where it is down.
    pub format_down: Format,
}

impl Default for Config {
    fn default() -> (res: Config)
        ensures
            res.interface@ == "wlan0"@,
            res.format_up@.full_text == Some(
                "$name: [$signal at $ssid, $bitrate [D: $speed_down | U: $speed_up]] $ipv4"@,
            ),
            res.format_up@.short_text is None,
            res.format_down@.full_text == Some("W: down"@),
            res.format_down@.short_text is None,
    {
        Config {
            interface: String::from_str("wlan0"),
            format_up: Format::new().with_default(
                "$name: [$signal at $ssid, $bitrate [D: $speed_down | U: $speed_up]] $ipv4",
            ),
            format_down: Format::new().with_default("W: down"),
        }
    }
}

/// The state and the format of the widget: normal with the format of an
/// interface that is up, critical with the other where it is down.
pub fn link_status(config: &Config, up: bool) -> (res: (WidgetState, Format))
    ensures
        res.0 == (if up { WidgetState::Normal } else { WidgetState::Critical }),
        res.1 == (if up { config.format_up } else { config.format_down }),
{
    if up {
        (WidgetState::Normal, config.format_up.clone())
    } else {
        (WidgetState::Critical, config.format_down.clone())
    }
}

/// `value` where there is one, else `fallback`.
pub open spec fn text_or(value: Option<String>, fallback: Seq<char>) -> Seq<char> {
    match value {
        Some(v) => v@,
        None => fallback,
    }
}

/// The placeholders whose texts are known without measuring: the
/// interface's name, its IPv4 and IPv6 addresses and its SSID, each with
/// a text of its own where it is unknown.
pub open spec fn text_entries(
    config: Config,
    ipv4: Option<String>,
    ipv6: Option<String>,
    ssid: Option<String>,
) -> Seq<Entry> {
    seq![
        ("$name"@, config.interface@),
        ("$ipv4"@, text_or(ipv4, "No IPv4"@)),
        ("$ipv6"@, text_or(ipv6, "No IPv6"@)),
        ("$ssid"@, text_or(ssid, "No SSID"@)),
    ]
}

fn text_or_exec(value: Option<String>, fallback: &str) -> (res: String)
    ensures
        res@ == text_or(value, fallback@),
{
    match value {
        Some(v) => v,
        None => fallback.to_owned(),
    }
}

/// The placeholders of the interface's name, addresses and SSID (`ipv4`,
/// `ipv6` and `ssid` as they are written, where they are known).
pub fn text_placeholders(
    config: &Config,
    ipv4: Option<String>,
    ipv6: Option<String>,
    ssid: Option<String>,
) -> (res: Placeholders)
    ensures
        res@ == text_entries(*config, ipv4, ipv6, ssid),
{
    proof {
        reveal_strlit("$name");
        reveal_strlit("$ipv4");
        reveal_strlit("$ipv6");
        reveal_strlit("$ssid");
    }
    let ghost e = text_entries(*config, ipv4, ipv6, ssid);
    let mut p = Placeholders::new();
    p.insert(String::from_str("$name"), config.interface.clone());
    assert(p@ =~= e.take(1));
    assert("$ipv4"@ != "$name"@) by {
        assert("$ipv4"@[1] != "$name"@[1]);
    }
    p.insert(String::from_str("$ipv4"), text_or_exec(ipv4, "No IPv4"));
    assert(p@ =~= e.take(2));
    assert("$ipv6"@ != "$name"@ && "$ipv6"@ != "$ipv4"@) by {
        assert("$ipv6"@[1] != "$name"@[1]);
        assert("$ipv6"@[4] != "$ipv4"@[4]);
    }
    p.insert(String::from_str("$ipv6"), text_or_exec(ipv6, "No IPv6"));
    assert(p@ =~= e.take(3));
    assert("$ssid"@ != "$name"@ && "$ssid"@ != "$ipv4"@ && "$ssid"@ != "$ipv6"@) by {
        assert("$ssid"@[1] != "$name"@[1]);
        assert("$ssid"@[1] != "$ipv4"@[1]);
        assert("$ssid"@[1] != "$ipv6"@[1]);
    }
    p.insert(String::from_str("$ssid"), text_or_exec(ssid, "No SSID"));
    assert(p@ =~= e);
    p
}

/// Whether the counters never went back between `old` and `new`.
pub open spec fn counters_grew(old: RtnlLinkStats, new: RtnlLinkStats) -> bool {
    old.rx_bytes <= new.rx_bytes && old.tx_bytes <= new.tx_bytes
}

/// What one reading of the counters does to the counters that are kept:
/// where the interface has none, none are kept; where none were kept, the
/// new ones are; where both are there, the kept ones stay and the bytes
/// received and sent since them are measured (received first).
pub open spec fn stats_step_of(kept: Option<RtnlLinkStats>, read: Option<RtnlLinkStats>) -> (
    Option<RtnlLinkStats>,
    Option<(u64, u64)>,
) {
    match (kept, read) {
        (Some(_), None) => (None, None),
        (None, r) => (r, None),
        (Some(o), Some(n)) => (kept, Some(((n.rx_bytes - o.rx_bytes) as u64, (n.tx_bytes - o.tx_bytes) as u64))),
    }
}

/// One reading of the counters: the counters kept afterwards, and the
/// bytes received and sent since the kept ones where both are there (the
/// counters must not have gone back).
pub fn stats_step(kept: Option<RtnlLinkStats>, read: Option<RtnlLinkStats>) -> (res: (
    Option<RtnlLinkStats>,
    Option<(u64, u64)>,
))
    requires
        kept matches Some(o) && read matches Some(n) ==> counters_grew(o, n),
    ensures
        res == stats_step_of(kept, read),
{
    match (kept, read) {
        (Some(_), None) => (None, None),
        (None, r) => (r, None),
        (Some(o), Some(n)) => (kept, Some((n.rx_bytes - o.rx_bytes, n.tx_bytes - o.tx_bytes))),
    }
}

/// Each placeholder of the interface gives what is known of it: `$name`
/// the interface's name, `$ipv4`, `$ipv6` and `$ssid` the address or SSID
/// where it is known, and `No IPv4`, `No IPv6` or `No SSID` only where it
/// is not; no name occurs twice.
pub proof fn lemma_text_placeholders(
    config: Config,
    ipv4: Option<String>,
    ipv6: Option<String>,
    ssid: Option<String>,
)
    ensures
        distinct_keys(text_entries(config, ipv4, ipv6, ssid)),
        lookup(text_entries(config, ipv4, ipv6, ssid), "$name"@) == Some(config.interface@),
        ipv4 matches Some(a) ==> lookup(text_entries(config, ipv4, ipv6, ssid), "$ipv4"@) == Some(a@),
        ipv4 is None ==> lookup(text_entries(config, ipv4, ipv6, ssid), "$ipv4"@) == Some("No IPv4"@),
        ipv6 matches Some(a) ==> lookup(text_entries(config, ipv4, ipv6, ssid), "$ipv6"@) == Some(a@),
        ipv6 is None ==> lookup(text_entries(config, ipv4, ipv6, ssid), "$ipv6"@) == Some("No IPv6"@),
        ssid matches Some(x) ==> lookup(text_entries(config, ipv4, ipv6, ssid), "$ssid"@) == Some(x@),
        ssid is None ==> lookup(text_entries(config, ipv4, ipv6, ssid), "$ssid"@) == Some("No SSID"@),
{
    reveal_strlit("$name");
    reveal_strlit("$ipv4");
    reveal_strlit("$ipv6");
    reveal_strlit("$ssid");
    let e = text_entries(config, ipv4, ipv6, ssid);
    assert("$ipv4"@[1] != "$name"@[1]);
    assert("$ipv6"@[1] != "$name"@[1]);
    assert("$ssid"@[1] != "$name"@[1]);
    assert("$ipv6"@[4] != "$ipv4"@[4]);
    assert("$ssid"@[1] != "$ipv4"@[1]);
    assert("$ssid"@[1] != "$ipv6"@[1]);
    assert(distinct_keys(e));
    lemma_key_index(e, 0);
    lemma_key_index(e, 1);
    lemma_key_index(e, 2);
    lemma_key_index(e, 3);
}

} // verus!
