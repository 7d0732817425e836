//! The volume of an ALSA mixer: the mixer's channel, whether it is muted,
//! and how the widget shows it.
use vstd::prelude::*;

use crate::formatting::Format;
use crate::text::{decimal, push_char, str_eq, u64_to_string};
use crate::widget::WidgetState;

verus! {

/// The settings of the volume module.
#[derive(Clone, Debug)]
pub struct Config {
    /// The ALSA device.
    pub device: String,
    /// The format where the channel is not muted.
    pub format: Format,
    /// The format where the channel is muted.
    pub format_muted: Format,
    /// The mixer's name; `capture` names the capture channel.
    pub mixer: String,
    /// The mixer's index.
    pub mixer_idx: u32,
}

impl Default for Config {
    fn default() -> (res: Config)
        ensures
            res.device@ == "default"@,
            res.format@.full_text == Some("V: $volume"@),
            res.format@.short_text is None,
            res.format_muted@.full_text == Some("V: muted ($volume)"@),
            res.format_muted@.short_text is None,
            res.mixer@ == "Master"@,
            res.mixer_idx == 0,
    {
        Config {
            device: String::from_str("default"),
            format: Format::new().with_default("V: $volume"),
            format_muted: Format::new().with_default("V: muted ($volume)"),
            mixer: String::from_str("Master"),
            mixer_idx: 0,
        }
    }
}

/// The channel of a mixer element whose volume is read.
#[derive(Clone, Copy, Debug, Eq, PartialEq, Structural)]
pub enum Channel {
    Capture,
    Playback,
}

impl Channel {
    /// The capture channel for the mixer `capture`, the playback channel
    /// for any other.
    pub fn new(mixer: &str) -> (res: Channel)
        ensures
            res == (if mixer@ == "capture"@ { Channel::Capture } else { Channel::Playback }),
    {
        if str_eq(mixer, "capture") {
            Channel::Capture
        } else {
            Channel::Playback
        }
    }
}

/// The instance of the volume widget: device, mixer and index, separated
/// by dots.
pub open spec fn instance_text(config: Config) -> Seq<char> {
    config.device@ + seq!['.'] + config.mixer@ + seq!['.'] + decimal(config.mixer_idx as nat)
}

/// The instance of the volume widget, such as `default.Master.0`.
pub fn volume_instance(config: &Config) -> (res: String)
    ensures
        res@ == instance_text(*config),
{
    let mut res = config.device.clone();
    push_char(&mut res, '.');
    res.append(config.mixer.as_str());
    push_char(&mut res, '.');
    let idx = u64_to_string(config.mixer_idx as u64);
    res.append(idx.as_str());
    assert(res@ =~= instance_text(*config));
    res
}

/// Whether the channel is muted: it has a switch, and the switch reads 0.
pub fn is_muted(has_switch: bool, switch: i32) -> (res: bool)
    ensures
        res == (has_switch && switch == 0),
{
    has_switch && switch == 0
}

/// The state and the format of the widget: a warning with the muted format
/// where the channel is muted, else the normal state with the format.
pub fn volume_status(config: &Config, muted: bool) -> (res: (WidgetState, Format))
    ensures
        res.0 == (if muted { WidgetState::Warning } else { WidgetState::Normal }),
        res.1 == (if muted { config.format_muted } else { config.format }),
{
    if muted {
        (WidgetState::Warning, config.format_muted.clone())
    } else {
        (WidgetState::Normal, config.format.clone())
    }
}

} // verus!
