//! The general configuration of the bar.
use vstd::prelude::*;

use vstd::std_specs::cmp::PartialEqSpecImpl;

use crate::output::color::Color;
use crate::protocol::Markup;
use crate::text::str_eq;

verus! {

/// The settings that hold for every module.
#[derive(Clone, Debug)]
pub struct GeneralConfig {
    /// The name of the output format: `i3bar`, `term`, `xmobar`, `lemonbar`
    /// or `dzen2`.
    pub output_format: String,
    /// Whether colors are used.
    pub colors: bool,
    /// The separator between modules.
    pub separator: String,
    /// The color of the separator.
    pub color_separator: Color,
    /// The color of good values.
    pub color_good: Color,
    /// The color of degraded values.
    pub color_degraded: Color,
    /// The color of bad values.
    pub color_bad: Color,
    /// How the format strings are parsed.
    pub markup: Markup,
    /// The seconds between two updates of a module.
    pub update_interval: u64,
}

/// The default general settings: i3bar output with colors, no separator,
/// grey separators, green, yellow and red for good, degraded and bad
/// values, plain text and an update every ten seconds.
pub open spec fn is_default_general_config(c: GeneralConfig) -> bool {
    &&& c.output_format@ == "i3bar"@
    &&& c.colors
    &&& c.separator@ == Seq::<char>::empty()
    &&& c.color_separator@ == "#333333"@
    &&& c.color_good@ == "#00FF00"@
    &&& c.color_degraded@ == "#FFFF00"@
    &&& c.color_bad@ == "#FF0000"@
    &&& c.markup == Markup::Plain
    &&& c.update_interval == 10
}

impl Default for GeneralConfig {
    fn default() -> (res: GeneralConfig)
        ensures
            is_default_general_config(res),
    {
        proof {
            reveal_strlit("#333333");
            reveal_strlit("#00FF00");
            reveal_strlit("#FFFF00");
            reveal_strlit("#FF0000");
            crate::output::color::lemma_byte_len("#333333"@);
            crate::output::color::lemma_byte_len("#00FF00"@);
            crate::output::color::lemma_byte_len("#FFFF00"@);
            crate::output::color::lemma_byte_len("#FF0000"@);
        }
        GeneralConfig {
            output_format: String::from_str("i3bar"),
            colors: true,
            separator: String::new(),
            color_separator: Color::known("#333333"),
            color_good: Color::known("#00FF00"),
            color_degraded: Color::known("#FFFF00"),
            color_bad: Color::known("#FF0000"),
            markup: Markup::Plain,
            update_interval: 10,
        }
    }
}

impl GeneralConfig {
    /// The same settings with colors off where `no_colors` asks for it (the
    /// `--no-colors` option); nothing else changes.
    pub fn with_no_colors(self, no_colors: bool) -> (res: GeneralConfig)
        ensures
            res.colors == (self.colors && !no_colors),
            res.output_format == self.output_format,
            res.separator == self.separator,
            res.color_separator == self.color_separator,
            res.color_good == self.color_good,
            res.color_degraded == self.color_degraded,
            res.color_bad == self.color_bad,
            res.markup == self.markup,
            res.update_interval == self.update_interval,
    {
        let colors = self.colors && !no_colors;
        GeneralConfig { colors, ..self }
    }
}

impl PartialEq for GeneralConfig {
    fn eq(&self, other: &GeneralConfig) -> (res: bool) {
        str_eq(self.output_format.as_str(), other.output_format.as_str()) && self.colors == other.colors
            && str_eq(self.separator.as_str(), other.separator.as_str()) && self.color_separator
            == other.color_separator && self.color_good == other.color_good && self.color_degraded
            == other.color_degraded && self.color_bad == other.color_bad && self.markup == other.markup
            && self.update_interval == other.update_interval
    }
}

impl Eq for GeneralConfig {}

impl PartialEqSpecImpl for GeneralConfig {
    open spec fn obeys_eq_spec() -> bool {
        true
    }

    open spec fn eq_spec(&self, other: &GeneralConfig) -> bool {
        &&& self.output_format@ == other.output_format@
        &&& self.colors == other.colors
        &&& self.separator@ == other.separator@
        &&& self.color_separator@ == other.color_separator@
        &&& self.color_good@ == other.color_good@
        &&& self.color_degraded@ == other.color_degraded@
        &&& self.color_bad@ == other.color_bad@
        &&& self.markup == other.markup
        &&& self.update_interval == other.update_interval
    }
}

} // verus!
