//! The output formats: how a widget is written for i3bar, dzen2, xmobar,
//! lemonbar or a terminal.
use vstd::prelude::*;

use crate::bar::RenderedWidget;
use crate::config::GeneralConfig;
use crate::text::str_eq;
use crate::widget::{content_text, state_color, Widget};

pub mod color;
pub mod dzen2;
pub mod i3bar;
pub mod lemonbar;
pub mod term;
pub mod xmobar;

verus! {

/// How an output format writes widgets.
pub trait OutputFormatter {
    /// The markup that sets the foreground to `color`.
    spec fn color_markup(&self, color: Seq<char>) -> Seq<char>;

    /// The text of a widget with `content` shown in `color`.
    spec fn text_markup(&self, color: Seq<char>, content: Seq<char>) -> Seq<char>;

    /// Whether `res` is how the format renders `widget` under `config`.
    spec fn renders(&self, config: GeneralConfig, widget: Widget, res: RenderedWidget) -> bool;

    /// The markup that sets the foreground to the widget's color; nothing
    /// where colors are off.
    fn fg_color(&self, config: &GeneralConfig, widget: &Widget) -> (res: String)
        ensures
            res@ == (if config.colors {
                self.color_markup(state_color(*config, widget.state))
            } else {
                Seq::<char>::empty()
            }),
    ;

    /// The text of the widget in its color; the bare text where colors are
    /// off.
    fn full_text(&self, config: &GeneralConfig, widget: &Widget) -> (res: String)
        ensures
            res@ == (if config.colors {
                self.text_markup(state_color(*config, widget.state), content_text(widget.content))
            } else {
                content_text(widget.content)
            }),
    ;

    /// The widget as the format renders it.
    fn render_widget(&self, config: &GeneralConfig, widget: Widget) -> (res: RenderedWidget)
        ensures
            self.renders(*config, widget, res),
    ;
}

/// One of the output formats.
#[derive(Clone, Copy, Debug, Eq, PartialEq, Structural)]
pub enum OutputFormat {
    Term,
    LemonBar,
    I3Bar,
    XmoBar,
    Dzen2,
}

/// Whether `o` names an output format.
pub open spec fn is_output_format_name(o: Seq<char>) -> bool {
    o == "term"@ || o == "lemonbar"@ || o == "i3bar"@ || o == "xmobar"@ || o == "dzen2"@
}

/// The output format that `o` names.
pub open spec fn output_format_of(o: Seq<char>) -> OutputFormat {
    if o == "term"@ {
        OutputFormat::Term
    } else if o == "lemonbar"@ {
        OutputFormat::LemonBar
    } else if o == "i3bar"@ {
        OutputFormat::I3Bar
    } else if o == "xmobar"@ {
        OutputFormat::XmoBar
    } else {
        OutputFormat::Dzen2
    }
}

/// The output format named `o`, which must name one.
pub fn output_formatter(o: &str) -> (res: OutputFormat)
    requires
        is_output_format_name(o@),
    ensures
        res == output_format_of(o@),
{
    if str_eq(o, "term") {
        OutputFormat::Term
    } else if str_eq(o, "lemonbar") {
        OutputFormat::LemonBar
    } else if str_eq(o, "i3bar") {
        OutputFormat::I3Bar
    } else if str_eq(o, "xmobar") {
        OutputFormat::XmoBar
    } else {
        OutputFormat::Dzen2
    }
}

impl OutputFormatter for OutputFormat {
    open spec fn color_markup(&self, color: Seq<char>) -> Seq<char> {
        match self {
            OutputFormat::Term => term::Term.color_markup(color),
            OutputFormat::LemonBar => lemonbar::LemonBar.color_markup(color),
            OutputFormat::I3Bar => i3bar::I3Bar.color_markup(color),
            OutputFormat::XmoBar => xmobar::XmoBar.color_markup(color),
            OutputFormat::Dzen2 => dzen2::Dzen2.color_markup(color),
        }
    }

    open spec fn text_markup(&self, color: Seq<char>, content: Seq<char>) -> Seq<char> {
        match self {
            OutputFormat::Term => term::Term.text_markup(color, content),
            OutputFormat::LemonBar => lemonbar::LemonBar.text_markup(color, content),
            OutputFormat::I3Bar => i3bar::I3Bar.text_markup(color, content),
            OutputFormat::XmoBar => xmobar::XmoBar.text_markup(color, content),
            OutputFormat::Dzen2 => dzen2::Dzen2.text_markup(color, content),
        }
    }

    open spec fn renders(&self, config: GeneralConfig, widget: Widget, res: RenderedWidget) -> bool {
        match self {
            OutputFormat::Term => term::Term.renders(config, widget, res),
            OutputFormat::LemonBar => lemonbar::LemonBar.renders(config, widget, res),
            OutputFormat::I3Bar => i3bar::I3Bar.renders(config, widget, res),
            OutputFormat::XmoBar => xmobar::XmoBar.renders(config, widget, res),
            OutputFormat::Dzen2 => dzen2::Dzen2.renders(config, widget, res),
        }
    }

    fn fg_color(&self, config: &GeneralConfig, widget: &Widget) -> (res: String) {
        match self {
            OutputFormat::Term => term::Term.fg_color(config, widget),
            OutputFormat::LemonBar => lemonbar::LemonBar.fg_color(config, widget),
            OutputFormat::I3Bar => i3bar::I3Bar.fg_color(config, widget),
            OutputFormat::XmoBar => xmobar::XmoBar.fg_color(config, widget),
            OutputFormat::Dzen2 => dzen2::Dzen2.fg_color(config, widget),
        }
    }

    fn full_text(&self, config: &GeneralConfig, widget: &Widget) -> (res: String) {
        match self {
            OutputFormat::Term => term::Term.full_text(config, widget),
            OutputFormat::LemonBar => lemonbar::LemonBar.full_text(config, widget),
            OutputFormat::I3Bar => i3bar::I3Bar.full_text(config, widget),
            OutputFormat::XmoBar => xmobar::XmoBar.full_text(config, widget),
            OutputFormat::Dzen2 => dzen2::Dzen2.full_text(config, widget),
        }
    }

    fn render_widget(&self, config: &GeneralConfig, widget: Widget) -> (res: RenderedWidget) {
        match self {
            OutputFormat::Term => term::Term.render_widget(config, widget),
            OutputFormat::LemonBar => lemonbar::LemonBar.render_widget(config, widget),
            OutputFormat::I3Bar => i3bar::I3Bar.render_widget(config, widget),
            OutputFormat::XmoBar => xmobar::XmoBar.render_widget(config, widget),
            OutputFormat::Dzen2 => dzen2::Dzen2.render_widget(config, widget),
        }
    }
}

} // verus!
