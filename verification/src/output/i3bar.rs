//! i3bar output format: JSON blocks that pass as much meta-information to
//! i3bar as possible (see [`crate::protocol`]).
use vstd::prelude::*;

use crate::bar::RenderedWidget;
use crate::config::GeneralConfig;
use crate::errors::opt_view;
use crate::output::OutputFormatter;
use crate::protocol::{has_block_style_defaults, opt_color, Block};
use crate::widget::{content_text, state_color, Widget};

verus! {

/// The i3bar output format.
#[derive(Clone, Copy, Debug, Eq, PartialEq, Structural)]
pub struct I3Bar;

impl OutputFormatter for I3Bar {
    open spec fn color_markup(&self, color: Seq<char>) -> Seq<char> {
        color
    }

    open spec fn text_markup(&self, color: Seq<char>, content: Seq<char>) -> Seq<char> {
        content
    }

    /// A block with the widget's text, name and instance, its color where
    /// colors are on (none otherwise), the markup of the settings, and
    /// every other setting at its default.
    open spec fn renders(&self, config: GeneralConfig, widget: Widget, res: RenderedWidget) -> bool {
        res matches RenderedWidget::I3Block(b) && {
            &&& b.full_text@ == content_text(widget.content)
            &&& opt_color(b.color) == (if config.colors {
                Some(state_color(config, widget.state))
            } else {
                None
            })
            &&& b.markup == config.markup
            &&& opt_view(b.name) == Some(widget.name@)
            &&& opt_view(b.instance) == opt_view(widget.instance)
            &&& has_block_style_defaults(b)
        }
    }

    fn fg_color(&self, config: &GeneralConfig, widget: &Widget) -> (res: String) {
        if !config.colors {
            return String::new();
        }
        widget.color(config).to_string()
    }

    fn full_text(&self, _config: &GeneralConfig, widget: &Widget) -> (res: String) {
        widget.content.to_string()
    }

    fn render_widget(&self, config: &GeneralConfig, widget: Widget) -> (res: RenderedWidget) {
        let full_text = self.full_text(config, &widget);
        let color = if config.colors {
            Some(widget.color(config))
        } else {
            None
        };
        let block = Block {
            full_text,
            color,
            name: Some(widget.name),
            instance: widget.instance,
            markup: config.markup,
            ..Block::default()
        };
        RenderedWidget::I3Block(block)
    }
}

} // verus!
