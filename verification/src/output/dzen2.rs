//! dzen2 output format.
use vstd::prelude::*;

use crate::bar::RenderedWidget;
use crate::config::GeneralConfig;
use crate::output::OutputFormatter;
use crate::widget::{content_text, state_color, Widget};

verus! {

/// The dzen2 output format.
#[derive(Clone, Copy, Debug, Eq, PartialEq, Structural)]
pub struct Dzen2;

impl OutputFormatter for Dzen2 {
    open spec fn color_markup(&self, color: Seq<char>) -> Seq<char> {
        "^fg("@ + color + ")"@
    }

    open spec fn text_markup(&self, color: Seq<char>, content: Seq<char>) -> Seq<char> {
        self.color_markup(color) + content
    }

    open spec fn renders(&self, config: GeneralConfig, widget: Widget, res: RenderedWidget) -> bool {
        res matches RenderedWidget::Text(t) && t@ == (if config.colors {
            self.text_markup(state_color(config, widget.state), content_text(widget.content))
        } else {
            content_text(widget.content)
        })
    }

    fn fg_color(&self, config: &GeneralConfig, widget: &Widget) -> (res: String) {
        if !config.colors {
            return String::new();
        }
        proof {
            reveal_strlit("^fg(");
            reveal_strlit(")");
        }
        let c = widget.color(config).to_string();
        let mut res = String::from_str("^fg(");
        res.append(c.as_str());
        res.append(")");
        res
    }

    fn full_text(&self, config: &GeneralConfig, widget: &Widget) -> (res: String) {
        if !config.colors {
            return widget.content.to_string();
        }
        proof {
            reveal_strlit("^fg(");
            reveal_strlit(")");
        }
        let content = widget.content.to_string();
        let mut res = self.fg_color(config, widget);
        res.append(content.as_str());
        res
    }

    fn render_widget(&self, config: &GeneralConfig, widget: Widget) -> (res: RenderedWidget) {
        RenderedWidget::Text(self.full_text(config, &widget))
    }
}

} // verus!
