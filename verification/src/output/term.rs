//! Terminal output: ANSI escape sequences that come as close as possible to
//! the graphical outputs.
use vstd::prelude::*;

use crate::bar::RenderedWidget;
use crate::config::GeneralConfig;
use crate::output::OutputFormatter;
use crate::widget::{content_text, state_color, Widget};

verus! {

/// The term output format.
#[derive(Clone, Copy, Debug, Eq, PartialEq, Structural)]
pub struct Term;

impl OutputFormatter for Term {
    open spec fn color_markup(&self, color: Seq<char>) -> Seq<char> {
        "\\033[3"@ + color + ";1m"@
    }

    open spec fn text_markup(&self, color: Seq<char>, content: Seq<char>) -> Seq<char> {
        self.color_markup(color) + content + "\\033[0m"@
    }

    open spec fn renders(&self, config: GeneralConfig, widget: Widget, res: RenderedWidget) -> bool {
        res matches RenderedWidget::Text(t) && t@ == (if config.colors {
            self.text_markup(state_color(config, widget.state), content_text(widget.content))
        } else {
            content_text(widget.content)
        })
    }

    fn fg_color(&self, config: &GeneralConfig, widget: &Widget) -> (res: String) {
        if !config.colors {
            return String::new();
        }
        proof {
            reveal_strlit("\\033[3");
            reveal_strlit(";1m");
            reveal_strlit("\\033[0m");
        }
        let c = widget.color(config).to_string();
        let mut res = String::from_str("\\033[3");
        res.append(c.as_str());
        res.append(";1m");
        res
    }

    fn full_text(&self, config: &GeneralConfig, widget: &Widget) -> (res: String) {
        if !config.colors {
            return widget.content.to_string();
        }
        proof {
            reveal_strlit("\\033[3");
            reveal_strlit(";1m");
            reveal_strlit("\\033[0m");
        }
        let content = widget.content.to_string();
        let mut res = self.fg_color(config, widget);
        res.append(content.as_str());
        res.append("\\033[0m");
        res
    }

    fn render_widget(&self, config: &GeneralConfig, widget: Widget) -> (res: RenderedWidget) {
        RenderedWidget::Text(self.full_text(config, &widget))
    }
}

} // verus!
