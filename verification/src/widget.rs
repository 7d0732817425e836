//! Widgets: the graphical elements that render the output of a module.
use vstd::prelude::*;

use crate::config::GeneralConfig;
use crate::formatting::{opt_entries, render_text, Format, Placeholders};
use crate::output::color::Color;

verus! {

/// The state of a widget, which decides its color: `color_good`,
/// `color_degraded` or `color_bad`.
#[derive(Clone, Copy, Debug, Eq, PartialEq, Structural)]
pub enum WidgetState {
    Normal,
    Warning,
    Critical,
}

impl Default for WidgetState {
    fn default() -> (res: WidgetState)
        ensures
            res == WidgetState::Normal,
    {
        WidgetState::Normal
    }
}

/// What a widget shows: nothing, a text, or a format with its placeholders.
#[derive(Clone, Debug)]
pub enum ContentType {
    Empty,
    Text(String),
    Format(Format, Option<Placeholders>),
}

impl Default for ContentType {
    fn default() -> (res: ContentType)
        ensures
            res is Empty,
    {
        ContentType::Empty
    }
}

/// The text that a content shows: the full text of a format, with the
/// placeholders substituted.
pub open spec fn content_text(c: ContentType) -> Seq<char> {
    match c {
        ContentType::Empty => Seq::empty(),
        ContentType::Text(s) => s@,
        ContentType::Format(f, p) => render_text(f@.full_text, opt_entries(p)),
    }
}

/// The content after its format is set to `f`: the placeholders stay
/// where there was a format, and there are none where there was not.
pub open spec fn format_set(c: ContentType, f: Format) -> ContentType {
    match c {
        ContentType::Format(_, p) => ContentType::Format(f, p),
        _ => ContentType::Format(f, None),
    }
}

/// The content after its placeholders are set to `p`: only a format takes
/// placeholders; any other content stays.
pub open spec fn placeholders_set(c: ContentType, p: Placeholders) -> ContentType {
    match c {
        ContentType::Format(f, _) => ContentType::Format(f, Some(p)),
        _ => c,
    }
}

impl ContentType {
    /// The text that the content shows (its `Display`).
    pub fn to_string(&self) -> (res: String)
        ensures
            res@ == content_text(*self),
    {
        match self {
            ContentType::Empty => String::new(),
            ContentType::Text(s) => s.clone(),
            ContentType::Format(format, p) => {
                let (full_text, _) = format.render(p);
                full_text
            },
        }
    }
}

/// The graphical element that renders the output of a module.
#[derive(Clone, Debug)]
pub struct Widget {
    pub name: String,
    pub instance: Option<String>,
    pub state: WidgetState,
    pub content: ContentType,
}

/// The color of the state in `config`.
pub open spec fn state_color(config: GeneralConfig, state: WidgetState) -> Seq<char> {
    match state {
        WidgetState::Normal => config.color_good@,
        WidgetState::Warning => config.color_degraded@,
        WidgetState::Critical => config.color_bad@,
    }
}

impl Default for Widget {
    fn default() -> (res: Widget)
        ensures
            res.name@ == Seq::<char>::empty(),
            res.instance is None,
            res.state == WidgetState::Normal,
            res.content is Empty,
    {
        Widget { name: String::new(), instance: None, state: WidgetState::Normal, content: ContentType::Empty }
    }
}

impl Widget {
    /// A widget with no name, no instance and no content, in the normal state.
    pub fn new() -> (res: Widget)
        ensures
            res.name@ == Seq::<char>::empty(),
            res.instance is None,
            res.state == WidgetState::Normal,
            res.content is Empty,
    {
        Widget::default()
    }

    /// The same widget named `name`.
    pub fn with_name(self, name: String) -> (res: Widget)
        ensures
            res.name == name,
            res.instance == self.instance,
            res.state == self.state,
            res.content == self.content,
    {
        Widget { name, ..self }
    }

    /// The same widget with `instance` as its instance.
    pub fn with_instance(self, instance: String) -> (res: Widget)
        ensures
            res.name == self.name,
            res.instance == Some(instance),
            res.state == self.state,
            res.content == self.content,
    {
        Widget { instance: Some(instance), ..self }
    }

    /// Sets the state.
    pub fn set_state(&mut self, state: WidgetState)
        ensures
            final(self).state == state,
            final(self).name == old(self).name,
            final(self).instance == old(self).instance,
            final(self).content == old(self).content,
    {
        self.state = state;
    }

    /// Sets the format: the placeholders stay where the widget had a format,
    /// and there are none where it had not.
    pub fn set_format(&mut self, format: Format)
        ensures
            final(self).content == format_set(old(self).content, format),
            final(self).name == old(self).name,
            final(self).instance == old(self).instance,
            final(self).state == old(self).state,
    {
        let mut content = ContentType::Empty;
        std::mem::swap(&mut content, &mut self.content);
        self.content = match content {
            ContentType::Format(_, p) => ContentType::Format(format, p),
            _ => ContentType::Format(format, None),
        };
    }

    /// Sets the placeholders where the widget has a format; else does
    /// nothing.
    pub fn set_placeholders(&mut self, placeholders: Placeholders)
        ensures
            final(self).content == placeholders_set(old(self).content, placeholders),
            final(self).name == old(self).name,
            final(self).instance == old(self).instance,
            final(self).state == old(self).state,
    {
        let mut content = ContentType::Empty;
        std::mem::swap(&mut content, &mut self.content);
        self.content = match content {
            ContentType::Format(f, _) => ContentType::Format(f, Some(placeholders)),
            c => c,
        };
    }

    /// The color of the widget's state in `config`.
    pub fn color(&self, config: &GeneralConfig) -> (res: Color)
        ensures
            res@ == state_color(*config, self.state),
    {
        match &self.state {
            WidgetState::Normal => config.color_good.clone(),
            WidgetState::Warning => config.color_degraded.clone(),
            WidgetState::Critical => config.color_bad.clone(),
        }
    }
}

} // verus!

verus! {

/// A widget shows its format with its placeholders substituted: once a
/// format and then placeholders are set, whatever it showed before, it
/// shows the format's full text with those placeholders substituted; a
/// format set afterwards keeps the placeholders; placeholders set where
/// there is no format change nothing.
pub proof fn lemma_widget_shows_format(c: ContentType, f: Format, p: Placeholders, g: Format)
    ensures
        content_text(placeholders_set(format_set(c, f), p)) == render_text(f@.full_text, Some(p@)),
        content_text(format_set(placeholders_set(format_set(c, f), p), g)) == render_text(
            g@.full_text,
            Some(p@),
        ),
        !(c is Format) ==> placeholders_set(c, p) == c,
{
}

} // verus!
