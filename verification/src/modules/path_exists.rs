//! Whether a path exists, such as the one of a VPN connection.
use vstd::prelude::*;

use crate::errors::{opt_view, Error};
use crate::formatting::{Entry, Format, Placeholders};
use crate::widget::WidgetState;

verus! {

/// The settings of the module.
#[derive(Clone, Debug)]
pub struct Config {
    /// What replaces `$title`.
    pub title: String,
    /// The format (`"$title $status"` where there is none).
    pub format: Option<String>,
    /// The path whose existence is shown.
    pub path: String,
}

/// The format of the widget: the configured one, else `"$title $status"`.
pub fn widget_format(config: &Config) -> (res: Result<Format, Error>)
    ensures
        res matches Ok(f) && f@.short_text is None && f@.full_text == Some(
            match opt_view(config.format) {
                Some(f) => f,
                None => "$title $status"@,
            },
        ),
{
    match &config.format {
        Some(f) => Format::from_str(f.as_str()),
        None => Format::from_str("$title $status"),
    }
}

/// The state and placeholders for whether the path exists: normal and
/// `yes`, or critical and `no`.
pub fn path_status(config: &Config, exists: bool) -> (res: (WidgetState, Placeholders))
    ensures
        res.0 == (if exists { WidgetState::Normal } else { WidgetState::Critical }),
        res.1@ == seq![("$title"@, config.title@), ("$status"@, if exists { "yes"@ } else { "no"@ })],
{
    proof {
        reveal_strlit("$title");
        reveal_strlit("$status");
    }
    let (state, status) = if exists {
        (WidgetState::Normal, "yes")
    } else {
        (WidgetState::Critical, "no")
    };
    let mut p = Placeholders::new();
    p.insert(String::from_str("$title"), config.title.clone());
    assert(p@ =~= seq![("$title"@, config.title@)]);
    assert(p@[0].0.len() != "$status"@.len());
    p.insert(String::from_str("$status"), String::from_str(status));
    assert(p@ =~= seq![("$title"@, config.title@), ("$status"@, if exists { "yes"@ } else { "no"@ })]);
    (state, p)
}

} // verus!
