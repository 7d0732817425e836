//! Whether the process of a pidfile runs, such as a VPN client.
use vstd::prelude::*;

use crate::errors::{opt_view, Error};
use crate::formatting::{Format, Placeholders};
use crate::widget::WidgetState;

verus! {

/// The settings of the module.
#[derive(Clone, Debug)]
pub struct Config {
    /// What replaces `$title`.
    pub title: String,
    /// The format where the process runs (`"$title: $status"` where there
    /// is none).
    pub format: Option<String>,
    /// The format where it does not (the other format where there is none).
    pub format_down: Option<String>,
    /// The path of the pidfile, or a glob pattern of paths.
    pub pidfile: String,
}

/// The formats of the widget where the process runs and where it does not.
pub fn widget_formats(config: &Config) -> (res: Result<(Format, Format), Error>)
    ensures
        res matches Ok((up, down)) && {
            let up_text = match opt_view(config.format) {
                Some(f) => f,
                None => "$title: $status"@,
            };
            &&& up@.full_text == Some(up_text)
            &&& up@.short_text is None
            &&& down@.full_text == Some(
                match opt_view(config.format_down) {
                    Some(f) => f,
                    None => up_text,
                },
            )
            &&& down@.short_text is None
        },
{
    let format = match &config.format {
        Some(f) => Format::from_str(f.as_str())?,
        None => Format::from_str("$title: $status")?,
    };
    let format_down = match &config.format_down {
        Some(f) => Format::from_str(f.as_str())?,
        None => format.clone(),
    };
    Ok((format, format_down))
}

/// The text of `$status`: `yes` where the process runs, `no` otherwise,
/// also where that could not be told.
pub open spec fn watch_status_text(status: Result<bool, Error>) -> Seq<char> {
    match status {
        Ok(true) => "yes"@,
        _ => "no"@,
    }
}

/// The state, whether the format for a process that does not run is
/// shown, and the placeholders: normal where the process runs, critical
/// otherwise.
pub fn watch_status(config: &Config, status: &Result<bool, Error>) -> (res: (WidgetState, bool, Placeholders))
    ensures
        res.0 == (if *status == Ok::<bool, Error>(true) { WidgetState::Normal } else { WidgetState::Critical }),
        res.1 == (*status != Ok::<bool, Error>(true)),
        res.2@ == seq![("$title"@, config.title@), ("$status"@, watch_status_text(*status))],
{
    proof {
        reveal_strlit("$title");
        reveal_strlit("$status");
        reveal_strlit("yes");
        reveal_strlit("no");
    }
    let runs = match status {
        Ok(true) => true,
        _ => false,
    };
    let text = match status {
        Ok(true) => String::from_str("yes"),
        _ => String::from_str("no"),
    };
    let mut p = Placeholders::new();
    p.insert(String::from_str("$title"), config.title.clone());
    assert(p@ =~= seq![("$title"@, config.title@)]);
    assert(p@[0].0.len() != "$status"@.len());
    p.insert(String::from_str("$status"), text);
    assert(p@ =~= seq![("$title"@, config.title@), ("$status"@, watch_status_text(*status))]);
    if runs {
        (WidgetState::Normal, false, p)
    } else {
        (WidgetState::Critical, true, p)
    }
}

} // verus!
