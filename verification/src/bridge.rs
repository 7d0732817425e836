//! The requests that modules send to the bar.
use vstd::prelude::*;

use crate::widget::Widget;

verus! {

/// A request from a module to the bar.
#[derive(Clone, Debug)]
pub enum Request {
    /// Sets the widget of the module with the given id.
    SetWidget { id: usize, widget: Widget },
}

} // verus!
