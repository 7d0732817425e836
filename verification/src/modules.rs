//! The modules: each watches one thing and renders it in a widget. What
//! stands here is what they decide; reading the system and waiting for the
//! next tick is done by their runners.
use vstd::prelude::*;

pub mod battery;
pub mod disk;
pub mod file_contents;
pub mod memory;
pub mod path_exists;
pub mod run_watch;
pub mod time;
pub mod volume;
pub mod wireless;

verus! {

/// A module.
#[derive(Clone, Copy, Debug, Default)]
pub struct Module;

impl Module {
    /// A module.
    pub fn new() -> (res: Module) {
        Module
    }
}

} // verus!
