//! `honeybee` is a status line in the manner of i3status: it speaks the
//! i3bar protocol, and also writes status lines for dzen2, xmobar and lemonbar.
//! This crate holds its logic: units, formats and placeholders, colors,
//! widgets and their rendering, the bar's state, and the parsers and
//! decisions of the modules.
use vstd::prelude::*;

pub mod bar;
pub mod bridge;
pub mod config;
pub mod errors;
pub mod formatting;
pub mod modules;
pub mod net_iface;
pub mod output;
pub mod pango;
pub mod protocol;
pub mod text;
pub mod timer;
pub mod units;
pub mod utils;
pub mod widget;

verus! {

/// The command line arguments.
#[derive(Clone, Debug)]
pub struct CliArgs {
    /// The configuration file; an absolute path is used as it is (with tilde
    /// expansion), else the usual places are searched.
    pub config_file: String,
    /// Whether colors are disabled.
    pub no_colors: bool,
    /// Whether to stop after the first status line.
    pub run_once: bool,
    /// The maximum number of blocking threads.
    pub num_threads: usize,
}

impl Default for CliArgs {
    fn default() -> (res: CliArgs)
        ensures
            res.config_file@ == "honeybee.toml"@,
            !res.no_colors,
            !res.run_once,
            res.num_threads == 5,
    {
        CliArgs { config_file: String::from_str("honeybee.toml"), no_colors: false, run_once: false, num_threads: 5 }
    }
}

} // verus!
