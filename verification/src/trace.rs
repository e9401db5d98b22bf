//! What the log output is set up with: where the filter comes from, and
//! whether a record shows the place in the source that wrote it.

use crate::args::Args;
use crate::text::{contains, contains_str};
use vstd::prelude::*;
use vstd::string::StringExecFns;

verus! {

/// What the log output is set up with.
#[derive(Debug, Clone)]
pub struct LogSetup {
    /// The filter that the command line fixes; where it fixes none, the
    /// environment decides, and `fallback` where it does not.
    pub filter: Option<String>,
    /// The filter of the build, for when nothing else names one.
    pub fallback: String,
    /// Whether a record shows file and line, and spans show when they close.
    pub show_location: bool,
    /// The file that the log goes to, besides the terminal.
    pub log_file: Option<String>,
}

/// Whether a filter asks for so much that file and line are worth showing:
/// it does where it mentions `trace` or `debug`.
pub open spec fn is_verbose(filter: Seq<char>) -> bool {
    contains(filter, "trace"@) || contains(filter, "debug"@)
}

/// The filter that decides on the detail of a record: the one that the
/// command line fixes, else the one of the build.
pub open spec fn detail_filter(args: Args, debug_build: bool) -> Seq<char> {
    match args.filter_chars() {
        Some(filter) => filter,
        None => if debug_build {
            "debug"@
        } else {
            "warn"@
        },
    }
}

/// Whether a filter asks for file and line.
pub fn shows_location(filter: &str) -> (r: bool)
    ensures
        r == is_verbose(filter@),
{
    contains_str(filter, "trace") || contains_str(filter, "debug")
}

/// The setup of the log output for these arguments and this build.
pub fn log_setup(args: &Args, debug_build: bool) -> (setup: LogSetup)
    ensures
        match setup.filter {
            Some(filter) => args.filter_chars() == Some(filter@),
            None => args.filter_chars() is None,
        },
        setup.fallback@ == if debug_build {
            "debug"@
        } else {
            "warn"@
        },
        setup.show_location == is_verbose(detail_filter(*args, debug_build)),
        setup.log_file == args.log_file,
{
    let fallback = Args::default_log_filter(debug_build);
    let chosen = args.effective_log_filter();
    let show_location = match chosen {
        Some(filter) => shows_location(filter),
        None => shows_location(fallback),
    };
    let filter = match chosen {
        Some(text) => Some(String::from_str(text)),
        None => None,
    };
    LogSetup {
        filter,
        fallback: String::from_str(fallback),
        show_location,
        log_file: args.log_file.clone(),
    }
}

} // verus!
