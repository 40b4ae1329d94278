//! What the log setup decides from the command line: which file is written
//! and how much goes to standard output.

use vstd::prelude::*;
use crate::cli::Args;
use crate::cli::ArgsView;
use crate::cli::ServiceName;
use crate::service::definition_of;

verus! {

/// The name of the log file for a command line: the service's name for a
/// daemon, a name of its own for the relay, and the program's name else.
pub open spec fn log_file_name(args: ArgsView) -> Seq<char> {
    match args.service {
        Some(service) => definition_of(service).name@ + ".log"@,
        None => if args.native_messaging {
            "native-messaging.log"@
        } else {
            "loft.log"@
        },
    }
}

/// The name of the log file for a command line.
pub fn log_filename(args: &Args) -> (name: String)
    ensures
        name@ == log_file_name(args@),
{
    match args.service {
        Some(service) => {
            let mut name = String::from_str(service.name());
            name.append(".log");
            name
        },
        None => if args.native_messaging {
            String::from_str("native-messaging.log")
        } else {
            String::from_str("loft.log")
        },
    }
}

/// The level that goes to standard output: everything for a verbose run,
/// else information and above. The relay logs nothing there, because its
/// standard output carries the messages to the browser.
pub fn stdout_filter(args: &Args) -> (filter: Option<&'static str>)
    ensures
        match filter {
            None => args.native_messaging,
            Some(level) => !args.native_messaging && level@ == (if args.verbose {
                "trace"@
            } else {
                "info"@
            }),
        },
{
    if args.native_messaging {
        None
    } else if args.verbose {
        Some("trace")
    } else {
        Some("info")
    }
}

/// The level that goes to the log file.
pub const FILE_FILTER: &'static str = "debug";

} // verus!
