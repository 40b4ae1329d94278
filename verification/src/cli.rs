//! The command line of the program.
//!
//! After the program's name come options in any order: `--service <name>`
//! (or `--service=<name>`) with `whatsapp` or `messenger`,
//! `--native-messaging`, `--minimized`, and `--verbose` or `-v`. The first
//! argument that is no option, and everything after it, is kept as it is:
//! the browser passes the extension's origin to the relay this way. `--`
//! ends the options too.

use vstd::prelude::*;
use crate::text::str_eq;
use crate::text::texts;

verus! {

/// Which service a daemon instance runs.
#[derive(Clone, Copy, Debug, PartialEq, Eq, Structural)]
pub enum ServiceName {
    Whatsapp,
    Messenger,
}

/// What the command line asks for.
#[derive(Debug)]
pub struct Args {
    /// Run the daemon of this service.
    pub service: Option<ServiceName>,
    /// Run as the browser's native-messaging companion.
    pub native_messaging: bool,
    /// Start with the window hidden.
    pub minimized: bool,
    /// Log in full detail.
    pub verbose: bool,
    /// The arguments after the options.
    pub extra: Vec<String>,
}

/// The mathematical value of an [`Args`].
pub struct ArgsView {
    pub service: Option<ServiceName>,
    pub native_messaging: bool,
    pub minimized: bool,
    pub verbose: bool,
    pub extra: Seq<Seq<char>>,
}

impl View for Args {
    type V = ArgsView;

    open spec fn view(&self) -> ArgsView {
        ArgsView {
            service: self.service,
            native_messaging: self.native_messaging,
            minimized: self.minimized,
            verbose: self.verbose,
            extra: texts(self.extra@),
        }
    }
}

/// Why a command line was refused. An index counts the arguments from the
/// program's name, which is number 0.
#[derive(Debug, Clone, Copy, PartialEq, Eq, Structural)]
pub enum CliError {
    /// The option at `index` needs a value and the command line ends there.
    MissingValue { index: usize },
    /// The argument at `index` gives `--service` a name that is no service.
    InvalidValue { index: usize },
    /// The option at `index` is not known.
    UnknownArgument { index: usize },
    /// The option at `index` was given before.
    Repeated { index: usize },
    /// Help was asked for.
    HelpRequested,
}

/// The command line of a program that was started without arguments.
pub open spec fn no_args() -> ArgsView {
    ArgsView {
        service: None,
        native_messaging: false,
        minimized: false,
        verbose: false,
        extra: Seq::empty(),
    }
}

/// The service that `name` names on the command line.
pub open spec fn service_named(name: Seq<char>) -> Option<ServiceName> {
    if name == "whatsapp"@ {
        Some(ServiceName::Whatsapp)
    } else if name == "messenger"@ {
        Some(ServiceName::Messenger)
    } else {
        None
    }
}

/// Whether an argument has the look of an option: a `-` and more.
pub open spec fn is_option_like(arg: Seq<char>) -> bool {
    arg.len() >= 2 && arg[0] == '-'
}

/// Whether an argument is `--service=` with a value behind it.
pub open spec fn is_service_assignment(arg: Seq<char>) -> bool {
    arg.len() >= 10 && arg.subrange(0, 10) == "--service="@
}

/// What the arguments from number `from` on ask for, on top of `seen`.
pub open spec fn parse_from(args: Seq<Seq<char>>, from: int, seen: ArgsView) -> Result<
    ArgsView,
    CliError,
>
    decreases args.len() - from,
{
    if from < 0 || from >= args.len() {
        Ok(seen)
    } else {
        let arg = args[from];
        if arg == "--"@ {
            Ok(ArgsView { extra: args.skip(from + 1), ..seen })
        } else if arg == "--service"@ {
            if seen.service is Some {
                Err(CliError::Repeated { index: from as usize })
            } else if from + 1 >= args.len() {
                Err(CliError::MissingValue { index: from as usize })
            } else {
                match service_named(args[from + 1]) {
                    Some(service) => parse_from(
                        args,
                        from + 2,
                        ArgsView { service: Some(service), ..seen },
                    ),
                    None => Err(CliError::InvalidValue { index: (from + 1) as usize }),
                }
            }
        } else if is_service_assignment(arg) {
            if seen.service is Some {
                Err(CliError::Repeated { index: from as usize })
            } else {
                match service_named(arg.skip(10)) {
                    Some(service) => parse_from(
                        args,
                        from + 1,
                        ArgsView { service: Some(service), ..seen },
                    ),
                    None => Err(CliError::InvalidValue { index: from as usize }),
                }
            }
        } else if arg == "--native-messaging"@ {
            if seen.native_messaging {
                Err(CliError::Repeated { index: from as usize })
            } else {
                parse_from(args, from + 1, ArgsView { native_messaging: true, ..seen })
            }
        } else if arg == "--minimized"@ {
            if seen.minimized {
                Err(CliError::Repeated { index: from as usize })
            } else {
                parse_from(args, from + 1, ArgsView { minimized: true, ..seen })
            }
        } else if arg == "--verbose"@ || arg == "-v"@ {
            if seen.verbose {
                Err(CliError::Repeated { index: from as usize })
            } else {
                parse_from(args, from + 1, ArgsView { verbose: true, ..seen })
            }
        } else if arg == "--help"@ || arg == "-h"@ {
            Err(CliError::HelpRequested)
        } else if is_option_like(arg) {
            Err(CliError::UnknownArgument { index: from as usize })
        } else {
            Ok(ArgsView { extra: args.skip(from), ..seen })
        }
    }
}

/// What a command line asks for. Its first argument is the program's name.
pub open spec fn parsed(args: Seq<Seq<char>>) -> Result<ArgsView, CliError> {
    parse_from(args, 1, no_args())
}

/// The views of a sequence of string slices.
pub open spec fn slices(args: Seq<&str>) -> Seq<Seq<char>> {
    args.map_values(|a: &str| a@)
}

/// The service that `name` names on the command line.
pub fn service_from_name(name: &str) -> (service: Option<ServiceName>)
    ensures
        service == service_named(name@),
{
    if str_eq(name, "whatsapp") {
        Some(ServiceName::Whatsapp)
    } else if str_eq(name, "messenger") {
        Some(ServiceName::Messenger)
    } else {
        None
    }
}

fn copy_from(args: &[&str], from: usize) -> (copied: Vec<String>)
    requires
        from <= args@.len(),
    ensures
        texts(copied@) == slices(args@).skip(from as int),
{
    let mut copied: Vec<String> = Vec::new();
    let mut i: usize = from;
    while i < args.len()
        invariant
            from <= i <= args@.len(),
            texts(copied@) == slices(args@).subrange(from as int, i as int),
        decreases args@.len() - i,
    {
        let ghost before = copied@;
        copied.push(String::from_str(args[i]));
        assert(texts(copied@) =~= texts(before).push(args@[i as int]@));
        assert(slices(args@).subrange(from as int, i + 1) =~= slices(args@).subrange(
            from as int,
            i as int,
        ).push(args@[i as int]@));
        i += 1;
    }
    assert(slices(args@).subrange(from as int, args@.len() as int) =~= slices(args@).skip(
        from as int,
    ));
    copied
}

impl Args {
    /// Reads a command line. Its first argument is the program's name.
    #[verifier::loop_isolation(false)]
    pub fn try_parse_from(args: &[&str]) -> (result: Result<Args, CliError>)
        ensures
            match result {
                Ok(parsed_args) => parsed(slices(args@)) == Ok::<ArgsView, CliError>(parsed_args@),
                Err(e) => parsed(slices(args@)) == Err::<ArgsView, CliError>(e),
            },
    {
        let ghost all = slices(args@);
        let mut service: Option<ServiceName> = None;
        let mut native_messaging = false;
        let mut minimized = false;
        let mut verbose = false;
        let mut i: usize = 1;
        if args.len() == 0 {
            assert(texts(Seq::<String>::empty()) =~= Seq::<Seq<char>>::empty());
            return Ok(
                Args { service, native_messaging, minimized, verbose, extra: Vec::new() },
            );
        }
        while i < args.len()
            invariant
                1 <= i <= args@.len(),
                parsed(all) == parse_from(
                    all,
                    i as int,
                    ArgsView { service, native_messaging, minimized, verbose, extra: Seq::empty() },
                ),
            decreases args@.len() - i,
        {
            let arg = args[i];
            assert(all[i as int] == arg@);
            let len = arg.unicode_len();
            if str_eq(arg, "--") {
                let extra = copy_from(args, i + 1);
                return Ok(Args { service, native_messaging, minimized, verbose, extra });
            } else if str_eq(arg, "--service") {
                if service.is_some() {
                    return Err(CliError::Repeated { index: i });
                }
                if i + 1 >= args.len() {
                    return Err(CliError::MissingValue { index: i });
                }
                assert(all[i + 1] == args@[i + 1]@);
                match service_from_name(args[i + 1]) {
                    Some(named) => {
                        service = Some(named);
                        i += 2;
                    },
                    None => {
                        return Err(CliError::InvalidValue { index: i + 1 });
                    },
                }
            } else if len >= 10 && str_eq(arg.substring_char(0, 10), "--service=") {
                if service.is_some() {
                    return Err(CliError::Repeated { index: i });
                }
                assert(arg@.subrange(10, len as int) == arg@.skip(10));
                match service_from_name(arg.substring_char(10, len)) {
                    Some(named) => {
                        service = Some(named);
                        i += 1;
                    },
                    None => {
                        return Err(CliError::InvalidValue { index: i });
                    },
                }
            } else if str_eq(arg, "--native-messaging") {
                if native_messaging {
                    return Err(CliError::Repeated { index: i });
                }
                native_messaging = true;
                i += 1;
            } else if str_eq(arg, "--minimized") {
                if minimized {
                    return Err(CliError::Repeated { index: i });
                }
                minimized = true;
                i += 1;
            } else if str_eq(arg, "--verbose") || str_eq(arg, "-v") {
                if verbose {
                    return Err(CliError::Repeated { index: i });
                }
                verbose = true;
                i += 1;
            } else if str_eq(arg, "--help") || str_eq(arg, "-h") {
                return Err(CliError::HelpRequested);
            } else if len >= 2 && arg.get_char(0) == '-' {
                return Err(CliError::UnknownArgument { index: i });
            } else {
                let extra = copy_from(args, i);
                return Ok(Args { service, native_messaging, minimized, verbose, extra });
            }
        }
        assert(texts(Seq::<String>::empty()) =~= Seq::<Seq<char>>::empty());
        Ok(Args { service, native_messaging, minimized, verbose, extra: Vec::new() })
    }
}

/// What the program runs as.
#[derive(Debug, Clone, Copy, PartialEq, Eq, Structural)]
pub enum RunMode {
    /// The browser's native-messaging companion.
    Relay,
    /// The daemon of a service.
    Daemon { service: ServiceName, minimized: bool },
    /// The window in which services are installed and configured.
    Manager,
}

/// What a command line makes the program run as: the relay if it asks for
/// one, else the daemon of the service it names, else the manager.
pub open spec fn mode_of(args: ArgsView) -> RunMode {
    if args.native_messaging {
        RunMode::Relay
    } else {
        match args.service {
            Some(service) => RunMode::Daemon { service, minimized: args.minimized },
            None => RunMode::Manager,
        }
    }
}

impl Args {
    /// What this command line makes the program run as.
    pub fn mode(&self) -> (mode: RunMode)
        ensures
            mode == mode_of(self@),
    {
        if self.native_messaging {
            RunMode::Relay
        } else {
            match self.service {
                Some(service) => RunMode::Daemon { service, minimized: self.minimized },
                None => RunMode::Manager,
            }
        }
    }
}

} // verus!
