//! The command line as plain values, and what follows from it: the log
//! filter, and the course of a request to stop the running control plane.

use vstd::prelude::*;

verus! {

/// The arguments of one invocation.
#[derive(Debug, Clone)]
pub struct Args {
    /// The project directory to open, if one was given.
    pub project: Option<String>,
    /// Whether debug mode was asked for.
    pub debug: bool,
    /// The log filter directives, if any were given.
    pub log_filter: Option<String>,
    /// The file that the log goes to, besides the terminal.
    pub log_file: Option<String>,
    /// Whether to tell the running control plane to stop, and exit.
    pub kill: bool,
}

/// What an invocation does about a request to stop the control plane.
#[derive(Debug, Clone, Copy, PartialEq, Eq, Structural)]
pub enum KillAction {
    /// No stop was asked for: go on with the start.
    Proceed,
    /// Read the process ID from the lock file of the control plane.
    ReadPid,
    /// Publish a shutdown command addressed to this process.
    Send(u32),
    /// End the process with this exit code.
    Exit(i32),
}

/// What the invocation learnt since its last action.
#[derive(Debug, Clone, Copy, PartialEq, Eq, Structural)]
pub enum KillEvent {
    /// Nothing yet: the invocation has just begun.
    Begin,
    /// The lock file named this process, 0 for none.
    PidRead(u32),
    /// Whether the shutdown command was confirmed to have left.
    Sent(bool),
}

/// The action that follows `event` for an invocation whose stop flag is
/// `kill`.
pub open spec fn kill_next(kill: bool, event: KillEvent) -> KillAction {
    if !kill {
        KillAction::Proceed
    } else {
        match event {
            KillEvent::Begin => KillAction::ReadPid,
            KillEvent::PidRead(pid) => if pid == 0 {
                KillAction::Exit(1)
            } else {
                KillAction::Send(pid)
            },
            KillEvent::Sent(delivered) => if delivered {
                KillAction::Exit(0)
            } else {
                KillAction::Exit(1)
            },
        }
    }
}

impl Args {
    /// The arguments with these values.
    pub fn new(
        project: Option<String>,
        debug: bool,
        log_filter: Option<String>,
        log_file: Option<String>,
        kill: bool,
    ) -> (args: Self)
        ensures
            args.project == project,
            args.debug == debug,
            args.log_filter == log_filter,
            args.log_file == log_file,
            args.kill == kill,
    {
        Args { project, debug, log_filter, log_file, kill }
    }

    /// The log filter of a build: `debug` for a debug build, `warn` for a
    /// release build.
    pub fn default_log_filter(debug_build: bool) -> (filter: &'static str)
        ensures
            filter@ == if debug_build {
                "debug"@
            } else {
                "warn"@
            },
    {
        if debug_build {
            "debug"
        } else {
            "warn"
        }
    }

    /// The filter that the command line fixes: `debug` where debug mode was
    /// asked for, else the directives given, else none.
    pub open spec fn filter_chars(&self) -> Option<Seq<char>> {
        if self.debug {
            Some("debug"@)
        } else {
            match self.log_filter {
                Some(filter) => Some(filter@),
                None => None,
            }
        }
    }

    /// The filter that the command line fixes, if it fixes one.
    pub fn effective_log_filter(&self) -> (filter: Option<&str>)
        ensures
            match filter {
                Some(text) => self.filter_chars() == Some(text@),
                None => self.filter_chars() is None,
            },
    {
        if self.debug {
            Some("debug")
        } else {
            match &self.log_filter {
                Some(filter) => Some(filter.as_str()),
                None => None,
            }
        }
    }

    /// The next action of a request to stop the control plane.
    pub fn kill_step(&self, event: KillEvent) -> (action: KillAction)
        ensures
            action == kill_next(self.kill, event),
    {
        if !self.kill {
            return KillAction::Proceed;
        }
        match event {
            KillEvent::Begin => KillAction::ReadPid,
            KillEvent::PidRead(pid) => if pid == 0 {
                KillAction::Exit(1)
            } else {
                KillAction::Send(pid)
            },
            KillEvent::Sent(delivered) => if delivered {
                KillAction::Exit(0)
            } else {
                KillAction::Exit(1)
            },
        }
    }
}

} // verus!
