//! Bare process IDs: the identifier is the number of a process, which has to
//! be alive.

use vstd::prelude::*;
use libc::pid_t;
use crate::error::{lift, system_failure, unreadable, ErrorKind, ErrorView, LookupError};
use crate::number::{decimal, law_written_pid_is_read, parse_pid, pid_of, pid_text};
use crate::text::{join2, join3, to_chars};
use crate::tools::Tools;

verus! {

/// The identifier as a bare process ID.
#[derive(Clone, Copy, Debug)]
pub struct ProcessId {}

/// The directory in which the system shows its processes, unless the caller
/// names another.
pub const DEFAULT_ROOT: &'static str = "/proc";

/// What a look at the entry of a process showed.
#[derive(Debug)]
pub enum Probe {
    /// The entry is there.
    Exists,
    /// There is no such entry.
    Missing,
    /// The system could not tell, for the reason given.
    Failed(String),
}

/// A `Probe` as contracts speak of it.
pub enum ProbeView {
    Exists,
    Missing,
    Failed(Seq<char>),
}

impl View for Probe {
    type V = ProbeView;

    open spec fn view(&self) -> ProbeView {
        match self {
            Probe::Exists => ProbeView::Exists,
            Probe::Missing => ProbeView::Missing,
            Probe::Failed(cause) => ProbeView::Failed(cause@),
        }
    }
}

/// The entry of the process `pid` below the directory `root`.
pub open spec fn entry_path(root: Seq<char>, pid: pid_t) -> Seq<char> {
    root + "/"@ + decimal(pid as int)
}

/// That `id` is no process ID.
pub open spec fn invalid_pid(id: Seq<char>) -> ErrorView {
    ErrorView {
        kind: ErrorKind::ParseError,
        message: "'"@ + id + "' is not a valid PID (process ID)"@,
    }
}

/// That no process has the ID `pid`.
pub open spec fn no_process(pid: pid_t) -> ErrorView {
    ErrorView {
        kind: ErrorKind::NotFound,
        message: "no process with PID "@ + decimal(pid as int) + " found"@,
    }
}

/// The process ID that `id` writes.
pub open spec fn parsed(id: Seq<char>) -> Result<pid_t, ErrorView> {
    match pid_of(id) {
        Some(pid) => Ok(pid),
        None => Err(invalid_pid(id)),
    }
}

/// What the identifier `id` resolves to, `probe` being what a look at the
/// entry of the process showed: the process ID that `id` writes where
/// the process is alive.
pub open spec fn resolved(id: Seq<char>, probe: ProbeView) -> Result<pid_t, ErrorView> {
    match pid_of(id) {
        None => Err(invalid_pid(id)),
        Some(pid) => match probe {
            ProbeView::Exists => Ok(pid),
            ProbeView::Missing => Err(no_process(pid)),
            ProbeView::Failed(cause) => Err(
                system_failure("failed to lookup process "@ + decimal(pid as int), cause),
            ),
        },
    }
}

/// The identifier that writes the ID of a live process resolves to that ID,
/// and the one that writes an ID that no process has is not found.
pub proof fn law_written_pid_resolves(pid: pid_t)
    ensures
        resolved(decimal(pid as int), ProbeView::Exists) == Ok::<pid_t, ErrorView>(pid),
        resolved(decimal(pid as int), ProbeView::Missing) == Err::<pid_t, ErrorView>(
            no_process(pid),
        ),
{
    law_written_pid_is_read(pid);
}

impl ProcessId {
    /// Reads the identifier as a process ID.
    pub fn parse(&self, container_id: &str) -> (pid: Result<pid_t, LookupError>)
        ensures
            lift(pid) == parsed(container_id@),
    {
        let chars = to_chars(container_id);
        match parse_pid(chars.as_slice()) {
            Some(pid) => Ok(pid),
            None => Err(
                LookupError::new(
                    ErrorKind::ParseError,
                    join3("'", container_id, "' is not a valid PID (process ID)"),
                ),
            ),
        }
    }

    /// The path of the entry that the process `pid` has below `root` while it
    /// is alive.
    pub fn entry(&self, root: &str, pid: pid_t) -> (path: String)
        ensures
            path@ == entry_path(root@, pid),
    {
        let number = pid_text(pid);
        join3(root, "/", number.as_str())
    }

    /// Resolves the identifier, given what a look at the entry of its process
    /// showed.
    pub fn lookup(&self, container_id: &str, probe: &Probe) -> (pid: Result<pid_t, LookupError>)
        ensures
            lift(pid) == resolved(container_id@, probe@),
    {
        let pid = self.parse(container_id)?;
        match probe {
            Probe::Exists => Ok(pid),
            Probe::Missing => {
                let number = pid_text(pid);
                Err(
                    LookupError::new(
                        ErrorKind::NotFound,
                        join3("no process with PID ", number.as_str(), " found"),
                    ),
                )
            },
            Probe::Failed(cause) => {
                let number = pid_text(pid);
                let what = join2("failed to lookup process ", number.as_str());
                Err(unreadable(what.as_str(), cause.as_str()))
            },
        }
    }

    /// Bare process IDs need no program.
    pub fn check_required_tools(&self, tools: &Tools) -> (checked: Result<(), LookupError>)
        ensures
            checked is Ok,
    {
        Ok(())
    }
}

} // verus!
