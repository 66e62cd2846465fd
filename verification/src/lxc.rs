//! Containers of LXC, asked about through `lxc-info`.

use vstd::prelude::*;
use libc::pid_t;
use crate::error::{lift, ErrorKind, ErrorView, LookupError};
use crate::number::{parse_pid, pid_of};
use crate::output::{
    ended_badly, exit_failure, lossy_chars, lossy_text, not_started, ran_view, start_failure,
    text_of, CommandOutput, OutputView,
};
use crate::text::{join5, texts, trim, trim_of, trim_start, trim_start_of};
use crate::tools::{require_tool, tool_missing, Tools};

verus! {

/// The runtime LXC.
#[derive(Clone, Copy, Debug)]
pub struct Lxc {}

/// The command that asks for the first process of the container `id`.
pub open spec fn query(id: Seq<char>) -> Seq<Seq<char>> {
    seq!["lxc-info"@, "--no-humanize"@, "--pid"@, "--name"@, id]
}

/// That `text` is no process ID, though `lxc-info` printed it for `id`.
pub open spec fn invalid_pid(text: Seq<char>, id: Seq<char>) -> ErrorView {
    ErrorView {
        kind: ErrorKind::ParseError,
        message: "invalid PID '"@ + trim(text) + "' from lxc-info for container '"@
            + id + "'"@,
    }
}

/// What the answer `ran` of `lxc-info` says of the container `id`. The
/// output is a process ID, which white space may precede and follow.
pub open spec fn answer(id: Seq<char>, ran: Result<OutputView, Seq<char>>) -> Result<
    pid_t,
    ErrorView,
> {
    match ran {
        Err(cause) => Err(not_started("failed to execute 'lxc-info'"@, cause)),
        Ok(output) => if !output.succeeded() {
            Err(
                ended_badly(
                    "lxc-info command failed"@,
                    output.status,
                    trim_start(lossy_text(output.stderr)),
                ),
            )
        } else {
            match pid_of(trim(lossy_text(output.stdout))) {
                Some(pid) => Ok(pid),
                None => Err(invalid_pid(lossy_text(output.stdout), id)),
            }
        },
    }
}

/// Whether the tools of this backend are among `tools`, and what is
/// missing if they are not.
pub open spec fn tools_needed(tools: Tools) -> Result<(), ErrorView> {
    if tools.lxc_info {
        Ok(())
    } else {
        Err(tool_missing("LXC runtime not found: 'lxc-info' command is not available"@))
    }
}

impl Lxc {
    /// Builds the command that asks for the first process of the container.
    pub fn command(&self, container_id: &str) -> (argv: Vec<String>)
        ensures
            texts(argv@) == query(container_id@),
    {
        let mut argv: Vec<String> = Vec::new();
        argv.push(String::from_str("lxc-info"));
        argv.push(String::from_str("--no-humanize"));
        argv.push(String::from_str("--pid"));
        argv.push(String::from_str("--name"));
        argv.push(String::from_str(container_id));
        assert(texts(argv@) =~= query(container_id@));
        argv
    }

    /// Reads the answer of `lxc-info`: the process ID of the container.
    pub fn lookup(&self, container_id: &str, ran: &Result<CommandOutput, String>) -> (pid: Result<
        pid_t,
        LookupError,
    >)
        ensures
            lift(pid) == answer(container_id@, ran_view(*ran)),
    {
        match ran {
            Err(cause) => Err(start_failure("failed to execute 'lxc-info'", cause.as_str())),
            Ok(output) => {
                if !output.success() {
                    let said = lossy_chars(output.stderr.as_slice());
                    let detail = text_of(trim_start_of(said.as_slice()));
                    return Err(
                        exit_failure(
                            "lxc-info command failed",
                            output.status.as_str(),
                            detail.as_str(),
                        ),
                    );
                }
                let text = lossy_chars(output.stdout.as_slice());
                let number = trim_of(text.as_slice());
                match parse_pid(number) {
                    Some(pid) => Ok(pid),
                    None => {
                        let shown = text_of(number);
                        Err(
                            LookupError::new(
                                ErrorKind::ParseError,
                                join5(
                                    "invalid PID '",
                                    shown.as_str(),
                                    "' from lxc-info for container '",
                                    container_id,
                                    "'",
                                ),
                            ),
                        )
                    },
                }
            },
        }
    }

    /// Whether LXC can be asked: `lxc-info` has to be installed.
    pub fn check_required_tools(&self, tools: &Tools) -> (checked: Result<(), LookupError>)
        ensures
            lift(checked) == tools_needed(*tools),
    {
        require_tool(tools.lxc_info, "LXC runtime not found: 'lxc-info' command is not available")
    }
}

} // verus!
