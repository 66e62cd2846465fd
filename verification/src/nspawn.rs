//! Containers of systemd-nspawn, asked about through `machinectl`.

use vstd::prelude::*;
use libc::pid_t;
use crate::error::{lift, ErrorKind, ErrorView, LookupError};
use crate::number::{parse_pid, pid_of};
use crate::output::{
    ended_badly, exit_failure, lossy_chars, lossy_text, not_started, ran_view, start_failure,
    text_of, CommandOutput, OutputView,
};
use crate::seqs::{after, find_byte, occurs};
use crate::text::{join3, join5, texts, trim, trim_end, trim_end_of, trim_of, EQUALS};
use crate::tools::{require_tool, tool_missing, Tools};

verus! {

/// The runtime systemd-nspawn.
#[derive(Clone, Copy, Debug)]
pub struct Nspawn {}

/// The command that asks for the leader of the machine `id`.
pub open spec fn query(id: Seq<char>) -> Seq<Seq<char>> {
    seq!["machinectl"@, "show"@, "--property=Leader"@, id]
}

/// That the output is not a property, an equals sign and a value.
pub open spec fn unexpected_format(id: Seq<char>) -> ErrorView {
    ErrorView {
        kind: ErrorKind::ParseError,
        message: "unexpected output format from machinectl show for container '"@ + id + "'"@,
    }
}

/// That `text` is no process ID.
pub open spec fn invalid_pid(text: Seq<char>, id: Seq<char>) -> ErrorView {
    ErrorView {
        kind: ErrorKind::ParseError,
        message: "invalid PID '"@ + trim(text) + "' from machinectl for container '"@ + id + "'"@,
    }
}

/// What the answer `ran` of `machinectl` says of the machine `id`. The
/// process ID stands after the first equals sign of the output, and white
/// space may follow it.
pub open spec fn answer(id: Seq<char>, ran: Result<OutputView, Seq<char>>) -> Result<
    pid_t,
    ErrorView,
> {
    match ran {
        Err(cause) => Err(not_started("failed to execute 'machinectl show'"@, cause)),
        Ok(output) => if !output.succeeded() {
            Err(
                ended_badly(
                    "machinectl show command failed"@,
                    output.status,
                    trim_end(lossy_text(output.stderr)),
                ),
            )
        } else if !occurs(output.stdout, EQUALS) {
            Err(unexpected_format(id))
        } else {
            let text = lossy_text(after(output.stdout, EQUALS));
            match pid_of(trim_end(text)) {
                Some(pid) => Ok(pid),
                None => Err(invalid_pid(text, id)),
            }
        },
    }
}

/// Whether the tools of this backend are among `tools`, and what is
/// missing if they are not.
pub open spec fn tools_needed(tools: Tools) -> Result<(), ErrorView> {
    if tools.machinectl {
        Ok(())
    } else {
        Err(
            tool_missing(
                "systemd-nspawn runtime not found: 'machinectl' command is not available"@,
            ),
        )
    }
}

impl Nspawn {
    /// Builds the command that asks for the leader of the machine.
    pub fn command(&self, container_id: &str) -> (argv: Vec<String>)
        ensures
            texts(argv@) == query(container_id@),
    {
        let mut argv: Vec<String> = Vec::new();
        argv.push(String::from_str("machinectl"));
        argv.push(String::from_str("show"));
        argv.push(String::from_str("--property=Leader"));
        argv.push(String::from_str(container_id));
        assert(texts(argv@) =~= query(container_id@));
        argv
    }

    /// Reads the answer of `machinectl`: the process ID of the machine's
    /// leader.
    pub fn lookup(&self, container_id: &str, ran: &Result<CommandOutput, String>) -> (pid: Result<
        pid_t,
        LookupError,
    >)
        ensures
            lift(pid) == answer(container_id@, ran_view(*ran)),
    {
        match ran {
            Err(cause) => Err(start_failure("failed to execute 'machinectl show'", cause.as_str())),
            Ok(output) => {
                if !output.success() {
                    let said = lossy_chars(output.stderr.as_slice());
                    let detail = text_of(trim_end_of(said.as_slice()));
                    return Err(
                        exit_failure(
                            "machinectl show command failed",
                            output.status.as_str(),
                            detail.as_str(),
                        ),
                    );
                }
                let stdout = output.stdout.as_slice();
                let cut = find_byte(stdout, EQUALS);
                if cut == stdout.len() {
                    return Err(
                        LookupError::new(
                            ErrorKind::ParseError,
                            join3(
                                "unexpected output format from machinectl show for container '",
                                container_id,
                                "'",
                            ),
                        ),
                    );
                }
                let field = vstd::slice::slice_subrange(stdout, cut + 1, stdout.len());
                let text = lossy_chars(field);
                match parse_pid(trim_end_of(text.as_slice())) {
                    Some(pid) => Ok(pid),
                    None => {
                        let shown = text_of(trim_of(text.as_slice()));
                        Err(
                            LookupError::new(
                                ErrorKind::ParseError,
                                join5(
                                    "invalid PID '",
                                    shown.as_str(),
                                    "' from machinectl for container '",
                                    container_id,
                                    "'",
                                ),
                            ),
                        )
                    },
                }
            },
        }
    }

    /// Whether systemd-nspawn can be asked: `machinectl` has to be installed.
    pub fn check_required_tools(&self, tools: &Tools) -> (checked: Result<(), LookupError>)
        ensures
            lift(checked) == tools_needed(*tools),
    {
        require_tool(
            tools.machinectl,
            "systemd-nspawn runtime not found: 'machinectl' command is not available",
        )
    }
}

} // verus!
