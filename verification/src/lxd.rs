//! Containers of LXD, asked about through `lxc info`.

use vstd::prelude::*;
use libc::pid_t;
use crate::error::{lift, ErrorKind, ErrorView, LookupError};
use crate::number::{parse_pid, pid_of};
use crate::output::{
    ended_badly, exit_failure, lossy_chars, lossy_text, not_started, ran_view, start_failure,
    text_of, CommandOutput, OutputView,
};
use crate::seqs::{after, find_byte, occurs, split, split_bytes, views};
use crate::text::{
    find_keyed_row, join3, join5, keyed_row, texts, trim, trim_end, trim_end_of, trim_of,
    trim_start, trim_start_of, COLON, NEWLINE,
};
use crate::tools::{require_tool, tool_missing, Tools};

verus! {

/// The runtime LXD.
#[derive(Clone, Copy, Debug)]
pub struct Lxd {}

/// The command that asks about the container `id`.
pub open spec fn query(id: Seq<char>) -> Seq<Seq<char>> {
    seq!["lxc"@, "info"@, id]
}

/// That no line of the output is that of the process ID.
pub open spec fn no_pid_field(id: Seq<char>) -> ErrorView {
    ErrorView {
        kind: ErrorKind::ParseError,
        message: "no 'Pid' field found in lxd info output for container '"@ + id + "'"@,
    }
}

/// That the line of the process ID has no colon.
pub open spec fn unexpected_format() -> ErrorView {
    ErrorView {
        kind: ErrorKind::ParseError,
        message: "unexpected format in 'Pid' field from lxc info"@,
    }
}

/// That `text` is no process ID.
pub open spec fn invalid_pid(text: Seq<char>, id: Seq<char>) -> ErrorView {
    ErrorView {
        kind: ErrorKind::ParseError,
        message: "invalid PID '"@ + trim(text) + "' from lxd for container '"@ + id + "'"@,
    }
}

/// What the answer `ran` of `lxc info` says of the container `id`. The
/// process ID stands in the first line that has `Pid` before its first
/// colon, after that colon, and white space may precede it.
pub open spec fn answer(id: Seq<char>, ran: Result<OutputView, Seq<char>>) -> Result<
    pid_t,
    ErrorView,
> {
    match ran {
        Err(cause) => Err(not_started("failed to execute 'lxc info'"@, cause)),
        Ok(output) => if !output.succeeded() {
            Err(
                ended_badly(
                    "lxc info command failed"@,
                    output.status,
                    trim_end(lossy_text(output.stderr)),
                ),
            )
        } else {
            let lines = split(output.stdout, NEWLINE);
            let row = keyed_row(lines, COLON, "Pid"@);
            if row == lines.len() {
                Err(no_pid_field(id))
            } else if !occurs(lines[row], COLON) {
                Err(unexpected_format())
            } else {
                let text = lossy_text(after(lines[row], COLON));
                match pid_of(trim_start(text)) {
                    Some(pid) => Ok(pid),
                    None => Err(invalid_pid(text, id)),
                }
            }
        },
    }
}

/// Whether the tools of this backend are among `tools`, and what is
/// missing if they are not.
pub open spec fn tools_needed(tools: Tools) -> Result<(), ErrorView> {
    if tools.lxc {
        Ok(())
    } else {
        Err(tool_missing("LXD runtime not found: 'lxc' command is not available"@))
    }
}

impl Lxd {
    /// Builds the command that asks about the container.
    pub fn command(&self, container_id: &str) -> (argv: Vec<String>)
        ensures
            texts(argv@) == query(container_id@),
    {
        let mut argv: Vec<String> = Vec::new();
        argv.push(String::from_str("lxc"));
        argv.push(String::from_str("info"));
        argv.push(String::from_str(container_id));
        assert(texts(argv@) =~= query(container_id@));
        argv
    }

    /// Reads the answer of `lxc info`: the process ID of the container.
    pub fn lookup(&self, container_id: &str, ran: &Result<CommandOutput, String>) -> (pid: Result<
        pid_t,
        LookupError,
    >)
        ensures
            lift(pid) == answer(container_id@, ran_view(*ran)),
    {
        match ran {
            Err(cause) => Err(start_failure("failed to execute 'lxc info'", cause.as_str())),
            Ok(output) => {
                if !output.success() {
                    let said = lossy_chars(output.stderr.as_slice());
                    let detail = text_of(trim_end_of(said.as_slice()));
                    return Err(
                        exit_failure(
                            "lxc info command failed",
                            output.status.as_str(),
                            detail.as_str(),
                        ),
                    );
                }
                let lines = split_bytes(output.stdout.as_slice(), NEWLINE);
                let row = find_keyed_row(&lines, COLON, "Pid");
                if row == lines.len() {
                    return Err(
                        LookupError::new(
                            ErrorKind::ParseError,
                            join3(
                                "no 'Pid' field found in lxd info output for container '",
                                container_id,
                                "'",
                            ),
                        ),
                    );
                }
                let line = lines[row];
                assert(views(lines@)[row as int] == line@);
                let cut = find_byte(line, COLON);
                if cut == line.len() {
                    return Err(
                        LookupError::new(
                            ErrorKind::ParseError,
                            String::from_str("unexpected format in 'Pid' field from lxc info"),
                        ),
                    );
                }
                let text = lossy_chars(vstd::slice::slice_subrange(line, cut + 1, line.len()));
                match parse_pid(trim_start_of(text.as_slice())) {
                    Some(pid) => Ok(pid),
                    None => {
                        let shown = text_of(trim_of(text.as_slice()));
                        Err(
                            LookupError::new(
                                ErrorKind::ParseError,
                                join5(
                                    "invalid PID '",
                                    shown.as_str(),
                                    "' from lxd for container '",
                                    container_id,
                                    "'",
                                ),
                            ),
                        )
                    },
                }
            },
        }
    }

    /// Whether LXD can be asked: `lxc` has to be installed.
    pub fn check_required_tools(&self, tools: &Tools) -> (checked: Result<(), LookupError>)
        ensures
            lift(checked) == tools_needed(*tools),
    {
        require_tool(tools.lxc, "LXD runtime not found: 'lxc' command is not available")
    }
}

} // verus!
