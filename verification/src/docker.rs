//! Containers of Docker, asked about through `docker inspect`, or through
//! `docker-pid` where that is installed.

use vstd::prelude::*;
use vstd::utf8::encode_utf8;
use libc::pid_t;
use crate::error::{lift, ErrorKind, ErrorView, LookupError};
use crate::number::{parse_pid, pid_of};
use crate::output::{
    ended_badly, exit_failure, lossy_chars, lossy_text, not_started, ran_view, start_failure,
    text_of, CommandOutput, OutputView,
};
use crate::seqs::{after, before, find_byte, occurs};
use crate::text::{
    join2, join3, join5, join_all, joined, spells, texts, trim_end, trim_end_of, SEMICOLON,
};
use crate::tools::{require_tool, tool_missing, Tools};

verus! {

/// The runtime Docker.
#[derive(Clone, Copy, Debug)]
pub struct Docker {}

/// The format in which `inspect` is asked to print whether a container runs
/// and which process it is: `true` or `false`, a semicolon and a number.
pub const STATE_FORMAT: &'static str = "{{.State.Running}};{{.State.Pid}}";

/// The command that asks about the container `id`: `docker-pid` where it is
/// installed, `docker inspect` otherwise.
pub open spec fn query(id: Seq<char>, tools: Tools) -> Seq<Seq<char>> {
    if tools.docker_pid {
        seq!["docker-pid"@, id]
    } else {
        seq!["docker"@, "inspect"@, "--format"@, STATE_FORMAT@, id]
    }
}

/// That the output is not a state, a semicolon and a process ID.
pub open spec fn unexpected_format(id: Seq<char>) -> ErrorView {
    ErrorView {
        kind: ErrorKind::ParseError,
        message: "unexpected docker output format for container '"@ + id + "'"@,
    }
}

/// That the container exists and does not run.
pub open spec fn not_running(id: Seq<char>) -> ErrorView {
    ErrorView { kind: ErrorKind::NotFound, message: "container '"@ + id + "' is not running"@ }
}

/// That `text` is no process ID.
pub open spec fn invalid_pid(text: Seq<char>, id: Seq<char>) -> ErrorView {
    ErrorView {
        kind: ErrorKind::ParseError,
        message: "invalid PID '"@ + text + "' from docker for container '"@ + id + "'"@,
    }
}

/// What the answer `ran` to the command `cmd` says of the container `id`.
/// The output is cut at its first semicolon. Before it stands `true` for a
/// running container; after it the process ID, which white space may follow.
pub open spec fn reading(
    cmd: Seq<Seq<char>>,
    id: Seq<char>,
    ran: Result<OutputView, Seq<char>>,
) -> Result<pid_t, ErrorView> {
    let line = joined(cmd, " "@);
    match ran {
        Err(cause) => Err(not_started("failed to execute command: "@ + line, cause)),
        Ok(output) => if !output.succeeded() {
            Err(
                ended_badly(
                    "docker command failed"@,
                    output.status,
                    trim_end(lossy_text(output.stderr)) + "\nCommand: "@ + line,
                ),
            )
        } else if !occurs(output.stdout, SEMICOLON) {
            Err(unexpected_format(id))
        } else if before(output.stdout, SEMICOLON) != encode_utf8("true"@) {
            Err(not_running(id))
        } else {
            let text = trim_end(lossy_text(after(output.stdout, SEMICOLON)));
            match pid_of(text) {
                Some(pid) => Ok(pid),
                None => Err(invalid_pid(text, id)),
            }
        },
    }
}

/// Reads the answer to an `inspect` command, of Docker or of a runtime that
/// answers as Docker does: the process ID of the container.
pub fn parse_docker_output(
    cmd: &[String],
    container_id: &str,
    ran: &Result<CommandOutput, String>,
) -> (pid: Result<pid_t, LookupError>)
    ensures
        lift(pid) == reading(texts(cmd@), container_id@, ran_view(*ran)),
{
    let line = join_all(cmd, " ");
    match ran {
        Err(cause) => {
            let what = join2("failed to execute command: ", line.as_str());
            Err(start_failure(what.as_str(), cause.as_str()))
        },
        Ok(output) => {
            if !output.success() {
                let said = lossy_chars(output.stderr.as_slice());
                let shown = text_of(trim_end_of(said.as_slice()));
                let detail = join3(shown.as_str(), "\nCommand: ", line.as_str());
                return Err(
                    exit_failure("docker command failed", output.status.as_str(), detail.as_str()),
                );
            }
            let stdout = output.stdout.as_slice();
            let cut = find_byte(stdout, SEMICOLON);
            if cut == stdout.len() {
                return Err(
                    LookupError::new(
                        ErrorKind::ParseError,
                        join3("unexpected docker output format for container '", container_id, "'"),
                    ),
                );
            }
            if !spells(vstd::slice::slice_subrange(stdout, 0, cut), "true") {
                return Err(
                    LookupError::new(
                        ErrorKind::NotFound,
                        join3("container '", container_id, "' is not running"),
                    ),
                );
            }
            let field = vstd::slice::slice_subrange(stdout, cut + 1, stdout.len());
            let text = lossy_chars(field);
            let number = trim_end_of(text.as_slice());
            match parse_pid(number) {
                Some(pid) => Ok(pid),
                None => {
                    let shown = text_of(number);
                    Err(
                        LookupError::new(
                            ErrorKind::ParseError,
                            join5(
                                "invalid PID '",
                                shown.as_str(),
                                "' from docker for container '",
                                container_id,
                                "'",
                            ),
                        ),
                    )
                },
            }
        },
    }
}

/// Whether the tools of this backend are among `tools`, and what is
/// missing if they are not.
pub open spec fn tools_needed(tools: Tools) -> Result<(), ErrorView> {
    if tools.docker_pid || tools.docker {
        Ok(())
    } else {
        Err(
            tool_missing(
                "docker runtime not found: neither 'docker' nor 'docker-pid' command is available"@,
            ),
        )
    }
}

impl Docker {
    /// Builds the command that asks about the container.
    pub fn command(&self, container_id: &str, tools: &Tools) -> (argv: Vec<String>)
        ensures
            texts(argv@) == query(container_id@, *tools),
    {
        let mut argv: Vec<String> = Vec::new();
        if tools.docker_pid {
            argv.push(String::from_str("docker-pid"));
        } else {
            argv.push(String::from_str("docker"));
            argv.push(String::from_str("inspect"));
            argv.push(String::from_str("--format"));
            argv.push(String::from_str(STATE_FORMAT));
        }
        argv.push(String::from_str(container_id));
        assert(texts(argv@) =~= query(container_id@, *tools));
        argv
    }

    /// Reads the answer to the command that `command` builds: the process ID
    /// of the container.
    pub fn lookup(
        &self,
        container_id: &str,
        tools: &Tools,
        ran: &Result<CommandOutput, String>,
    ) -> (pid: Result<pid_t, LookupError>)
        ensures
            lift(pid) == reading(query(container_id@, *tools), container_id@, ran_view(*ran)),
    {
        let argv = self.command(container_id, tools);
        parse_docker_output(argv.as_slice(), container_id, ran)
    }

    /// Whether Docker can be asked: `docker-pid` or `docker` has to be
    /// installed.
    pub fn check_required_tools(&self, tools: &Tools) -> (checked: Result<(), LookupError>)
        ensures
            lift(checked) == tools_needed(*tools),
    {
        require_tool(
            tools.docker_pid || tools.docker,
            "docker runtime not found: neither 'docker' nor 'docker-pid' command is available",
        )
    }
}

} // verus!
