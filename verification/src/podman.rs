//! Containers of Podman, asked about through `podman inspect`, which answers
//! as Docker does.

use vstd::prelude::*;
use libc::pid_t;
use crate::docker::{parse_docker_output, reading, STATE_FORMAT};
use crate::error::{lift, ErrorView, LookupError};
use crate::output::{ran_view, CommandOutput};
use crate::text::texts;
use crate::tools::{require_tool, tool_missing, Tools};

verus! {

/// The runtime Podman.
#[derive(Clone, Copy, Debug)]
pub struct Podman {}

/// The command that asks about the container `id`.
pub open spec fn query(id: Seq<char>) -> Seq<Seq<char>> {
    seq!["podman"@, "inspect"@, "--format"@, STATE_FORMAT@, id]
}

/// Whether the tools of this backend are among `tools`, and what is
/// missing if they are not.
pub open spec fn tools_needed(tools: Tools) -> Result<(), ErrorView> {
    if tools.podman {
        Ok(())
    } else {
        Err(tool_missing("podman not found"@))
    }
}

impl Podman {
    /// Builds the command that asks about the container.
    pub fn command(&self, container_id: &str) -> (argv: Vec<String>)
        ensures
            texts(argv@) == query(container_id@),
    {
        let mut argv: Vec<String> = Vec::new();
        argv.push(String::from_str("podman"));
        argv.push(String::from_str("inspect"));
        argv.push(String::from_str("--format"));
        argv.push(String::from_str(STATE_FORMAT));
        argv.push(String::from_str(container_id));
        assert(texts(argv@) =~= query(container_id@));
        argv
    }

    /// Reads the answer of `podman inspect`: the process ID of the
    /// container.
    pub fn lookup(&self, container_id: &str, ran: &Result<CommandOutput, String>) -> (pid: Result<
        pid_t,
        LookupError,
    >)
        ensures
            lift(pid) == reading(query(container_id@), container_id@, ran_view(*ran)),
    {
        let argv = self.command(container_id);
        parse_docker_output(argv.as_slice(), container_id, ran)
    }

    /// Whether Podman can be asked: `podman` has to be installed.
    pub fn check_required_tools(&self, tools: &Tools) -> (checked: Result<(), LookupError>)
        ensures
            lift(checked) == tools_needed(*tools),
    {
        require_tool(tools.podman, "podman not found")
    }
}

} // verus!
