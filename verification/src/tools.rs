//! The programs that the runtimes are asked through, and which of them are
//! installed.

use vstd::prelude::*;
use crate::error::{lift, ErrorKind, ErrorView, LookupError};

verus! {

/// Which of the programs that a lookup may call are installed.
#[derive(Clone, Copy, Debug)]
pub struct Tools {
    /// `docker-pid`
    pub docker_pid: bool,
    /// `docker`
    pub docker: bool,
    /// `podman`
    pub podman: bool,
    /// `rkt`
    pub rkt: bool,
    /// `machinectl`
    pub machinectl: bool,
    /// `lxc-info`
    pub lxc_info: bool,
    /// `lxc`
    pub lxc: bool,
    /// `ctr`
    pub ctr: bool,
    /// `kubectl`
    pub kubectl: bool,
    /// `journalctl`
    pub journalctl: bool,
}

impl Tools {
    /// No program is installed.
    pub fn none() -> (tools: Tools)
        ensures
            tools == (Tools {
                docker_pid: false,
                docker: false,
                podman: false,
                rkt: false,
                machinectl: false,
                lxc_info: false,
                lxc: false,
                ctr: false,
                kubectl: false,
                journalctl: false,
            }),
    {
        Tools {
            docker_pid: false,
            docker: false,
            podman: false,
            rkt: false,
            machinectl: false,
            lxc_info: false,
            lxc: false,
            ctr: false,
            kubectl: false,
            journalctl: false,
        }
    }

    /// Asks `installed` about each program by its name, and records the
    /// answers.
    pub fn detect<F: Fn(&str) -> bool>(installed: F) -> (tools: Tools)
        requires
            forall|name: &str| call_requires(installed, (name,)),
        ensures
            call_ensures(installed, ("docker-pid",), tools.docker_pid),
            call_ensures(installed, ("docker",), tools.docker),
            call_ensures(installed, ("podman",), tools.podman),
            call_ensures(installed, ("rkt",), tools.rkt),
            call_ensures(installed, ("machinectl",), tools.machinectl),
            call_ensures(installed, ("lxc-info",), tools.lxc_info),
            call_ensures(installed, ("lxc",), tools.lxc),
            call_ensures(installed, ("ctr",), tools.ctr),
            call_ensures(installed, ("kubectl",), tools.kubectl),
            call_ensures(installed, ("journalctl",), tools.journalctl),
    {
        Tools {
            docker_pid: installed("docker-pid"),
            docker: installed("docker"),
            podman: installed("podman"),
            rkt: installed("rkt"),
            machinectl: installed("machinectl"),
            lxc_info: installed("lxc-info"),
            lxc: installed("lxc"),
            ctr: installed("ctr"),
            kubectl: installed("kubectl"),
            journalctl: installed("journalctl"),
        }
    }
}

/// That a runtime cannot be asked, in the words of `message`.
pub open spec fn tool_missing(message: Seq<char>) -> ErrorView {
    ErrorView { kind: ErrorKind::ToolMissing, message }
}

/// Passes if `present`, and reports a missing tool in the words of `message`
/// otherwise.
pub fn require_tool(present: bool, message: &str) -> (checked: Result<(), LookupError>)
    ensures
        lift(checked) == if present {
            Ok::<(), ErrorView>(())
        } else {
            Err(tool_missing(message@))
        },
{
    if present {
        Ok(())
    } else {
        Err(LookupError::new(ErrorKind::ToolMissing, String::from_str(message)))
    }
}

} // verus!
