//! Resolves the identifier of a container to the ID of the process that
//! stands for the running container, whichever runtime manages it.
//!
//! The library decides and reads; it does not touch the system. Each backend
//! says which command to run or which file to read, and makes of the answer a
//! process ID or a failure. The caller runs the commands and reads the files.

use vstd::prelude::*;
use libc::pid_t;
use crate::dispatch::{Action, Dispatch, DispatchView};
use crate::error::{lift, ErrorView, LookupError};
use crate::text::same_text;
use crate::tools::Tools;

pub mod seqs;
pub mod text;
pub mod number;
pub mod error;
pub mod output;
pub mod tools;
pub mod scan;
pub mod dispatch;
pub mod cgroup;
pub mod tree;
pub mod system;
pub mod lookup;
pub mod process_id;
pub mod rkt;
pub mod podman;
pub mod docker;
pub mod nspawn;
pub mod lxc;
pub mod lxd;
pub mod command;
pub mod containerd;
pub mod kubernetes;
pub mod vhive_fc_vmid;
pub mod vhive;

verus! {

/// Something that can resolve the identifier of a container: a runtime as it
/// is installed on the machine.
pub trait Container {
    /// The process that stands for the container `container_id`.
    fn lookup(&self, container_id: &str) -> Result<pid_t, LookupError>;

    /// Whether the programs that the resolver calls are installed.
    fn check_required_tools(&self) -> Result<(), LookupError>;

    /// The name under which the resolver appears in reports.
    fn name(&self) -> String;
}

/// The names of the backends that a caller can choose.
pub const AVAILABLE_CONTAINER_TYPES: [&'static str; 10] = [
    "process_id",
    "rkt",
    "podman",
    "docker",
    "nspawn",
    "lxc",
    "lxd",
    "command",
    "containerd",
    "kubernetes",
];

/// The backends.
#[derive(Clone, Copy, Debug, PartialEq, Eq, Structural)]
pub enum Backend {
    ProcessId,
    Rkt,
    Podman,
    Docker,
    Nspawn,
    Lxc,
    Lxd,
    Command,
    Containerd,
    Kubernetes,
    Vhive,
    VhiveFcVmid,
}

/// The backend that a caller chooses by `name`.
pub open spec fn backend_named(name: Seq<char>) -> Option<Backend> {
    if name == "process_id"@ {
        Some(Backend::ProcessId)
    } else if name == "rkt"@ {
        Some(Backend::Rkt)
    } else if name == "podman"@ {
        Some(Backend::Podman)
    } else if name == "docker"@ {
        Some(Backend::Docker)
    } else if name == "nspawn"@ {
        Some(Backend::Nspawn)
    } else if name == "lxc"@ {
        Some(Backend::Lxc)
    } else if name == "lxd"@ {
        Some(Backend::Lxd)
    } else if name == "containerd"@ {
        Some(Backend::Containerd)
    } else if name == "command"@ {
        Some(Backend::Command)
    } else if name == "kubernetes"@ {
        Some(Backend::Kubernetes)
    } else {
        None
    }
}

/// The names of `AVAILABLE_CONTAINER_TYPES`.
pub open spec fn available_names() -> Seq<Seq<char>> {
    seq![
        "process_id"@,
        "rkt"@,
        "podman"@,
        "docker"@,
        "nspawn"@,
        "lxc"@,
        "lxd"@,
        "command"@,
        "containerd"@,
        "kubernetes"@,
    ]
}

/// The names of `AVAILABLE_CONTAINER_TYPES` are `available_names`.
pub proof fn law_available_names_are_listed()
    ensures
        AVAILABLE_CONTAINER_TYPES@.map_values(|name: &'static str| name@) == available_names(),
{
    assert(AVAILABLE_CONTAINER_TYPES@.map_values(|name: &'static str| name@)
        =~= available_names());
}

/// The names that choose a backend are the available ones, and each of
/// them chooses the backend that it names.
pub proof fn law_available_names_choose(name: Seq<char>)
    ensures
        backend_named(name) is Some <==> available_names().contains(name),
        backend_named("process_id"@) == Some(Backend::ProcessId),
        backend_named("rkt"@) == Some(Backend::Rkt),
        backend_named("podman"@) == Some(Backend::Podman),
        backend_named("docker"@) == Some(Backend::Docker),
        backend_named("nspawn"@) == Some(Backend::Nspawn),
        backend_named("lxc"@) == Some(Backend::Lxc),
        backend_named("lxd"@) == Some(Backend::Lxd),
        backend_named("command"@) == Some(Backend::Command),
        backend_named("containerd"@) == Some(Backend::Containerd),
        backend_named("kubernetes"@) == Some(Backend::Kubernetes),
{
    reveal_strlit("process_id");
    reveal_strlit("rkt");
    reveal_strlit("podman");
    reveal_strlit("docker");
    reveal_strlit("nspawn");
    reveal_strlit("lxc");
    reveal_strlit("lxd");
    reveal_strlit("command");
    reveal_strlit("containerd");
    reveal_strlit("kubernetes");
    assert("process_id"@.len() == 10 && "process_id"@[0] == 'p');
    assert("rkt"@.len() == 3 && "rkt"@[0] == 'r');
    assert("podman"@.len() == 6 && "podman"@[0] == 'p');
    assert("docker"@.len() == 6 && "docker"@[0] == 'd');
    assert("nspawn"@.len() == 6 && "nspawn"@[0] == 'n');
    assert("lxc"@.len() == 3 && "lxc"@[0] == 'l' && "lxc"@[2] == 'c');
    assert("lxd"@.len() == 3 && "lxd"@[0] == 'l' && "lxd"@[2] == 'd');
    assert("command"@.len() == 7);
    assert("containerd"@.len() == 10 && "containerd"@[0] == 'c');
    assert("kubernetes"@.len() == 10 && "kubernetes"@[0] == 'k');
    let names = available_names();
    if backend_named(name) is Some {
        let i = choose|i: int| 0 <= i < names.len() && names[i] == name;
        assert(names[0] == "process_id"@);
        assert(names[1] == "rkt"@);
        assert(names[2] == "podman"@);
        assert(names[3] == "docker"@);
        assert(names[4] == "nspawn"@);
        assert(names[5] == "lxc"@);
        assert(names[6] == "lxd"@);
        assert(names[7] == "command"@);
        assert(names[8] == "containerd"@);
        assert(names[9] == "kubernetes"@);
    }
}

/// The backends that are tried when the caller chooses none, in the order in
/// which they are tried: those that only look at the machine first, the one
/// that takes the longest way last.
pub open spec fn default_chain() -> Seq<Backend> {
    seq![
        Backend::ProcessId,
        Backend::Rkt,
        Backend::Podman,
        Backend::Docker,
        Backend::Nspawn,
        Backend::Lxc,
        Backend::Lxd,
        Backend::Containerd,
        Backend::Kubernetes,
    ]
}

impl Backend {
    /// Whether the tools of this backend are among `tools`, and what is
    /// missing if they are not.
    pub open spec fn tools_needed(self, tools: Tools) -> Result<(), ErrorView> {
        match self {
            Backend::ProcessId => Ok(()),
            Backend::Rkt => crate::rkt::tools_needed(tools),
            Backend::Podman => crate::podman::tools_needed(tools),
            Backend::Docker => crate::docker::tools_needed(tools),
            Backend::Nspawn => crate::nspawn::tools_needed(tools),
            Backend::Lxc => crate::lxc::tools_needed(tools),
            Backend::Lxd => crate::lxd::tools_needed(tools),
            Backend::Command => Ok(()),
            Backend::Containerd => crate::containerd::tools_needed(tools),
            Backend::Kubernetes => crate::kubernetes::tools_needed(tools),
            Backend::Vhive => crate::vhive::tools_needed(tools),
            Backend::VhiveFcVmid => Ok(()),
        }
    }

    /// The name under which this backend appears in reports.
    pub open spec fn label(self) -> Seq<char> {
        match self {
            Backend::ProcessId => "ProcessId"@,
            Backend::Rkt => "Rkt"@,
            Backend::Podman => "Podman"@,
            Backend::Docker => "Docker"@,
            Backend::Nspawn => "Nspawn"@,
            Backend::Lxc => "Lxc"@,
            Backend::Lxd => "Lxd"@,
            Backend::Command => "Command"@,
            Backend::Containerd => "Containerd"@,
            Backend::Kubernetes => "Kubernetes"@,
            Backend::Vhive => "Vhive"@,
            Backend::VhiveFcVmid => "VhiveFcVmid"@,
        }
    }

    /// Whether the programs that this backend calls are installed.
    pub fn check_required_tools(&self, tools: &Tools) -> (checked: Result<(), LookupError>)
        ensures
            lift(checked) == self.tools_needed(*tools),
    {
        match self {
            Backend::ProcessId => (crate::process_id::ProcessId {}).check_required_tools(tools),
            Backend::Rkt => (crate::rkt::Rkt {}).check_required_tools(tools),
            Backend::Podman => (crate::podman::Podman {}).check_required_tools(tools),
            Backend::Docker => (crate::docker::Docker {}).check_required_tools(tools),
            Backend::Nspawn => (crate::nspawn::Nspawn {}).check_required_tools(tools),
            Backend::Lxc => (crate::lxc::Lxc {}).check_required_tools(tools),
            Backend::Lxd => (crate::lxd::Lxd {}).check_required_tools(tools),
            Backend::Command => (crate::command::Command {}).check_required_tools(tools),
            Backend::Containerd => (crate::containerd::Containerd {}).check_required_tools(tools),
            Backend::Kubernetes => (crate::kubernetes::Kubernetes {}).check_required_tools(tools),
            Backend::Vhive => (crate::vhive::Vhive {}).check_required_tools(tools),
            Backend::VhiveFcVmid => (crate::vhive_fc_vmid::VhiveFcVmid {}).check_required_tools(
                tools,
            ),
        }
    }

    /// The name under which this backend appears in reports.
    pub fn name(&self) -> (name: &'static str)
        ensures
            name@ == self.label(),
    {
        match self {
            Backend::ProcessId => "ProcessId",
            Backend::Rkt => "Rkt",
            Backend::Podman => "Podman",
            Backend::Docker => "Docker",
            Backend::Nspawn => "Nspawn",
            Backend::Lxc => "Lxc",
            Backend::Lxd => "Lxd",
            Backend::Command => "Command",
            Backend::Containerd => "Containerd",
            Backend::Kubernetes => "Kubernetes",
            Backend::Vhive => "Vhive",
            Backend::VhiveFcVmid => "VhiveFcVmid",
        }
    }
}

/// The default backends whose tools are among `tools`, in the default order.
pub fn default_order(tools: &Tools) -> (backends: Vec<Backend>)
    ensures
        backends@ == default_chain().filter(|b: Backend| b.tools_needed(*tools) is Ok),
{
    let chain: [Backend; 9] = [
        Backend::ProcessId,
        Backend::Rkt,
        Backend::Podman,
        Backend::Docker,
        Backend::Nspawn,
        Backend::Lxc,
        Backend::Lxd,
        Backend::Containerd,
        Backend::Kubernetes,
    ];
    assert(chain@ =~= default_chain());
    let ghost usable = |b: Backend| b.tools_needed(*tools) is Ok;
    let mut backends: Vec<Backend> = Vec::new();
    let mut i: usize = 0;
    proof {
        reveal(Seq::filter);
    }
    while i < 9
        invariant
            i <= 9,
            chain@ == default_chain(),
            usable == (|b: Backend| b.tools_needed(*tools) is Ok),
            backends@ == chain@.take(i as int).filter(usable),
        decreases 9 - i,
    {
        let backend = chain[i];
        proof {
            reveal(Seq::filter);
            assert(chain@.take(i + 1).drop_last() == chain@.take(i as int));
            assert(chain@.take(i + 1).last() == backend);
        }
        if backend.check_required_tools(tools).is_ok() {
            backends.push(backend);
        }
        i += 1;
    }
    proof {
        assert(chain@.take(9) == chain@);
    }
    backends
}

/// Finds the backend that a caller chooses by `name`. The names that choose
/// one are those of `AVAILABLE_CONTAINER_TYPES`.
pub fn lookup_container_type(name: &str) -> (backend: Option<Backend>)
    ensures
        backend == backend_named(name@),
{
    if same_text(name, "process_id") {
        Some(Backend::ProcessId)
    } else if same_text(name, "rkt") {
        Some(Backend::Rkt)
    } else if same_text(name, "podman") {
        Some(Backend::Podman)
    } else if same_text(name, "docker") {
        Some(Backend::Docker)
    } else if same_text(name, "nspawn") {
        Some(Backend::Nspawn)
    } else if same_text(name, "lxc") {
        Some(Backend::Lxc)
    } else if same_text(name, "lxd") {
        Some(Backend::Lxd)
    } else if same_text(name, "containerd") {
        Some(Backend::Containerd)
    } else if same_text(name, "command") {
        Some(Backend::Command)
    } else if same_text(name, "kubernetes") {
        Some(Backend::Kubernetes)
    } else {
        None
    }
}

/// Whether `answer` is what a dispatch over `explicit` chosen and `fallback`
/// default backends can end with: the outcome of a state that such a
/// dispatch can reach and that wants nothing more done.
pub open spec fn ends_dispatch(
    explicit: nat,
    fallback: nat,
    answer: Result<pid_t, ErrorView>,
) -> bool {
    exists|d: DispatchView|
        {
            &&& #[trigger] d.wf()
            &&& d.explicit == explicit
            &&& d.fallback == fallback
            &&& d.next() is Finish
            &&& d.outcome() == answer
        }
}

/// Resolves `container_id` with the resolvers `container_types`, or with
/// `fallback` where the caller chose none, in the order that `Dispatch`
/// gives: each chosen resolver is first asked for its tools, and then the
/// resolvers are asked for the container until one knows it.
pub fn lookup_container_pid(
    container_id: &str,
    container_types: &[Box<dyn Container>],
    fallback: &[Box<dyn Container>],
) -> (answer: Result<pid_t, LookupError>)
    ensures
        ends_dispatch(container_types.len() as nat, fallback.len() as nat, lift(answer)),
{
    let mut dispatch = Dispatch::new(container_types.len(), fallback.len());
    loop
        invariant
            dispatch@.wf(),
            dispatch@.explicit == container_types.len(),
            dispatch@.fallback == fallback.len(),
        decreases dispatch@.remaining(),
    {
        match dispatch.next() {
            Action::Check(index) => {
                let checked = container_types[index].check_required_tools();
                dispatch = dispatch.checked(checked);
            },
            Action::Lookup(index) => {
                let resolver = if container_types.len() > 0 {
                    &container_types[index]
                } else {
                    &fallback[index]
                };
                let name = resolver.name();
                let found = resolver.lookup(container_id);
                dispatch = dispatch.looked_up(name.as_str(), found);
            },
            Action::Finish => {
                let ghost last = dispatch@;
                let answer = dispatch.finish();
                assert(last.wf() && last.next() is Finish && last.outcome() == lift(answer));
                return answer;
            },
        }
    }
}

} // verus!
