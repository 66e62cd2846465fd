//! The lookup of a container with one backend, whichever it is: a value
//! that says what it wants of the system next, is handed the answer, and
//! ends with a process or a failure.

use vstd::prelude::*;
use libc::pid_t;
use crate::command::{Command, CommandLookup};
use crate::containerd::Containerd;
use crate::docker::Docker;
use crate::error::{lift, ErrorView, LookupError};
use crate::kubernetes::{Kubernetes, KubernetesLookup};
use crate::lxc::Lxc;
use crate::lxd::Lxd;
use crate::nspawn::Nspawn;
use crate::output::{ran_view, CommandOutput, OutputView};
use crate::podman::Podman;
use crate::process_id::{entry_path, parsed, resolved, ProcessId};
use crate::rkt::{Rkt, RktLookup};
use crate::system::{Reply, ReplyView, Request, RequestView, Step, StepView};
use crate::text::texts;
use crate::tools::Tools;
use crate::vhive::{Vhive, VhiveLookup};
use crate::vhive_fc_vmid::{VhiveFcVmid, VmLookup};
use crate::Backend;

verus! {

/// What a lookup takes from its surroundings.
#[derive(Debug)]
pub struct Config {
    /// Which programs are installed.
    pub tools: Tools,
    /// The directory in which the system shows its processes.
    pub proc_root: String,
    /// The ID of the process that looks up.
    pub own_pid: pid_t,
}

/// A `Config` as contracts speak of it.
pub struct ConfigView {
    pub tools: Tools,
    pub proc_root: Seq<char>,
    pub own_pid: pid_t,
}

impl View for Config {
    type V = ConfigView;

    open spec fn view(&self) -> ConfigView {
        ConfigView { tools: self.tools, proc_root: self.proc_root@, own_pid: self.own_pid }
    }
}

/// The backends that ask one program once.
#[derive(Clone, Copy, Debug, PartialEq, Eq, Structural)]
pub enum Asking {
    Podman,
    Docker,
    Nspawn,
    Lxc,
    Lxd,
    Containerd,
}

impl Asking {
    /// The command that the backend runs for the container `id`.
    pub open spec fn query(self, id: Seq<char>, tools: Tools) -> Seq<Seq<char>> {
        match self {
            Asking::Podman => crate::podman::query(id),
            Asking::Docker => crate::docker::query(id, tools),
            Asking::Nspawn => crate::nspawn::query(id),
            Asking::Lxc => crate::lxc::query(id),
            Asking::Lxd => crate::lxd::query(id),
            Asking::Containerd => crate::containerd::query(),
        }
    }

    /// What the backend makes of the answer `ran` to its command.
    pub open spec fn answer(
        self,
        id: Seq<char>,
        tools: Tools,
        ran: Result<OutputView, Seq<char>>,
    ) -> Result<pid_t, ErrorView> {
        match self {
            Asking::Podman => crate::docker::reading(crate::podman::query(id), id, ran),
            Asking::Docker => crate::docker::reading(crate::docker::query(id, tools), id, ran),
            Asking::Nspawn => crate::nspawn::answer(id, ran),
            Asking::Lxc => crate::lxc::answer(id, ran),
            Asking::Lxd => crate::lxd::answer(id, ran),
            Asking::Containerd => crate::containerd::answer(id, ran),
        }
    }

    /// Builds the command that the backend runs for the container.
    pub fn command(&self, container_id: &str, tools: &Tools) -> (argv: Vec<String>)
        ensures
            texts(argv@) == self.query(container_id@, *tools),
    {
        match self {
            Asking::Podman => (Podman {}).command(container_id),
            Asking::Docker => (Docker {}).command(container_id, tools),
            Asking::Nspawn => (Nspawn {}).command(container_id),
            Asking::Lxc => (Lxc {}).command(container_id),
            Asking::Lxd => (Lxd {}).command(container_id),
            Asking::Containerd => (Containerd {}).command(),
        }
    }

    /// Reads the answer to the command of the backend.
    pub fn lookup(&self, container_id: &str, tools: &Tools, ran: &Result<CommandOutput, String>)
        -> (pid: Result<pid_t, LookupError>)
        ensures
            lift(pid) == self.answer(container_id@, *tools, ran_view(*ran)),
    {
        match self {
            Asking::Podman => (Podman {}).lookup(container_id, ran),
            Asking::Docker => (Docker {}).lookup(container_id, tools, ran),
            Asking::Nspawn => (Nspawn {}).lookup(container_id, ran),
            Asking::Lxc => (Lxc {}).lookup(container_id, ran),
            Asking::Lxd => (Lxd {}).lookup(container_id, ran),
            Asking::Containerd => (Containerd {}).lookup(container_id, ran),
        }
    }
}

/// Where the lookup of a container with one backend stands.
pub enum LookupView {
    /// A bare process ID: the entry of the process at `path` is looked at.
    Probing { id: Seq<char>, path: Seq<char> },
    /// A backend that asks one program: the program runs.
    Asked { backend: Asking, id: Seq<char>, tools: Tools },
    /// The lookup of a pod of rkt.
    Rkt(crate::rkt::Stage),
    /// The search by command line.
    Command(crate::command::ScanView),
    /// The lookup of a pod of Kubernetes.
    Kubernetes(crate::kubernetes::Stage),
    /// The lookup of a pod of vhive.
    Vhive(crate::vhive::Stage),
    /// The lookup of a virtual machine.
    VhiveFcVmid(crate::vhive_fc_vmid::SearchView),
    /// The lookup has ended.
    Done(Result<pid_t, ErrorView>),
}

impl LookupView {
    /// The state in which the lookup of `id` with `backend` starts.
    pub open spec fn start(backend: Backend, id: Seq<char>, config: ConfigView) -> LookupView {
        match backend {
            Backend::ProcessId => match parsed(id) {
                Ok(pid) => LookupView::Probing { id, path: entry_path(config.proc_root, pid) },
                Err(e) => LookupView::Done(Err(e)),
            },
            Backend::Rkt => LookupView::Rkt(
                crate::rkt::Stage::Status { root: config.proc_root, id },
            ),
            Backend::Podman => LookupView::Asked {
                backend: Asking::Podman,
                id,
                tools: config.tools,
            },
            Backend::Docker => LookupView::Asked {
                backend: Asking::Docker,
                id,
                tools: config.tools,
            },
            Backend::Nspawn => LookupView::Asked {
                backend: Asking::Nspawn,
                id,
                tools: config.tools,
            },
            Backend::Lxc => LookupView::Asked { backend: Asking::Lxc, id, tools: config.tools },
            Backend::Lxd => LookupView::Asked { backend: Asking::Lxd, id, tools: config.tools },
            Backend::Command => LookupView::Command(
                crate::command::ScanView::start(config.proc_root, id, config.own_pid),
            ),
            Backend::Containerd => LookupView::Asked {
                backend: Asking::Containerd,
                id,
                tools: config.tools,
            },
            Backend::Kubernetes => LookupView::Kubernetes(crate::kubernetes::Stage::start(id)),
            Backend::Vhive => LookupView::Vhive(
                crate::vhive::Stage::start(id, config.proc_root),
            ),
            Backend::VhiveFcVmid => LookupView::VhiveFcVmid(
                crate::vhive_fc_vmid::SearchView::start(config.proc_root, id),
            ),
        }
    }

    /// What the lookup wants next.
    pub open spec fn next(self) -> StepView {
        match self {
            LookupView::Probing { path, .. } => StepView::Ask(RequestView::Probe(path)),
            LookupView::Asked { backend, id, tools } => StepView::Ask(
                RequestView::Run(backend.query(id, tools)),
            ),
            LookupView::Rkt(stage) => stage.next(),
            LookupView::Command(scan) => scan.next(),
            LookupView::Kubernetes(stage) => stage.next(),
            LookupView::Vhive(stage) => stage.next(),
            LookupView::VhiveFcVmid(search) => crate::system::framed_step(
                search.next(),
                crate::vhive_fc_vmid::search_context(search.vmid),
            ),
            LookupView::Done(answer) => StepView::Done(answer),
        }
    }

    /// The state after the system has answered. An answer to another
    /// question than the one that was asked is ignored.
    pub open spec fn resumed(self, reply: ReplyView) -> LookupView {
        match self {
            LookupView::Probing { id, path } => match reply {
                ReplyView::Probed(probe) => LookupView::Done(resolved(id, probe)),
                _ => self,
            },
            LookupView::Asked { backend, id, tools } => match reply {
                ReplyView::Ran(ran) => LookupView::Done(backend.answer(id, tools, ran)),
                _ => self,
            },
            LookupView::Rkt(stage) => LookupView::Rkt(stage.resumed(reply)),
            LookupView::Command(scan) => LookupView::Command(scan.resumed(reply)),
            LookupView::Kubernetes(stage) => LookupView::Kubernetes(stage.resumed(reply)),
            LookupView::Vhive(stage) => LookupView::Vhive(stage.resumed(reply)),
            LookupView::VhiveFcVmid(search) => LookupView::VhiveFcVmid(search.resumed(reply)),
            LookupView::Done(_) => self,
        }
    }
}

enum Standing {
    Probing { id: String, path: String },
    Asked { backend: Asking, id: String, tools: Tools },
    Rkt(RktLookup),
    Command(CommandLookup),
    Kubernetes(KubernetesLookup),
    Vhive(VhiveLookup),
    VhiveFcVmid(VmLookup),
    Done(Result<pid_t, LookupError>),
}

/// The lookup of a container with one backend, in progress.
pub struct Lookup {
    standing: Standing,
}

impl View for Lookup {
    type V = LookupView;

    closed spec fn view(&self) -> LookupView {
        match self.standing {
            Standing::Probing { id, path } => LookupView::Probing { id: id@, path: path@ },
            Standing::Asked { backend, id, tools } => LookupView::Asked { backend, id: id@, tools },
            Standing::Rkt(lookup) => LookupView::Rkt(lookup@),
            Standing::Command(lookup) => LookupView::Command(lookup@),
            Standing::Kubernetes(lookup) => LookupView::Kubernetes(lookup@),
            Standing::Vhive(lookup) => LookupView::Vhive(lookup@),
            Standing::VhiveFcVmid(lookup) => LookupView::VhiveFcVmid(lookup@),
            Standing::Done(answer) => LookupView::Done(lift(answer)),
        }
    }
}

fn asked(backend: Asking, container_id: &str, config: &Config) -> (lookup: Lookup)
    ensures
        lookup@ == (LookupView::Asked { backend, id: container_id@, tools: config.tools }),
{
    Lookup {
        standing: Standing::Asked {
            backend,
            id: String::from_str(container_id),
            tools: config.tools,
        },
    }
}

impl Lookup {
    /// Starts the lookup of `container_id` with `backend`.
    pub fn start(backend: Backend, container_id: &str, config: &Config) -> (lookup: Lookup)
        ensures
            lookup@ == LookupView::start(backend, container_id@, config@),
    {
        match backend {
            Backend::ProcessId => match (ProcessId {}).parse(container_id) {
                Ok(pid) => Lookup {
                    standing: Standing::Probing {
                        id: String::from_str(container_id),
                        path: (ProcessId {}).entry(config.proc_root.as_str(), pid),
                    },
                },
                Err(e) => Lookup { standing: Standing::Done(Err(e)) },
            },
            Backend::Rkt => Lookup {
                standing: Standing::Rkt((Rkt {}).lookup(container_id, config.proc_root.as_str())),
            },
            Backend::Podman => asked(Asking::Podman, container_id, config),
            Backend::Docker => asked(Asking::Docker, container_id, config),
            Backend::Nspawn => asked(Asking::Nspawn, container_id, config),
            Backend::Lxc => asked(Asking::Lxc, container_id, config),
            Backend::Lxd => asked(Asking::Lxd, container_id, config),
            Backend::Command => Lookup {
                standing: Standing::Command(
                    (Command {}).lookup(container_id, config.own_pid, config.proc_root.as_str()),
                ),
            },
            Backend::Containerd => asked(Asking::Containerd, container_id, config),
            Backend::Kubernetes => Lookup {
                standing: Standing::Kubernetes((Kubernetes {}).lookup(container_id)),
            },
            Backend::Vhive => Lookup {
                standing: Standing::Vhive(
                    (Vhive {}).lookup(container_id, config.proc_root.as_str()),
                ),
            },
            Backend::VhiveFcVmid => Lookup {
                standing: Standing::VhiveFcVmid(
                    (VhiveFcVmid {}).lookup(container_id, config.proc_root.as_str()),
                ),
            },
        }
    }

    /// What the lookup wants next.
    pub fn next(&self) -> (step: Step)
        ensures
            step@ == self@.next(),
    {
        match &self.standing {
            Standing::Probing { path, .. } => Step::Ask(Request::Probe(path.clone())),
            Standing::Asked { backend, id, tools } => Step::Ask(
                Request::Run(backend.command(id.as_str(), tools)),
            ),
            Standing::Rkt(lookup) => lookup.next(),
            Standing::Command(lookup) => lookup.next(),
            Standing::Kubernetes(lookup) => lookup.next(),
            Standing::Vhive(lookup) => lookup.next(),
            Standing::VhiveFcVmid(lookup) => lookup.next(),
            Standing::Done(Ok(pid)) => Step::Done(Ok(*pid)),
            Standing::Done(Err(e)) => Step::Done(Err(e.duplicate())),
        }
    }

    /// Takes the answer of the system to what the lookup wanted.
    pub fn resume(self, reply: Reply) -> (lookup: Lookup)
        ensures
            lookup@ == self@.resumed(reply@),
    {
        match self.standing {
            Standing::Probing { id, path } => match reply {
                Reply::Probed(probe) => Lookup {
                    standing: Standing::Done((ProcessId {}).lookup(id.as_str(), &probe)),
                },
                _ => Lookup { standing: Standing::Probing { id, path } },
            },
            Standing::Asked { backend, id, tools } => match reply {
                Reply::Ran(ran) => Lookup {
                    standing: Standing::Done(backend.lookup(id.as_str(), &tools, &ran)),
                },
                _ => Lookup { standing: Standing::Asked { backend, id, tools } },
            },
            Standing::Rkt(lookup) => Lookup { standing: Standing::Rkt(lookup.resume(reply)) },
            Standing::Command(lookup) => Lookup {
                standing: Standing::Command(lookup.resume(reply)),
            },
            Standing::Kubernetes(lookup) => Lookup {
                standing: Standing::Kubernetes(lookup.resume(reply)),
            },
            Standing::Vhive(lookup) => Lookup { standing: Standing::Vhive(lookup.resume(reply)) },
            Standing::VhiveFcVmid(lookup) => Lookup {
                standing: Standing::VhiveFcVmid(lookup.resume(reply)),
            },
            Standing::Done(answer) => Lookup { standing: Standing::Done(answer) },
        }
    }
}

} // verus!
