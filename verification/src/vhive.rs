//! Pods of vhive, which run in virtual machines of Firecracker: `kubectl`
//! names the container of the pod, the journal of vhive tells which machine
//! runs it, and the process that holds the marker file of that machine is
//! the answer.
//!
//! An identifier is read as for Kubernetes, but the container is always
//! `user-container`: that is where vhive puts the virtual machine.

use vstd::prelude::*;
use vstd::utf8::{decode_utf8, valid_utf8};
use libc::pid_t;
use crate::cgroup::ListingView;
use crate::error::{in_context, lift, lift_text, ErrorKind, ErrorView, LookupError};
use crate::kubernetes::{
    containerd_id, get_containerd_id, kubectl_command, parse_userinput, status_query, userinput,
};
use crate::number::{decimal, pid_text};
use crate::output::{
    lossy_text, not_started, ran_view, read_lossy, read_utf8, start_failure, text_of, CommandOutput,
    OutputView,
};
use crate::seqs::{
    before, chars_start_with, find_char, first_where, lemma_first_where_unique, views,
};
use crate::system::{framed_step, Reply, ReplyView, Request, RequestView, Step, StepView};
use crate::text::{join2, join3, split_words, texts, to_chars, words};
use crate::tools::{tool_missing, Tools};
use crate::vhive_fc_vmid::{
    first_verdict, law_search_ends_at_first_verdict, lemma_run_keeps_vmid, reply_to, search_context,
    SearchView, Shown, VhiveFcVmid, VmLookup,
};

verus! {

/// The runtime vhive.
#[derive(Clone, Copy, Debug)]
pub struct Vhive {}

/// The container of a pod in which vhive runs the virtual machine.
pub const DEFAULT_CONTAINER: &'static str = "user-container";

/// What stands before the identifier of the virtual machine in the journal.
pub const VM_ID_KEY: &'static str = "vmID=";

/// The command that searches the journal of vhive, from the newest entry
/// back to the start of the machine, for the container `id`.
pub open spec fn journal_query(id: Seq<char>) -> Seq<Seq<char>> {
    seq![
        "journalctl"@,
        "-u"@,
        "vhive"@,
        "--no-pager"@,
        "--boot=0"@,
        "--reverse"@,
        "-o"@,
        "cat"@,
        "--grep=user-containerID="@ + id,
    ]
}

/// The identifier of the virtual machine in the journal entry `line`: what
/// follows `vmID=` in the first of its words that starts so.
pub open spec fn vm_id_in(line: Seq<char>) -> Option<Seq<char>> {
    let pieces = words(line);
    let i = first_where(pieces, |piece: Seq<char>| VM_ID_KEY@.is_prefix_of(piece));
    if i < pieces.len() {
        Some(pieces[i].skip(VM_ID_KEY@.len() as int))
    } else {
        None
    }
}

/// The exit code `code` as the journal search reports it.
pub open spec fn code_text(code: Option<i32>) -> Seq<char> {
    match code {
        Some(code) => "Some("@ + decimal(code as int) + ")"@,
        None => "None"@,
    }
}

/// That the search of the journal ended without success.
pub open spec fn search_failed(output: OutputView) -> ErrorView {
    ErrorView {
        kind: ErrorKind::ExternalCommandFailed,
        message: "No such container? searching journal failed (ret code "@ + code_text(output.code)
            + "): "@ + lossy_text(output.stderr) + ", "@ + lossy_text(output.stdout),
    }
}

/// That the journal entry names no virtual machine.
pub open spec fn no_vm_id() -> ErrorView {
    ErrorView { kind: ErrorKind::NotFound, message: "no vmID in the journal entry"@ }
}

/// What the answer `ran` of the journal says: the identifier of the virtual
/// machine in the first line, which is the newest entry.
pub open spec fn vm_id(ran: Result<OutputView, Seq<char>>) -> Result<Seq<char>, ErrorView> {
    match ran {
        Err(cause) => Err(not_started("cannot start journalctl"@, cause)),
        Ok(output) => if !output.succeeded() {
            Err(search_failed(output))
        } else if !valid_utf8(output.stdout) {
            Err(ErrorView { kind: ErrorKind::ParseError, message: "journal contains non-utf8"@ })
        } else {
            match vm_id_in(before(decode_utf8(output.stdout), '\n')) {
                Some(id) => Ok(id),
                None => Err(no_vm_id()),
            }
        },
    }
}

/// Builds the command that searches the journal for a container.
pub fn journal_command(containerd_id: &str) -> (argv: Vec<String>)
    ensures
        texts(argv@) == journal_query(containerd_id@),
{
    let mut argv: Vec<String> = Vec::new();
    argv.push(String::from_str("journalctl"));
    argv.push(String::from_str("-u"));
    argv.push(String::from_str("vhive"));
    argv.push(String::from_str("--no-pager"));
    argv.push(String::from_str("--boot=0"));
    argv.push(String::from_str("--reverse"));
    argv.push(String::from_str("-o"));
    argv.push(String::from_str("cat"));
    argv.push(join2("--grep=user-containerID=", containerd_id));
    assert(texts(argv@) =~= journal_query(containerd_id@));
    argv
}

/// Finds the identifier of the virtual machine in a journal entry.
#[verifier::loop_isolation(false)]
pub fn extract_vm_id(line: &[char]) -> (id: Option<String>)
    ensures
        match id {
            Some(id) => vm_id_in(line@) == Some(id@),
            None => vm_id_in(line@) is None,
        },
{
    let pieces = split_words(line);
    let key = to_chars(VM_ID_KEY);
    let mut i: usize = 0;
    while i < pieces.len()
        invariant
            i <= pieces.len(),
            forall|j: int| 0 <= j < i ==> !VM_ID_KEY@.is_prefix_of(#[trigger] views(pieces@)[j]),
        decreases pieces.len() - i,
    {
        let piece = pieces[i];
        assert(views(pieces@)[i as int] == piece@);
        if chars_start_with(piece, key.as_slice()) {
            proof {
                lemma_first_where_unique(
                    views(pieces@),
                    |piece: Seq<char>| VM_ID_KEY@.is_prefix_of(piece),
                    i as int,
                );
            }
            return Some(text_of(vstd::slice::slice_subrange(piece, key.len(), piece.len())));
        }
        i += 1;
    }
    proof {
        lemma_first_where_unique(
            views(pieces@),
            |piece: Seq<char>| VM_ID_KEY@.is_prefix_of(piece),
            i as int,
        );
    }
    None
}

/// Writes an exit code as the journal search reports it.
fn code_string(code: Option<i32>) -> (text: String)
    ensures
        text@ == code_text(code),
{
    match code {
        Some(code) => {
            let number = pid_text(code);
            join3("Some(", number.as_str(), ")")
        },
        None => String::from_str("None"),
    }
}

/// Reads the answer of the journal: the identifier of the virtual machine
/// that runs the container.
pub fn get_fcvmid(ran: &Result<CommandOutput, String>) -> (id: Result<String, LookupError>)
    ensures
        lift_text(id) == vm_id(ran_view(*ran)),
{
    match ran {
        Err(cause) => Err(start_failure("cannot start journalctl", cause.as_str())),
        Ok(output) => {
            if !output.success() {
                let code = code_string(output.code);
                let stderr = read_lossy(output.stderr.as_slice());
                let stdout = read_lossy(output.stdout.as_slice());
                let head = join3(
                    "No such container? searching journal failed (ret code ",
                    code.as_str(),
                    "): ",
                );
                let tail = join3(stderr.as_str(), ", ", stdout.as_str());
                let message = join2(head.as_str(), tail.as_str());
                assert(message@ =~= search_failed(output@).message);
                return Err(LookupError::new(ErrorKind::ExternalCommandFailed, message));
            }
            match read_utf8(output.stdout.as_slice()) {
                None => Err(
                    LookupError::new(
                        ErrorKind::ParseError,
                        String::from_str("journal contains non-utf8"),
                    ),
                ),
                Some(text) => {
                    let chars = to_chars(text);
                    let end = find_char(chars.as_slice(), '\n');
                    let first = vstd::slice::slice_subrange(chars.as_slice(), 0, end);
                    match extract_vm_id(first) {
                        Some(id) => Ok(id),
                        None => Err(
                            LookupError::new(
                                ErrorKind::NotFound,
                                String::from_str("no vmID in the journal entry"),
                            ),
                        ),
                    }
                },
            }
        },
    }
}

/// Whether the tools of this backend are among `tools`, and which is
/// missing if they are not.
pub open spec fn tools_needed(tools: Tools) -> Result<(), ErrorView> {
    if !tools.kubectl {
        Err(tool_missing("kubectl not found"@))
    } else if !tools.journalctl {
        Err(tool_missing("journalctl not found"@))
    } else {
        Ok(())
    }
}

/// What is said before a failure to learn the identifier of the container.
pub const QUERY_CONTEXT: &'static str = "containerd id lookup failed";

/// What is said before a failure to learn the virtual machine of the
/// container `id`.
pub open spec fn journal_context(id: Seq<char>) -> Seq<char> {
    "cannot get firecracker vm id for containerd://"@ + id
}

/// Where the lookup of a pod of vhive stands.
pub enum Stage {
    /// The control plane is asked for the container of the pod.
    Query { root: Seq<char>, namespace: Seq<char>, pod: Seq<char> },
    /// The journal is searched for the virtual machine of the container `id`.
    Journal { root: Seq<char>, id: Seq<char> },
    /// The processes are searched for the one of the virtual machine.
    Search(SearchView),
    /// The lookup has ended before the search of the processes.
    Done(Result<pid_t, ErrorView>),
}

impl Stage {
    /// The stage in which the lookup of the identifier `id` starts, on a
    /// machine that shows its processes in the directory `root`. The
    /// container that the identifier may name is not looked at.
    pub open spec fn start(id: Seq<char>, root: Seq<char>) -> Stage {
        Stage::Query { root, namespace: userinput(id).namespace, pod: userinput(id).pod }
    }

    /// What the lookup wants next.
    pub open spec fn next(self) -> StepView {
        match self {
            Stage::Query { namespace, pod, .. } => StepView::Ask(
                RequestView::Run(status_query(namespace, pod)),
            ),
            Stage::Journal { id, .. } => StepView::Ask(RequestView::Run(journal_query(id))),
            Stage::Search(search) => framed_step(search.next(), search_context(search.vmid)),
            Stage::Done(answer) => StepView::Done(answer),
        }
    }

    /// The stage after the system has answered. An answer to another
    /// question than the one that was asked is ignored.
    pub open spec fn resumed(self, reply: ReplyView) -> Stage {
        match (self, reply) {
            (Stage::Query { root, namespace, pod }, ReplyView::Ran(ran)) => match containerd_id(
                ran,
                pod,
                Some(DEFAULT_CONTAINER@),
            ) {
                Ok(id) => Stage::Journal { root, id },
                Err(e) => Stage::Done(Err(in_context(e, QUERY_CONTEXT@))),
            },
            (Stage::Journal { root, id }, ReplyView::Ran(ran)) => match vm_id(ran) {
                Ok(vmid) => Stage::Search(SearchView::start(root, vmid)),
                Err(e) => Stage::Done(Err(in_context(e, journal_context(id)))),
            },
            (Stage::Search(search), reply) => Stage::Search(search.resumed(reply)),
            _ => self,
        }
    }
}

enum Standing {
    Query { root: String, namespace: String, pod: String },
    Journal { root: String, id: String },
    Search(VmLookup),
    Done(Result<pid_t, LookupError>),
}

/// The lookup of a pod of vhive, in progress.
pub struct VhiveLookup {
    standing: Standing,
}

impl View for VhiveLookup {
    type V = Stage;

    closed spec fn view(&self) -> Stage {
        match self.standing {
            Standing::Query { root, namespace, pod } => Stage::Query {
                root: root@,
                namespace: namespace@,
                pod: pod@,
            },
            Standing::Journal { root, id } => Stage::Journal { root: root@, id: id@ },
            Standing::Search(search) => Stage::Search(search@),
            Standing::Done(answer) => Stage::Done(lift(answer)),
        }
    }
}

impl VhiveLookup {
    /// What the lookup wants next.
    pub fn next(&self) -> (step: Step)
        ensures
            step@ == self@.next(),
    {
        match &self.standing {
            Standing::Query { namespace, pod, .. } => Step::Ask(
                Request::Run(kubectl_command(namespace.as_str(), pod.as_str())),
            ),
            Standing::Journal { id, .. } => Step::Ask(Request::Run(journal_command(id.as_str()))),
            Standing::Search(search) => search.next(),
            Standing::Done(Ok(pid)) => Step::Done(Ok(*pid)),
            Standing::Done(Err(e)) => Step::Done(Err(e.duplicate())),
        }
    }

    /// Takes the answer of the system to what the lookup wanted.
    pub fn resume(self, reply: Reply) -> (lookup: VhiveLookup)
        ensures
            lookup@ == self@.resumed(reply@),
    {
        match (self.standing, reply) {
            (Standing::Query { root, namespace, pod }, Reply::Ran(ran)) => {
                match get_containerd_id(&ran, pod.as_str(), Some(DEFAULT_CONTAINER)) {
                    Ok(id) => VhiveLookup { standing: Standing::Journal { root, id } },
                    Err(e) => VhiveLookup {
                        standing: Standing::Done(Err(e.context(QUERY_CONTEXT))),
                    },
                }
            },
            (Standing::Journal { root, id }, Reply::Ran(ran)) => match get_fcvmid(&ran) {
                Ok(vmid) => VhiveLookup {
                    standing: Standing::Search(
                        (VhiveFcVmid {}).lookup(vmid.as_str(), root.as_str()),
                    ),
                },
                Err(e) => {
                    let what = join2("cannot get firecracker vm id for containerd://", id.as_str());
                    VhiveLookup { standing: Standing::Done(Err(e.context(what.as_str()))) }
                },
            },
            (Standing::Search(search), reply) => VhiveLookup {
                standing: Standing::Search(search.resume(reply)),
            },
            (standing, _) => VhiveLookup { standing },
        }
    }
}

impl Vhive {
    /// Starts the lookup of the pod that `container_id` names, on a machine
    /// that shows its processes in the directory `proc_root`.
    pub fn lookup(&self, container_id: &str, proc_root: &str) -> (lookup: VhiveLookup)
        ensures
            lookup@ == Stage::start(container_id@, proc_root@),
    {
        match parse_userinput(container_id) {
            Ok((namespace, pod, _)) => VhiveLookup {
                standing: Standing::Query {
                    root: String::from_str(proc_root),
                    namespace: String::from_str(namespace),
                    pod: String::from_str(pod),
                },
            },
            Err(e) => VhiveLookup { standing: Standing::Done(Err(e)) },
        }
    }

    /// Whether vhive can be asked: `kubectl` and `journalctl` have to be
    /// installed.
    pub fn check_required_tools(&self, tools: &Tools) -> (checked: Result<(), LookupError>)
        ensures
            lift(checked) == tools_needed(*tools),
    {
        if !tools.kubectl {
            return Err(
                LookupError::new(ErrorKind::ToolMissing, String::from_str("kubectl not found")),
            );
        }
        if !tools.journalctl {
            return Err(
                LookupError::new(ErrorKind::ToolMissing, String::from_str("journalctl not found")),
            );
        }
        Ok(())
    }
}

/// A machine as the lookup of a pod of vhive sees it.
pub struct Host {
    /// What running a command gives.
    pub programs: spec_fn(Seq<Seq<char>>) -> Result<OutputView, Seq<char>>,
    /// The directory in which the machine shows its processes.
    pub root: Seq<char>,
    /// What listing the process directory gives.
    pub processes: ListingView,
    /// What the system shows of the process behind each entry of the
    /// process directory.
    pub shown: Seq<Shown>,
}

/// The stage `stage` after the command that it wants has run on the
/// machine `host`.
pub open spec fn run_command(stage: Stage, host: Host) -> Stage {
    match stage.next() {
        StepView::Ask(RequestView::Run(argv)) => stage.resumed(
            ReplyView::Ran((host.programs)(argv)),
        ),
        _ => stage,
    }
}

/// The stage `stage` after its search of the processes has run on the
/// machine `host`, or has been given `fuel` answers.
pub open spec fn run_search(stage: Stage, host: Host, fuel: nat) -> Stage
    decreases fuel,
{
    match stage {
        Stage::Search(search) => if fuel == 0 || search.stage is Done {
            stage
        } else {
            run_search(
                stage.resumed(reply_to(search, host.processes, host.shown)),
                host,
                (fuel - 1) as nat,
            )
        },
        _ => stage,
    }
}

/// The stage in which the lookup of the identifier `id` ends on the machine
/// `host`, where the search of the processes is given `fuel` answers: the
/// two commands that the lookup wants are run, and the processes are
/// searched.
pub open spec fn run(id: Seq<char>, host: Host, fuel: nat) -> Stage {
    run_search(run_command(run_command(Stage::start(id, host.root), host), host), host, fuel)
}

/// What the lookup of the identifier `id` comes to on the machine `host`:
/// the control plane names the container `user-container` of the pod, the
/// newest entry of the journal for that container names the virtual
/// machine, and the first process that decides the search for the virtual
/// machine is the answer. A failure is said with the step that failed.
pub open spec fn resolved(id: Seq<char>, host: Host) -> Result<pid_t, ErrorView> {
    let namespace = userinput(id).namespace;
    let pod = userinput(id).pod;
    match containerd_id(
        (host.programs)(status_query(namespace, pod)),
        pod,
        Some(DEFAULT_CONTAINER@),
    ) {
        Err(e) => Err(in_context(e, QUERY_CONTEXT@)),
        Ok(container) => match vm_id((host.programs)(journal_query(container))) {
            Err(e) => Err(in_context(e, journal_context(container))),
            Ok(vmid) => match first_verdict(
                vmid,
                host.root,
                host.processes.entries,
                host.shown,
                host.processes.failure,
                0,
            ) {
                Ok(pid) => Ok(pid),
                Err(e) => Err(in_context(e, search_context(vmid))),
            },
        },
    }
}

proof fn lemma_run_search(search: SearchView, host: Host, fuel: nat)
    ensures
        run_search(Stage::Search(search), host, fuel) == Stage::Search(
            crate::vhive_fc_vmid::run(search, host.processes, host.shown, fuel),
        ),
    decreases fuel,
{
    if fuel > 0 && !(search.stage is Done) {
        lemma_run_search(
            search.resumed(reply_to(search, host.processes, host.shown)),
            host,
            (fuel - 1) as nat,
        );
    }
}

/// The lookup of a pod of vhive goes the way from the pod to the process
/// of its virtual machine. Run on a machine, with two answers for each
/// entry of the process directory at least, the lookup ends with what
/// `resolved` says of the machine.
pub proof fn law_lookup_resolves(id: Seq<char>, host: Host, fuel: nat)
    requires
        host.shown.len() == host.processes.entries.len(),
        fuel > 2 * host.processes.entries.len(),
    ensures
        run(id, host, fuel).next() == StepView::Done(resolved(id, host)),
{
    let namespace = userinput(id).namespace;
    let pod = userinput(id).pod;
    match containerd_id(
        (host.programs)(status_query(namespace, pod)),
        pod,
        Some(DEFAULT_CONTAINER@),
    ) {
        Err(_) => {},
        Ok(container) => match vm_id((host.programs)(journal_query(container))) {
            Err(_) => {},
            Ok(vmid) => {
                let search = SearchView::start(host.root, vmid);
                lemma_run_search(search, host, fuel);
                law_search_ends_at_first_verdict(
                    host.root,
                    vmid,
                    host.processes,
                    host.shown,
                    fuel,
                );
                lemma_run_keeps_vmid(search, host.processes, host.shown, fuel);
            },
        },
    }
}

} // verus!
