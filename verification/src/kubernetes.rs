//! Pods of Kubernetes: `kubectl` names the container of a pod, the control
//! groups of the machine are searched for a group of that name, and a member
//! of the group is the answer.
//!
//! An identifier is `pod`, `namespace/pod` or `namespace/pod/container`. The
//! namespace defaults to `default`, the container to the first of the pod.

use vstd::prelude::*;
use vstd::utf8::{decode_utf8, valid_utf8};
use libc::pid_t;
use crate::cgroup::{not_found, CgroupSearch, FrameView, ListingView, SearchView, Status};
use crate::error::{
    in_context, lift, lift_text, system_failure, unreadable, ErrorKind, ErrorView, LookupError,
};
use crate::number::{parse_unsigned_pid, unsigned_pid_of};
use crate::output::{
    ended_badly, exit_failure, lossy_text, not_started, ran_view, read_lossy, read_utf8, read_view,
    start_failure, text_of, CommandOutput, OutputView,
};
use crate::seqs::{
    after, before, chars_start_with, find_char, first_where, lemma_first_where_unique,
    lemma_position, occurs, position, same_chars, split, split_chars, views,
};
use crate::system::{Reply, ReplyView, Request, RequestView, Step, StepView};
use crate::text::{join2, join3, join5, string_view, text_view, texts, to_chars};
use crate::tools::{require_tool, tool_missing, Tools};
use crate::tree::{
    consistent, first_match, first_pending, head_on, lemma_heading, lemma_walks_agree, listing_of,
    nodes, nodes_pending, Heading, Pending, Tree,
};

verus! {

/// The runtime Kubernetes.
#[derive(Clone, Copy, Debug)]
pub struct Kubernetes {}

/// Whether the tools of this backend are among `tools`, and what is
/// missing if they are not.
pub open spec fn tools_needed(tools: Tools) -> Result<(), ErrorView> {
    if tools.kubectl {
        Ok(())
    } else {
        Err(tool_missing("kubernetes runtime not found: 'kubectl' command is not available"@))
    }
}

/// The namespace of a pod that names none.
pub const DEFAULT_NAMESPACE: &'static str = "default";

/// The scheme that containerd puts before the identifiers it reports.
pub const CONTAINERD_SCHEME: &'static str = "containerd://";

/// The namespace, the pod and the container that an identifier names.
pub struct UserInput {
    pub namespace: Seq<char>,
    pub pod: Seq<char>,
    pub container: Option<Seq<char>>,
}

/// What the identifier `id` names. It is cut at its first two slashes: one
/// field is a pod in the default namespace, two are a namespace and a pod,
/// three a namespace, a pod and a container, which holds whatever follows the
/// second slash.
pub open spec fn userinput(id: Seq<char>) -> UserInput {
    if !occurs(id, '/') {
        UserInput { namespace: DEFAULT_NAMESPACE@, pod: id, container: None }
    } else if !occurs(after(id, '/'), '/') {
        UserInput { namespace: before(id, '/'), pod: after(id, '/'), container: None }
    } else {
        UserInput {
            namespace: before(id, '/'),
            pod: before(after(id, '/'), '/'),
            container: Some(after(after(id, '/'), '/')),
        }
    }
}

/// Reads an identifier as a namespace, a pod and, if it names one, a
/// container. Every identifier can be read.
pub fn parse_userinput<'a>(container_id: &'a str) -> (fields: Result<
    (&'a str, &'a str, Option<&'a str>),
    LookupError,
>)
    ensures
        fields is Ok,
        fields->Ok_0.0@ == userinput(container_id@).namespace,
        fields->Ok_0.1@ == userinput(container_id@).pod,
        text_view(fields->Ok_0.2) == userinput(container_id@).container,
{
    let chars = to_chars(container_id);
    let len = chars.len();
    let first = find_char(chars.as_slice(), '/');
    if first == len {
        return Ok((DEFAULT_NAMESPACE, container_id, None));
    }
    let namespace = container_id.substring_char(0, first);
    let rest = vstd::slice::slice_subrange(chars.as_slice(), first + 1, len);
    proof {
        assert(rest@ == after(container_id@, '/'));
        assert(namespace@ == before(container_id@, '/'));
        lemma_position(rest@, '/');
    }
    let second = find_char(rest, '/');
    if second == rest.len() {
        let pod = container_id.substring_char(first + 1, len);
        return Ok((namespace, pod, None));
    }
    let pod = container_id.substring_char(first + 1, first + 1 + second);
    let container = container_id.substring_char(first + 2 + second, len);
    proof {
        assert(pod@ == before(rest@, '/'));
        assert(container@ == after(rest@, '/'));
    }
    Ok((namespace, pod, Some(container)))
}

/// The selector that makes `kubectl` print, for each container of the pod
/// `pod`, a line with the container's name, a tab and the identifier that the
/// runtime gave it.
pub open spec fn status_selector(pod: Seq<char>) -> Seq<char> {
    "jsonpath='{range .items[?(@.metadata.name==\""@ + pod
        + "\")].status.containerStatuses[*]}{.name}{\"\\t\"}{.containerID}{\"\\n\"}{end}'"@
}

/// The command that asks the control plane for the containers of a pod.
pub open spec fn status_query(namespace: Seq<char>, pod: Seq<char>) -> Seq<Seq<char>> {
    seq!["kubectl"@, "get"@, "pod"@, "-o"@, status_selector(pod), "-n"@, namespace]
}

/// Builds the command that asks the control plane for the containers of the
/// pod `pod_name` in `namespace`.
pub fn kubectl_command(namespace: &str, pod_name: &str) -> (argv: Vec<String>)
    ensures
        texts(argv@) == status_query(namespace@, pod_name@),
{
    let mut argv: Vec<String> = Vec::new();
    argv.push(String::from_str("kubectl"));
    argv.push(String::from_str("get"));
    argv.push(String::from_str("pod"));
    argv.push(String::from_str("-o"));
    argv.push(
        join3(
            "jsonpath='{range .items[?(@.metadata.name==\"",
            pod_name,
            "\")].status.containerStatuses[*]}{.name}{\"\\t\"}{.containerID}{\"\\n\"}{end}'",
        ),
    );
    argv.push(String::from_str("-n"));
    argv.push(String::from_str(namespace));
    assert(texts(argv@) =~= status_query(namespace@, pod_name@));
    argv
}

/// Whether `line` is a status record: a name, a tab and an identifier, with
/// no further tab.
pub open spec fn is_record(line: Seq<char>) -> bool {
    occurs(line, '\t') && !occurs(after(line, '\t'), '\t')
}

/// Whether `line` is the status record of the container asked for: of any
/// container when none is named, of the one called `container` otherwise.
pub open spec fn selects(line: Seq<char>, container: Option<Seq<char>>) -> bool {
    is_record(line) && (container is Some ==> before(line, '\t') == container->0)
}

/// The identifier in the first line of `listing` that is the status record
/// of the container asked for.
pub open spec fn selected_id(listing: Seq<char>, container: Option<Seq<char>>) -> Option<
    Seq<char>,
> {
    let lines = split(listing, '\n');
    let i = first_where(lines, |line: Seq<char>| selects(line, container));
    if i < lines.len() {
        Some(after(lines[i], '\t'))
    } else {
        None
    }
}

/// That the pod holds no container such as was asked for.
pub open spec fn no_such_container(pod: Seq<char>, container: Option<Seq<char>>) -> ErrorView {
    ErrorView {
        kind: ErrorKind::NotFound,
        message: match container {
            Some(name) => "no container named '"@ + name + "' found in pod '"@ + pod + "'"@,
            None => "no containers found in pod '"@ + pod + "'"@,
        },
    }
}

/// That `id` does not start with the scheme of containerd.
pub open spec fn scheme_missing(id: Seq<char>) -> ErrorView {
    ErrorView {
        kind: ErrorKind::ParseError,
        message: "container ID does not have expected 'containerd://' prefix: "@ + id,
    }
}

/// The bare identifier behind `id`: what follows the scheme of containerd.
/// An identifier without the scheme is malformed, and is not passed through.
pub open spec fn bare_id(id: Seq<char>) -> Result<Seq<char>, ErrorView> {
    if CONTAINERD_SCHEME@.is_prefix_of(id) {
        Ok(id.skip(CONTAINERD_SCHEME@.len() as int))
    } else {
        Err(scheme_missing(id))
    }
}

/// Stripping undoes prefixing: an identifier with the scheme of containerd
/// before it is stripped to that identifier.
pub proof fn law_scheme_is_stripped(bare: Seq<char>)
    ensures
        bare_id(CONTAINERD_SCHEME@ + bare) == Ok::<Seq<char>, ErrorView>(bare),
{
    let id = CONTAINERD_SCHEME@ + bare;
    assert(id.subrange(0, CONTAINERD_SCHEME@.len() as int) =~= CONTAINERD_SCHEME@);
    assert(id.skip(CONTAINERD_SCHEME@.len() as int) =~= bare);
}

/// The bare identifier of the container asked for, as `listing` reports it.
pub open spec fn listed_id(
    listing: Seq<char>,
    pod: Seq<char>,
    container: Option<Seq<char>>,
) -> Result<Seq<char>, ErrorView> {
    match selected_id(listing, container) {
        Some(id) => bare_id(id),
        None => Err(no_such_container(pod, container)),
    }
}

/// What the answer `ran` of the control plane says of the container asked
/// for: its bare identifier, or why there is none.
pub open spec fn containerd_id(
    ran: Result<OutputView, Seq<char>>,
    pod: Seq<char>,
    container: Option<Seq<char>>,
) -> Result<Seq<char>, ErrorView> {
    match ran {
        Err(cause) => Err(not_started("failed to execute 'kubectl get pod'"@, cause)),
        Ok(output) => if !output.succeeded() {
            Err(ended_badly("kubectl get pod failed"@, output.status, lossy_text(output.stderr)))
        } else if !valid_utf8(output.stdout) {
            Err(
                ErrorView {
                    kind: ErrorKind::ParseError,
                    message: "kubectl response contains non-UTF8 data"@,
                },
            )
        } else {
            listed_id(decode_utf8(output.stdout), pod, container)
        },
    }
}

/// Strips the scheme of containerd from `id`.
pub fn strip_scheme(id: &[char]) -> (bare: Result<String, LookupError>)
    ensures
        lift_text(bare) == bare_id(id@),
{
    let scheme = to_chars(CONTAINERD_SCHEME);
    if chars_start_with(id, scheme.as_slice()) {
        Ok(text_of(vstd::slice::slice_subrange(id, scheme.len(), id.len())))
    } else {
        let shown = text_of(id);
        Err(
            LookupError::new(
                ErrorKind::ParseError,
                join2(
                    "container ID does not have expected 'containerd://' prefix: ",
                    shown.as_str(),
                ),
            ),
        )
    }
}

/// Tells whether `line` is the status record of the container asked for,
/// and where its tab stands.
fn record_tab(line: &[char], container: &Option<Vec<char>>) -> (tab: Option<usize>)
    ensures
        tab is Some <==> selects(line@, vec_view(*container)),
        tab is Some ==> tab->0 == position(line@, '\t') && tab->0 < line.len(),
{
    let tab = find_char(line, '\t');
    if tab == line.len() {
        return None;
    }
    let id = vstd::slice::slice_subrange(line, tab + 1, line.len());
    proof {
        assert(id@ == after(line@, '\t'));
    }
    if find_char(id, '\t') < id.len() {
        return None;
    }
    match container {
        Some(name) => {
            let found = vstd::slice::slice_subrange(line, 0, tab);
            proof {
                assert(found@ == before(line@, '\t'));
            }
            if same_chars(found, name.as_slice()) {
                Some(tab)
            } else {
                None
            }
        },
        None => Some(tab),
    }
}

/// The characters of an optional vector.
pub open spec fn vec_view(v: Option<Vec<char>>) -> Option<Seq<char>> {
    match v {
        Some(v) => Some(v@),
        None => None,
    }
}

/// Picks the container asked for from the listing that the control plane
/// printed, and returns its bare identifier.
pub fn select_containerd_id(listing: &str, pod_name: &str, container_name: Option<&str>) -> (id:
    Result<String, LookupError>)
    ensures
        lift_text(id) == listed_id(listing@, pod_name@, text_view(container_name)),
{
    let chars = to_chars(listing);
    let lines = split_chars(chars.as_slice(), '\n');
    let container: Option<Vec<char>> = match container_name {
        Some(name) => Some(to_chars(name)),
        None => None,
    };
    let ghost wanted = text_view(container_name);
    let mut i: usize = 0;
    while i < lines.len()
        invariant
            i <= lines.len(),
            views(lines@) == split(listing@, '\n'),
            vec_view(container) == wanted,
            wanted == text_view(container_name),
            forall|j: int| 0 <= j < i ==> !selects(#[trigger] views(lines@)[j], wanted),
        decreases lines.len() - i,
    {
        let line = lines[i];
        assert(views(lines@)[i as int] == line@);
        match record_tab(line, &container) {
            Some(tab) => {
                proof {
                    lemma_first_where_unique(
                        views(lines@),
                        |line: Seq<char>| selects(line, wanted),
                        i as int,
                    );
                }
                let id = vstd::slice::slice_subrange(line, tab + 1, line.len());
                assert(id@ == after(line@, '\t'));
                return strip_scheme(id);
            },
            None => {},
        }
        i += 1;
    }
    proof {
        lemma_first_where_unique(
                        views(lines@),
                        |line: Seq<char>| selects(line, wanted),
                        i as int,
                    );
    }
    let message = match container_name {
        Some(name) => join5("no container named '", name, "' found in pod '", pod_name, "'"),
        None => join3("no containers found in pod '", pod_name, "'"),
    };
    Err(LookupError::new(ErrorKind::NotFound, message))
}

/// Reads the answer of the control plane: the bare identifier that the
/// runtime gave to the container asked for.
pub fn get_containerd_id(
    ran: &Result<CommandOutput, String>,
    pod_name: &str,
    container_name: Option<&str>,
) -> (id: Result<String, LookupError>)
    ensures
        lift_text(id) == containerd_id(ran_view(*ran), pod_name@, text_view(container_name)),
{
    match ran {
        Err(cause) => Err(start_failure("failed to execute 'kubectl get pod'", cause.as_str())),
        Ok(output) => {
            if !output.success() {
                let said = read_lossy(output.stderr.as_slice());
                return Err(
                    exit_failure("kubectl get pod failed", output.status.as_str(), said.as_str()),
                );
            }
            match read_utf8(output.stdout.as_slice()) {
                None => Err(
                    LookupError::new(
                        ErrorKind::ParseError,
                        String::from_str("kubectl response contains non-UTF8 data"),
                    ),
                ),
                Some(listing) => select_containerd_id(listing, pod_name, container_name),
            }
        },
    }
}

/// The directory below which the control groups of the machine are shown.
pub const CGROUP_ROOT: &'static str = "/sys/fs/cgroup";

/// Starts the search for the control group of the container with the bare
/// identifier `containerd_id`: for a directory of that name below the root
/// of the control groups.
pub fn find_cgroup(containerd_id: &str) -> (search: CgroupSearch)
    ensures
        search@ == SearchView::start(CGROUP_ROOT@, containerd_id@),
{
    CgroupSearch::new(CGROUP_ROOT, containerd_id)
}

/// The file that lists the processes of the control group `cgroup`.
pub open spec fn procs_path(cgroup: Seq<char>) -> Seq<char> {
    cgroup + "/cgroup.procs"@
}

/// That `text` is no process ID.
pub open spec fn invalid_member(text: Seq<char>) -> ErrorView {
    ErrorView {
        kind: ErrorKind::ParseError,
        message: "invalid PID value '"@ + text + "' in cgroup.procs"@,
    }
}

/// A process of the control group `cgroup`, `read` being what reading the
/// list of its processes gave: the number in the first line of the list. A
/// line that writes no number, or a number beyond the range of a process
/// ID, is malformed.
pub open spec fn member(cgroup: Seq<char>, read: Result<Seq<u8>, Seq<char>>) -> Result<
    pid_t,
    ErrorView,
> {
    match read {
        Err(cause) => Err(
            system_failure(
                "failed to read cgroup.procs file at '"@ + procs_path(cgroup) + "'"@,
                cause,
            ),
        ),
        Ok(bytes) => if !valid_utf8(bytes) {
            Err(
                ErrorView {
                    kind: ErrorKind::ParseError,
                    message: "cgroup.procs contains non-UTF8 data"@,
                },
            )
        } else {
            let first = before(decode_utf8(bytes), '\n');
            match unsigned_pid_of(first) {
                Some(pid) => Ok(pid),
                None => Err(invalid_member(first)),
            }
        },
    }
}

/// The path of the file that lists the processes of a control group.
pub fn procs_file(cgroup: &str) -> (path: String)
    ensures
        path@ == procs_path(cgroup@),
{
    join2(cgroup, "/cgroup.procs")
}

/// Reads the list of the processes of a control group, and returns the
/// first of them.
pub fn get_cgroup_pid(cgroup: &str, read: &Result<Vec<u8>, String>) -> (pid: Result<
    pid_t,
    LookupError,
>)
    ensures
        lift(pid) == member(cgroup@, read_view(*read)),
{
    match read {
        Err(cause) => {
            let path = procs_file(cgroup);
            let what = join3("failed to read cgroup.procs file at '", path.as_str(), "'");
            Err(unreadable(what.as_str(), cause.as_str()))
        },
        Ok(bytes) => match read_utf8(bytes.as_slice()) {
            None => Err(
                LookupError::new(
                    ErrorKind::ParseError,
                    String::from_str("cgroup.procs contains non-UTF8 data"),
                ),
            ),
            Some(text) => {
                let chars = to_chars(text);
                let end = find_char(chars.as_slice(), '\n');
                let first = vstd::slice::slice_subrange(chars.as_slice(), 0, end);
                match parse_unsigned_pid(first) {
                    Some(pid) => Ok(pid),
                    None => {
                        let shown = text_of(first);
                        Err(
                            LookupError::new(
                                ErrorKind::ParseError,
                                join3("invalid PID value '", shown.as_str(), "' in cgroup.procs"),
                            ),
                        )
                    },
                }
            },
        },
    }
}

/// What is said before a failure to learn the identifier of the container.
pub open spec fn query_context(namespace: Seq<char>, pod: Seq<char>) -> Seq<char> {
    "failed to get containerd ID for pod '"@ + pod + "' in namespace '"@ + namespace + "'"@
}

/// What is said before a failure to find the control group.
pub open spec fn search_context(id: Seq<char>) -> Seq<char> {
    "failed to find cgroup for containerd ID '"@ + id + "'"@
}

/// What is said before a failure to read the processes of the control group.
pub open spec fn read_context(cgroup: Seq<char>) -> Seq<char> {
    "failed to get PID from cgroup '"@ + cgroup + "'"@
}

/// A result with its failure put in context.
pub open spec fn framed<T>(r: Result<T, ErrorView>, what: Seq<char>) -> Result<T, ErrorView> {
    match r {
        Ok(value) => Ok(value),
        Err(e) => Err(in_context(e, what)),
    }
}

/// Where the lookup of a pod stands.
pub enum Stage {
    /// The control plane is asked for the container of the pod.
    Query { namespace: Seq<char>, pod: Seq<char>, container: Option<Seq<char>> },
    /// The control groups are searched for the one of the container `id`.
    Search { id: Seq<char>, search: SearchView },
    /// The processes of the control group are read.
    Read { cgroup: Seq<char> },
    /// The lookup has ended.
    Done(Result<pid_t, ErrorView>),
}

impl Stage {
    /// The stage in which the lookup of the identifier `id` starts.
    pub open spec fn start(id: Seq<char>) -> Stage {
        Stage::Query {
            namespace: userinput(id).namespace,
            pod: userinput(id).pod,
            container: userinput(id).container,
        }
    }

    /// What holds of every stage that a lookup can reach: a search that
    /// goes on wants a directory listed.
    pub open spec fn wf(self) -> bool {
        self matches Stage::Search { search, .. } ==> search.wanted() is Some
    }

    /// What the lookup wants next.
    pub open spec fn next(self) -> StepView {
        match self {
            Stage::Query { namespace, pod, .. } => StepView::Ask(
                RequestView::Run(status_query(namespace, pod)),
            ),
            Stage::Search { search, .. } => StepView::Ask(
                RequestView::ListDir(search.wanted()->0),
            ),
            Stage::Read { cgroup } => StepView::Ask(RequestView::ReadFile(procs_path(cgroup))),
            Stage::Done(answer) => StepView::Done(answer),
        }
    }

    /// The stage after the system has answered. An answer to another
    /// question than the one that was asked is ignored.
    pub open spec fn resumed(self, reply: ReplyView) -> Stage {
        match (self, reply) {
            (Stage::Query { namespace, pod, container }, ReplyView::Ran(ran)) => {
                match containerd_id(ran, pod, container) {
                    Ok(id) => Stage::Search { id, search: SearchView::start(CGROUP_ROOT@, id) },
                    Err(e) => Stage::Done(Err(in_context(e, query_context(namespace, pod)))),
                }
            },
            (Stage::Search { id, search }, ReplyView::Dir(listing)) => {
                let walked = search.listed(listing);
                match walked.outcome() {
                    None => Stage::Search { id, search: walked },
                    Some(Ok(cgroup)) => Stage::Read { cgroup },
                    Some(Err(e)) => Stage::Done(Err(in_context(e, search_context(id)))),
                }
            },
            (Stage::Read { cgroup }, ReplyView::File(read)) => Stage::Done(
                framed(member(cgroup, read), read_context(cgroup)),
            ),
            _ => self,
        }
    }
}

enum Standing {
    Query { namespace: String, pod: String, container: Option<String> },
    Search { id: String, search: CgroupSearch },
    Read { cgroup: String },
    Done(Result<pid_t, LookupError>),
}

/// The lookup of a pod, in progress.
pub struct KubernetesLookup {
    standing: Standing,
}

impl View for KubernetesLookup {
    type V = Stage;

    closed spec fn view(&self) -> Stage {
        match self.standing {
            Standing::Query { namespace, pod, container } => Stage::Query {
                namespace: namespace@,
                pod: pod@,
                container: string_view(container),
            },
            Standing::Search { id, search } => Stage::Search { id: id@, search: search@ },
            Standing::Read { cgroup } => Stage::Read { cgroup: cgroup@ },
            Standing::Done(answer) => Stage::Done(lift(answer)),
        }
    }
}

impl KubernetesLookup {
    #[verifier::type_invariant]
    spec fn inv(self) -> bool {
        self@.wf()
    }

    /// What the lookup wants next.
    pub fn next(&self) -> (step: Step)
        ensures
            step@ == self@.next(),
            self@.wf(),
    {
        proof {
            use_type_invariant(self);
        }
        match &self.standing {
            Standing::Query { namespace, pod, .. } => Step::Ask(
                Request::Run(kubectl_command(namespace.as_str(), pod.as_str())),
            ),
            Standing::Search { search, .. } => match search.wanted() {
                Some(dir) => Step::Ask(Request::ListDir(dir)),
                None => vstd::pervasive::unreached(),
            },
            Standing::Read { cgroup } => Step::Ask(Request::ReadFile(procs_file(cgroup.as_str()))),
            Standing::Done(Ok(pid)) => Step::Done(Ok(*pid)),
            Standing::Done(Err(e)) => Step::Done(Err(e.duplicate())),
        }
    }

    /// Takes the answer of the system to what the lookup wanted.
    pub fn resume(self, reply: Reply) -> (lookup: KubernetesLookup)
        ensures
            lookup@ == self@.resumed(reply@),
            lookup@.wf(),
    {
        proof {
            use_type_invariant(&self);
        }
        match (self.standing, reply) {
            (Standing::Query { namespace, pod, container }, Reply::Ran(ran)) => {
                let wanted = match &container {
                    Some(name) => Some(name.as_str()),
                    None => None,
                };
                match get_containerd_id(&ran, pod.as_str(), wanted) {
                    Ok(id) => {
                        let search = find_cgroup(id.as_str());
                        KubernetesLookup { standing: Standing::Search { id, search } }
                    },
                    Err(e) => {
                        let what = join5(
                            "failed to get containerd ID for pod '",
                            pod.as_str(),
                            "' in namespace '",
                            namespace.as_str(),
                            "'",
                        );
                        KubernetesLookup { standing: Standing::Done(Err(e.context(what.as_str()))) }
                    },
                }
            },
            (Standing::Search { id, search }, Reply::Dir(listing)) => {
                let walked = search.visit_dirs(listing);
                match walked.outcome() {
                    None => KubernetesLookup { standing: Standing::Search { id, search: walked } },
                    Some(Ok(cgroup)) => KubernetesLookup { standing: Standing::Read { cgroup } },
                    Some(Err(e)) => {
                        let what = join3(
                            "failed to find cgroup for containerd ID '",
                            id.as_str(),
                            "'",
                        );
                        KubernetesLookup { standing: Standing::Done(Err(e.context(what.as_str()))) }
                    },
                }
            },
            (Standing::Read { cgroup }, Reply::File(read)) => {
                let answer = match get_cgroup_pid(cgroup.as_str(), &read) {
                    Ok(pid) => Ok(pid),
                    Err(e) => {
                        let what = join3("failed to get PID from cgroup '", cgroup.as_str(), "'");
                        Err(e.context(what.as_str()))
                    },
                };
                KubernetesLookup { standing: Standing::Done(answer) }
            },
            (standing, _) => KubernetesLookup { standing },
        }
    }
}

impl Kubernetes {
    /// Starts the lookup of the pod that `container_id` names: the
    /// identifier is read, and the control plane is to be asked.
    pub fn lookup(&self, container_id: &str) -> (lookup: KubernetesLookup)
        ensures
            lookup@ == Stage::start(container_id@),
    {
        match parse_userinput(container_id) {
            Ok((namespace, pod, container)) => KubernetesLookup {
                standing: Standing::Query {
                    namespace: String::from_str(namespace),
                    pod: String::from_str(pod),
                    container: match container {
                        Some(name) => Some(String::from_str(name)),
                        None => None,
                    },
                },
            },
            Err(e) => KubernetesLookup { standing: Standing::Done(Err(e)) },
        }
    }

    /// Whether Kubernetes can be asked: `kubectl` has to be installed.
    pub fn check_required_tools(&self, tools: &Tools) -> (checked: Result<(), LookupError>)
        ensures
            lift(checked) == tools_needed(*tools),
    {
        require_tool(
            tools.kubectl,
            "kubernetes runtime not found: 'kubectl' command is not available",
        )
    }
}

/// A machine as the lookup of a pod sees it.
pub struct Cluster {
    /// What running a command gives.
    pub programs: spec_fn(Seq<Seq<char>>) -> Result<OutputView, Seq<char>>,
    /// The entries of the root of the control groups, with what lies below
    /// them.
    pub cgroups: Seq<Tree>,
    /// What reading the file at a path gives.
    pub files: spec_fn(Seq<char>) -> Result<Seq<u8>, Seq<char>>,
}

/// The stage of a lookup whose search for the control group of the container
/// `id` stands before the directory `dir`, which holds the entries
/// `forest`, once the search has been run on the tree around it, of which
/// `rest` says what is left: the stage after the search, or after `fuel`
/// listings.
pub open spec fn run_search(
    stage: Stage,
    rest: Seq<Pending>,
    dir: Seq<char>,
    forest: Seq<Tree>,
    fuel: nat,
) -> Stage
    decreases fuel,
{
    match stage {
        Stage::Search { id, .. } => if fuel == 0 {
            stage
        } else {
            let listed = stage.resumed(
                ReplyView::Dir(ListingView { entries: listing_of(forest), failure: None }),
            );
            match head_on(rest.push(Pending { dir, forest }), id).1 {
                Heading::Into(path, children) => run_search(
                    listed,
                    head_on(rest.push(Pending { dir, forest }), id).0,
                    path,
                    children,
                    (fuel - 1) as nat,
                ),
                _ => listed,
            }
        },
        _ => stage,
    }
}

/// The stage `stage` after the command that it wants has run on the
/// machine `cluster`.
pub open spec fn run_command(stage: Stage, cluster: Cluster) -> Stage {
    match stage.next() {
        StepView::Ask(RequestView::Run(argv)) => stage.resumed(
            ReplyView::Ran((cluster.programs)(argv)),
        ),
        _ => stage,
    }
}

/// The stage in which the lookup of the identifier `id` ends on the
/// machine `cluster`, where the search is given `fuel` listings: the
/// command that the lookup wants is run, the control groups are searched,
/// and the file that the lookup then wants is read.
pub open spec fn run(id: Seq<char>, cluster: Cluster, fuel: nat) -> Stage {
    let queried = run_command(Stage::start(id), cluster);
    let searched = run_search(queried, Seq::empty(), CGROUP_ROOT@, cluster.cgroups, fuel);
    match searched.next() {
        StepView::Ask(RequestView::ReadFile(path)) => searched.resumed(
            ReplyView::File((cluster.files)(path)),
        ),
        _ => searched,
    }
}

/// What the lookup of the identifier `id` comes to on the machine
/// `cluster`: the control plane names the container, the first directory
/// below the root of the control groups that is named as the container is
/// its control group, and the first process in the list of that group is
/// the answer. A failure is said with the step that failed.
pub open spec fn resolved(id: Seq<char>, cluster: Cluster) -> Result<pid_t, ErrorView> {
    let namespace = userinput(id).namespace;
    let pod = userinput(id).pod;
    match containerd_id(
        (cluster.programs)(status_query(namespace, pod)),
        pod,
        userinput(id).container,
    ) {
        Err(e) => Err(in_context(e, query_context(namespace, pod))),
        Ok(container) => match first_match(cluster.cgroups, CGROUP_ROOT@, container) {
            None => Err(in_context(not_found(), search_context(container))),
            Some(cgroup) => framed(
                member(cgroup, (cluster.files)(procs_path(cgroup))),
                read_context(cgroup),
            ),
        },
    }
}

proof fn lemma_run_search(
    id: Seq<char>,
    search: SearchView,
    rest: Seq<Pending>,
    dir: Seq<char>,
    forest: Seq<Tree>,
    fuel: nat,
)
    requires
        consistent(search.frames, rest),
        search.status == Status::Awaiting(dir),
        search.root_failure is None,
        search.target == id,
        fuel > nodes_pending(rest) + nodes(forest),
    ensures
        run_search(Stage::Search { id, search }, rest, dir, forest, fuel) == match first_pending(
            rest.push(Pending { dir, forest }),
            id,
        ) {
            Some(cgroup) => Stage::Read { cgroup },
            None => Stage::Done(Err(in_context(not_found(), search_context(id)))),
        },
    decreases fuel,
{
    let listing = ListingView { entries: listing_of(forest), failure: None };
    let listed = search.listed(listing);
    let entered = search.frames.push(FrameView { dir, entries: listing_of(forest), next: 0 });
    let before = rest.push(Pending { dir, forest });
    assert(before.drop_last() == rest);
    assert(consistent(entered, before)) by {
        assert forall|k: int| 0 <= k < entered.len() implies {
            &&& (#[trigger] entered[k]).dir == before[k].dir
            &&& entered[k].next <= entered[k].entries.len()
            &&& entered[k].entries.skip(entered[k].next as int) == listing_of(before[k].forest)
        } by {
            if k < search.frames.len() {
                assert(entered[k] == search.frames[k]);
                assert(before[k] == rest[k]);
            } else {
                assert(listing_of(forest).skip(0) =~= listing_of(forest));
            }
        }
    }
    lemma_walks_agree(entered, before, id, true);
    lemma_heading(before, id);
    let (left, heading) = head_on(before, id);
    match heading {
        Heading::Into(path, children) => {
            lemma_run_search(id, listed, left, path, children, (fuel - 1) as nat);
        },
        _ => {},
    }
}

/// The lookup of a pod goes the way from the pod to the process. Run on a
/// machine, with a listing for each directory of the control groups at
/// least, the lookup ends with what `resolved` says of the machine.
pub proof fn law_lookup_resolves(id: Seq<char>, cluster: Cluster, fuel: nat)
    requires
        fuel > nodes(cluster.cgroups),
    ensures
        run(id, cluster, fuel).next() == StepView::Done(resolved(id, cluster)),
{
    match containerd_id(
        (cluster.programs)(status_query(userinput(id).namespace, userinput(id).pod)),
        userinput(id).pod,
        userinput(id).container,
    ) {
        Err(_) => {},
        Ok(container) => {
            let search = SearchView::start(CGROUP_ROOT@, container);
            assert(nodes_pending(Seq::<Pending>::empty()) == 0);
            lemma_run_search(
                container,
                search,
                Seq::empty(),
                CGROUP_ROOT@,
                cluster.cgroups,
                fuel,
            );
            let only = Seq::<Pending>::empty().push(
                Pending { dir: CGROUP_ROOT@, forest: cluster.cgroups },
            );
            assert(only.drop_last() == Seq::<Pending>::empty());
            assert(first_pending(only.drop_last(), container) is None);
        },
    }
}

} // verus!
