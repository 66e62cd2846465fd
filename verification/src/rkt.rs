//! Pods of rkt: `rkt status` names the process that supervises the pod, and
//! the pod itself is the child of that process.

use vstd::prelude::*;
use vstd::utf8::{decode_utf8, valid_utf8};
use libc::pid_t;
use crate::cgroup::{entry_views, DirEntry, EntryView, ListingView};
use crate::error::{
    in_context, lift, lift_text, system_failure, unreadable, ErrorKind, ErrorView, LookupError,
};
use crate::number::{parse_pid, pid_of};
use crate::output::{
    ended_badly, exit_failure, lossy_chars, lossy_text, not_started, ran_view, read_lossy,
    read_utf8, read_view, start_failure, text_of, CommandOutput, OutputView,
};
use crate::scan::{Verdict, VerdictView};
use crate::seqs::{
    after, before, find_byte, find_char, first_where, lemma_first_where, lemma_first_where_unique,
    occurs, same_chars, split, split_bytes, views,
};
use crate::system::{
    frame_step, framed_step, Reply, ReplyView, Request, RequestView, Step, StepView,
};
use crate::text::{
    find_keyed_row, join2, join3, keyed_row, string_view, texts, to_chars, trim_end, trim_end_of,
    EQUALS, NEWLINE,
};
use crate::tools::{require_tool, tool_missing, Tools};

verus! {

/// The runtime rkt.
#[derive(Clone, Copy, Debug)]
pub struct Rkt {}

/// The command that asks for the status of the pod `id`.
pub open spec fn query(id: Seq<char>) -> Seq<Seq<char>> {
    seq!["rkt"@, "status"@, id]
}

/// The command `query(id)` as one reads it.
pub open spec fn query_text(id: Seq<char>) -> Seq<char> {
    "rkt status "@ + id
}

/// That the status names no process.
pub open spec fn no_pid_field(id: Seq<char>, stdout: Seq<u8>) -> ErrorView {
    ErrorView {
        kind: ErrorKind::ParseError,
        message: "expected to find `pid=` field in output of '"@ + query_text(id) + "', got: "@
            + lossy_text(stdout),
    }
}

/// What the answer `ran` of `rkt status` says of the supervisor of the pod
/// `id`: the text after the equals sign of the first line that has `pid`
/// before its first equals sign.
pub open spec fn parent(id: Seq<char>, ran: Result<OutputView, Seq<char>>) -> Result<
    Seq<char>,
    ErrorView,
> {
    match ran {
        Err(cause) => Err(not_started("Running '"@ + query_text(id) + "' failed"@, cause)),
        Ok(output) => if !output.succeeded() {
            Err(
                ended_badly(
                    "Failed to list containers. '"@ + query_text(id) + "' failed"@,
                    output.status,
                    trim_end(lossy_text(output.stderr)),
                ),
            )
        } else {
            let lines = split(output.stdout, NEWLINE);
            let row = keyed_row(lines, EQUALS, "pid"@);
            if row == lines.len() || !occurs(lines[row], EQUALS) {
                Err(no_pid_field(id, output.stdout))
            } else {
                Ok(lossy_text(after(lines[row], EQUALS)))
            }
        },
    }
}

/// Whether `line` of a process status says that the parent of the process is
/// `parent`: it is `PPid:`, a tab and `parent`.
pub open spec fn names_parent(line: Seq<u8>, parent: Seq<char>) -> bool {
    &&& valid_utf8(line)
    &&& occurs(decode_utf8(line), '\t')
    &&& before(decode_utf8(line), '\t') == "PPid:"@
    &&& after(decode_utf8(line), '\t') == parent
}

/// That the name of an entry of the process directory is no process ID.
pub open spec fn invalid_entry(parent: Seq<char>) -> ErrorView {
    ErrorView {
        kind: ErrorKind::ParseError,
        message: "read invalid pid from proc: '"@ + parent + "'"@,
    }
}

/// The outcome of examining the process with the entry `name`, `status`
/// being what reading its status file at `path` gave. The lines of the status
/// are read in order, up to the first that names `parent` as the parent of
/// the process; a line that is not UTF-8 ends the search. A status that
/// cannot be read is passed over.
pub open spec fn examined(
    parent: Seq<char>,
    name: Seq<char>,
    path: Seq<char>,
    status: Result<Seq<u8>, Seq<char>>,
) -> VerdictView {
    match status {
        Err(_) => VerdictView::Continue,
        Ok(bytes) => {
            let lines = split(bytes, NEWLINE);
            let hit = first_where(lines, |line: Seq<u8>| names_parent(line, parent));
            let bad = first_where(lines, |line: Seq<u8>| !valid_utf8(line));
            if hit < bad {
                match pid_of(name) {
                    Some(pid) => VerdictView::Found(pid),
                    None => VerdictView::Failed(invalid_entry(parent)),
                }
            } else if bad < lines.len() {
                VerdictView::Failed(
                    system_failure(
                        "could not read "@ + path,
                        "stream did not contain valid UTF-8"@,
                    ),
                )
            } else {
                VerdictView::Continue
            }
        },
    }
}

/// That no process has the parent `parent`.
pub open spec fn no_child(parent: Seq<char>) -> ErrorView {
    ErrorView {
        kind: ErrorKind::NotFound,
        message: "no child process found for pid "@ + parent,
    }
}

/// The file that holds the status of the process with the entry `name` of
/// the process directory `root`.
pub open spec fn status_path(root: Seq<char>, name: Seq<char>) -> Seq<char> {
    root + "/"@ + name + "/status"@
}

/// Where a search for the child of a process stands.
pub enum Turn {
    /// The processes are to be listed.
    List,
    /// The status of the process at this index of the listing is to be read.
    Status { at: nat },
    /// The search has ended.
    Done(Result<pid_t, ErrorView>),
}

/// The state of a search for the child of a process.
pub struct ChildView {
    /// The directory in which the system shows its processes.
    pub root: Seq<char>,
    /// The ID of the parent, as text.
    pub parent: Seq<char>,
    /// The entries of the process directory, once they are listed.
    pub entries: Seq<EntryView>,
    /// Why the listing stopped before its end, if it did.
    pub failure: Option<Seq<char>>,
    /// Where the search stands.
    pub turn: Turn,
}

/// How a search ends that has gone through all processes: without a
/// child, or with the failure of the listing that broke off.
pub open spec fn exhausted(parent: Seq<char>, root: Seq<char>, failure: Option<Seq<char>>)
    -> ErrorView {
    match failure {
        Some(cause) => system_failure("failed to read "@ + root + " directory"@, cause),
        None => no_child(parent),
    }
}

impl ChildView {
    /// The state in which the search for the child of `parent` starts,
    /// among the processes that the directory `root` shows.
    pub open spec fn start(root: Seq<char>, parent: Seq<char>) -> ChildView {
        ChildView { root, parent, entries: Seq::empty(), failure: None, turn: Turn::List }
    }

    /// What holds of every state that a search can reach.
    pub open spec fn wf(self) -> bool {
        self.turn matches Turn::Status { at } ==> at < self.entries.len()
    }

    /// Where the search stands that is to go on with the entry at index
    /// `from`: at that entry, or at its end.
    pub open spec fn turn_to(self, from: nat) -> Turn {
        if from < self.entries.len() {
            Turn::Status { at: from }
        } else {
            Turn::Done(Err(exhausted(self.parent, self.root, self.failure)))
        }
    }

    /// What the search wants next.
    pub open spec fn next(self) -> StepView {
        match self.turn {
            Turn::List => StepView::Ask(RequestView::ListDir(self.root)),
            Turn::Status { at } => StepView::Ask(
                RequestView::ReadFile(status_path(self.root, self.entries[at as int].name)),
            ),
            Turn::Done(answer) => StepView::Done(answer),
        }
    }

    /// The state after the system has answered. An answer to another
    /// question than the one that was asked is ignored.
    pub open spec fn resumed(self, reply: ReplyView) -> ChildView {
        match (self.turn, reply) {
            (Turn::List, ReplyView::Dir(listing)) => {
                let listed = ChildView {
                    entries: listing.entries,
                    failure: listing.failure,
                    ..self
                };
                ChildView { turn: listed.turn_to(0), ..listed }
            },
            (Turn::Status { at }, ReplyView::File(read)) => ChildView {
                turn: match examined(
                    self.parent,
                    self.entries[at as int].name,
                    status_path(self.root, self.entries[at as int].name),
                    read,
                ) {
                    VerdictView::Found(pid) => Turn::Done(Ok(pid)),
                    VerdictView::Failed(e) => Turn::Done(Err(e)),
                    VerdictView::Continue => self.turn_to(at + 1),
                },
                ..self
            },
            _ => self,
        }
    }
}

enum Place {
    List,
    Status { at: usize },
    Done(Result<pid_t, LookupError>),
}

impl View for Place {
    type V = Turn;

    closed spec fn view(&self) -> Turn {
        match self {
            Place::List => Turn::List,
            Place::Status { at } => Turn::Status { at: *at as nat },
            Place::Done(answer) => Turn::Done(lift(*answer)),
        }
    }
}

/// A search for the child of a process, in progress.
pub struct ChildSearch {
    root: String,
    parent: String,
    entries: Vec<DirEntry>,
    failure: Option<String>,
    place: Place,
}

impl View for ChildSearch {
    type V = ChildView;

    closed spec fn view(&self) -> ChildView {
        ChildView {
            root: self.root@,
            parent: self.parent@,
            entries: entry_views(self.entries@),
            failure: string_view(self.failure),
            turn: self.place@,
        }
    }
}

/// Goes on with the entry at index `from`.
fn turn_to(
    root: &str,
    parent: &str,
    entries: &Vec<DirEntry>,
    failure: &Option<String>,
    from: usize,
) -> (place: Place)
    ensures
        place@ == (ChildView {
            root: root@,
            parent: parent@,
            entries: entry_views(entries@),
            failure: string_view(*failure),
            turn: Turn::List,
        }).turn_to(from as nat),
{
    assert(entry_views(entries@).len() == entries@.len());
    if from < entries.len() {
        Place::Status { at: from }
    } else {
        Place::Done(
            Err(
                match failure {
                    Some(cause) => {
                        let what = join3("failed to read ", root, " directory");
                        unreadable(what.as_str(), cause.as_str())
                    },
                    None => LookupError::new(
                        ErrorKind::NotFound,
                        join2("no child process found for pid ", parent),
                    ),
                },
            ),
        )
    }
}

/// Starts the search for the child of the process `parent_pid`: among the
/// processes that the directory `proc_root` shows, in the order in which
/// the system lists them, for the first whose status names `parent_pid` as
/// its parent.
pub fn find_child_processes(parent_pid: &str, proc_root: &str) -> (search: ChildSearch)
    ensures
        search@ == ChildView::start(proc_root@, parent_pid@),
{
    let search = ChildSearch {
        root: String::from_str(proc_root),
        parent: String::from_str(parent_pid),
        entries: Vec::new(),
        failure: None,
        place: Place::List,
    };
    assert(search@.entries =~= Seq::empty());
    search
}

impl ChildSearch {
    #[verifier::type_invariant]
    spec fn inv(self) -> bool {
        self@.wf()
    }

    /// What the search wants next.
    pub fn next(&self) -> (step: Step)
        ensures
            step@ == self@.next(),
            self@.wf(),
    {
        proof {
            use_type_invariant(self);
            assert(entry_views(self.entries@).len() == self.entries@.len());
        }
        match &self.place {
            Place::List => Step::Ask(Request::ListDir(self.root.clone())),
            Place::Status { at } => {
                assert(entry_views(self.entries@)[*at as int] == self.entries@[*at as int]@);
                let dir = join3(self.root.as_str(), "/", self.entries[*at].name.as_str());
                Step::Ask(Request::ReadFile(join2(dir.as_str(), "/status")))
            },
            Place::Done(Ok(pid)) => Step::Done(Ok(*pid)),
            Place::Done(Err(e)) => Step::Done(Err(e.duplicate())),
        }
    }

    /// Takes the answer of the system to what the search wanted.
    pub fn resume(self, reply: Reply) -> (search: ChildSearch)
        ensures
            search@ == self@.resumed(reply@),
            search@.wf(),
    {
        proof {
            use_type_invariant(&self);
            assert(entry_views(self.entries@).len() == self.entries@.len());
        }
        match (self.place, reply) {
            (Place::List, Reply::Dir(listing)) => {
                let place = turn_to(
                    self.root.as_str(),
                    self.parent.as_str(),
                    &listing.entries,
                    &listing.failure,
                    0,
                );
                assert(entry_views(listing.entries@).len() == listing.entries@.len());
                ChildSearch {
                    root: self.root,
                    parent: self.parent,
                    entries: listing.entries,
                    failure: listing.failure,
                    place,
                }
            },
            (Place::Status { at }, Reply::File(read)) => {
                assert(self@.turn == Turn::Status { at: at as nat });
                assert(at < self.entries.len());
                assert(entry_views(self.entries@)[at as int] == self.entries@[at as int]@);
                let dir = join3(self.root.as_str(), "/", self.entries[at].name.as_str());
                let path = join2(dir.as_str(), "/status");
                let place = match (Rkt {}).examine(
                    self.parent.as_str(),
                    self.entries[at].name.as_str(),
                    path.as_str(),
                    &read,
                ) {
                    Verdict::Found(pid) => Place::Done(Ok(pid)),
                    Verdict::Failed(e) => Place::Done(Err(e)),
                    Verdict::Continue => turn_to(
                        self.root.as_str(),
                        self.parent.as_str(),
                        &self.entries,
                        &self.failure,
                        at + 1,
                    ),
                };
                ChildSearch {
                    root: self.root,
                    parent: self.parent,
                    entries: self.entries,
                    failure: self.failure,
                    place,
                }
            },
            (place, _) => ChildSearch {
                root: self.root,
                parent: self.parent,
                entries: self.entries,
                failure: self.failure,
                place,
            },
        }
    }
}

/// What is said before a failure to find the process of the pod `id`.
pub open spec fn child_context(id: Seq<char>) -> Seq<char> {
    "could not find container process belonging to rkt container '"@ + id + "'"@
}

/// Where the lookup of a pod stands.
pub enum Stage {
    /// `rkt` is asked for the status of the pod.
    Status { root: Seq<char>, id: Seq<char> },
    /// The processes are searched for the child of the supervisor.
    Search { id: Seq<char>, search: ChildView },
    /// The lookup has ended before the search.
    Done(Result<pid_t, ErrorView>),
}

impl Stage {
    /// What the lookup wants next.
    pub open spec fn next(self) -> StepView {
        match self {
            Stage::Status { id, .. } => StepView::Ask(RequestView::Run(query(id))),
            Stage::Search { id, search } => framed_step(search.next(), child_context(id)),
            Stage::Done(answer) => StepView::Done(answer),
        }
    }

    /// The stage after the system has answered. An answer to another
    /// question than the one that was asked is ignored.
    pub open spec fn resumed(self, reply: ReplyView) -> Stage {
        match (self, reply) {
            (Stage::Status { root, id }, ReplyView::Ran(ran)) => match parent(id, ran) {
                Ok(supervisor) => Stage::Search { id, search: ChildView::start(root, supervisor) },
                Err(e) => Stage::Done(Err(e)),
            },
            (Stage::Search { id, search }, reply) => Stage::Search {
                id,
                search: search.resumed(reply),
            },
            _ => self,
        }
    }
}

enum Standing {
    Status { root: String, id: String },
    Search { id: String, search: ChildSearch },
    Done(Result<pid_t, LookupError>),
}

/// The lookup of a pod, in progress.
pub struct RktLookup {
    standing: Standing,
}

impl View for RktLookup {
    type V = Stage;

    closed spec fn view(&self) -> Stage {
        match self.standing {
            Standing::Status { root, id } => Stage::Status { root: root@, id: id@ },
            Standing::Search { id, search } => Stage::Search { id: id@, search: search@ },
            Standing::Done(answer) => Stage::Done(lift(answer)),
        }
    }
}

impl RktLookup {
    /// What the lookup wants next.
    pub fn next(&self) -> (step: Step)
        ensures
            step@ == self@.next(),
    {
        match &self.standing {
            Standing::Status { id, .. } => Step::Ask(
                Request::Run((Rkt {}).command(id.as_str())),
            ),
            Standing::Search { id, search } => {
                let what = join3(
                    "could not find container process belonging to rkt container '",
                    id.as_str(),
                    "'",
                );
                frame_step(search.next(), what.as_str())
            },
            Standing::Done(Ok(pid)) => Step::Done(Ok(*pid)),
            Standing::Done(Err(e)) => Step::Done(Err(e.duplicate())),
        }
    }

    /// Takes the answer of the system to what the lookup wanted.
    pub fn resume(self, reply: Reply) -> (lookup: RktLookup)
        ensures
            lookup@ == self@.resumed(reply@),
    {
        match (self.standing, reply) {
            (Standing::Status { root, id }, Reply::Ran(ran)) => {
                match (Rkt {}).supervisor(id.as_str(), &ran) {
                    Ok(supervisor) => {
                        let search = find_child_processes(supervisor.as_str(), root.as_str());
                        RktLookup { standing: Standing::Search { id, search } }
                    },
                    Err(e) => RktLookup { standing: Standing::Done(Err(e)) },
                }
            },
            (Standing::Search { id, search }, reply) => RktLookup {
                standing: Standing::Search { id, search: search.resume(reply) },
            },
            (standing, _) => RktLookup { standing },
        }
    }
}

/// Tells whether a line of a process status names `parent` as the parent.
fn line_names_parent(text: &str, parent: &[char]) -> (names: bool)
    ensures
        names == {
            &&& occurs(text@, '\t')
            &&& before(text@, '\t') == "PPid:"@
            &&& after(text@, '\t') == parent@
        },
{
    let chars = to_chars(text);
    let tab = find_char(chars.as_slice(), '\t');
    if tab == chars.len() {
        return false;
    }
    let key = to_chars("PPid:");
    same_chars(vstd::slice::slice_subrange(chars.as_slice(), 0, tab), key.as_slice())
        && same_chars(
        vstd::slice::slice_subrange(chars.as_slice(), tab + 1, chars.len()),
        parent,
    )
}

/// Whether the tools of this backend are among `tools`, and what is
/// missing if they are not.
pub open spec fn tools_needed(tools: Tools) -> Result<(), ErrorView> {
    if tools.rkt {
        Ok(())
    } else {
        Err(tool_missing("rkt not found"@))
    }
}

impl Rkt {
    /// Builds the command that asks for the status of the pod.
    pub fn command(&self, container_id: &str) -> (argv: Vec<String>)
        ensures
            texts(argv@) == query(container_id@),
    {
        let mut argv: Vec<String> = Vec::new();
        argv.push(String::from_str("rkt"));
        argv.push(String::from_str("status"));
        argv.push(String::from_str(container_id));
        assert(texts(argv@) =~= query(container_id@));
        argv
    }

    /// Reads the answer of `rkt status`: the process ID of the pod's
    /// supervisor, as the status writes it.
    pub fn supervisor(&self, container_id: &str, ran: &Result<CommandOutput, String>) -> (pid:
        Result<String, LookupError>)
        ensures
            lift_text(pid) == parent(container_id@, ran_view(*ran)),
    {
        let asked = join2("rkt status ", container_id);
        match ran {
            Err(cause) => {
                let what = join3("Running '", asked.as_str(), "' failed");
                Err(start_failure(what.as_str(), cause.as_str()))
            },
            Ok(output) => {
                if !output.success() {
                    let said = lossy_chars(output.stderr.as_slice());
                    let detail = text_of(trim_end_of(said.as_slice()));
                    let what = join3("Failed to list containers. '", asked.as_str(), "' failed");
                    return Err(
                        exit_failure(what.as_str(), output.status.as_str(), detail.as_str()),
                    );
                }
                let lines = split_bytes(output.stdout.as_slice(), NEWLINE);
                let row = find_keyed_row(&lines, EQUALS, "pid");
                if row < lines.len() {
                    let line = lines[row];
                    assert(views(lines@)[row as int] == line@);
                    let cut = find_byte(line, EQUALS);
                    if cut < line.len() {
                        return Ok(
                            read_lossy(vstd::slice::slice_subrange(line, cut + 1, line.len())),
                        );
                    }
                }
                let got = read_lossy(output.stdout.as_slice());
                let head = join3(
                    "expected to find `pid=` field in output of '",
                    asked.as_str(),
                    "', got: ",
                );
                Err(LookupError::new(ErrorKind::ParseError, join2(head.as_str(), got.as_str())))
            },
        }
    }

    /// Examines one entry of the process directory while looking for the
    /// child of the process `parent_pid`: `status` is what reading the
    /// status file of the process, at `status_path`, gave.
    #[verifier::loop_isolation(false)]
    pub fn examine(
        &self,
        parent_pid: &str,
        entry_name: &str,
        status_path: &str,
        status: &Result<Vec<u8>, String>,
    ) -> (verdict: Verdict)
        ensures
            verdict@ == examined(parent_pid@, entry_name@, status_path@, read_view(*status)),
    {
        match status {
            Err(_) => Verdict::Continue,
            Ok(bytes) => {
                let lines = split_bytes(bytes.as_slice(), NEWLINE);
                let parent = to_chars(parent_pid);
                let mut i: usize = 0;
                while i < lines.len()
                    invariant
                        i <= lines.len(),
                        forall|j: int|
                            0 <= j < i ==> valid_utf8(#[trigger] views(lines@)[j])
                                && !names_parent(views(lines@)[j], parent_pid@),
                    decreases lines.len() - i,
                {
                    let line = lines[i];
                    assert(views(lines@)[i as int] == line@);
                    match read_utf8(line) {
                        None => {
                            proof {
                                lemma_first_where_unique(
                                    views(lines@),
                                    |line: Seq<u8>| !valid_utf8(line),
                                    i as int,
                                );
                                lemma_first_where(
                                    views(lines@),
                                    |line: Seq<u8>| names_parent(line, parent_pid@),
                                );
                            }
                            let what = join2("could not read ", status_path);
                            return Verdict::Failed(
                                unreadable(what.as_str(), "stream did not contain valid UTF-8"),
                            );
                        },
                        Some(text) => {
                            if line_names_parent(text, parent.as_slice()) {
                                proof {
                                    lemma_first_where_unique(
                                        views(lines@),
                                        |line: Seq<u8>| names_parent(line, parent_pid@),
                                        i as int,
                                    );
                                    lemma_first_where(
                                        views(lines@),
                                        |line: Seq<u8>| !valid_utf8(line),
                                    );
                                }
                                let name = to_chars(entry_name);
                                return match parse_pid(name.as_slice()) {
                                    Some(pid) => Verdict::Found(pid),
                                    None => Verdict::Failed(
                                        LookupError::new(
                                            ErrorKind::ParseError,
                                            join3(
                                                "read invalid pid from proc: '",
                                                parent_pid,
                                                "'",
                                            ),
                                        ),
                                    ),
                                };
                            }
                        },
                    }
                    i += 1;
                }
                proof {
                    lemma_first_where_unique(
                        views(lines@),
                        |line: Seq<u8>| !valid_utf8(line),
                        i as int,
                    );
                    lemma_first_where_unique(
                        views(lines@),
                        |line: Seq<u8>| names_parent(line, parent_pid@),
                        i as int,
                    );
                }
                Verdict::Continue
            },
        }
    }

    /// Starts the lookup of the pod `container_id`, on a machine that shows
    /// its processes in the directory `proc_root`: `rkt` is to be asked for
    /// the status of the pod.
    pub fn lookup(&self, container_id: &str, proc_root: &str) -> (lookup: RktLookup)
        ensures
            lookup@ == (Stage::Status { root: proc_root@, id: container_id@ }),
    {
        RktLookup {
            standing: Standing::Status {
                root: String::from_str(proc_root),
                id: String::from_str(container_id),
            },
        }
    }

    /// Whether rkt can be asked: `rkt` has to be installed.
    pub fn check_required_tools(&self, tools: &Tools) -> (checked: Result<(), LookupError>)
        ensures
            lift(checked) == tools_needed(*tools),
    {
        require_tool(tools.rkt, "rkt not found")
    }
}

/// What a search over the processes `entries` ends with that starts at
/// index `from`, reading the status of the process behind the entry at
/// index `i` giving `statuses[i]`: the first outcome, in the order of the
/// listing, that is not to go on; or, past the last entry, the end of an
/// exhausted search.
pub open spec fn first_child(
    parent: Seq<char>,
    root: Seq<char>,
    entries: Seq<EntryView>,
    statuses: Seq<Result<Seq<u8>, Seq<char>>>,
    failure: Option<Seq<char>>,
    from: nat,
) -> Result<pid_t, ErrorView>
    decreases entries.len() - from,
{
    if from >= entries.len() {
        Err(exhausted(parent, root, failure))
    } else {
        match examined(
            parent,
            entries[from as int].name,
            status_path(root, entries[from as int].name),
            statuses[from as int],
        ) {
            VerdictView::Found(pid) => Ok(pid),
            VerdictView::Failed(e) => Err(e),
            VerdictView::Continue => first_child(
                parent,
                root,
                entries,
                statuses,
                failure,
                from + 1,
            ),
        }
    }
}

/// What the system answers to what the search in state `s` wants, on a
/// machine whose process directory lists as `listing` and on which reading
/// the status of the process behind the entry at index `i` gives
/// `statuses[i]`.
pub open spec fn reply_to(
    s: ChildView,
    listing: ListingView,
    statuses: Seq<Result<Seq<u8>, Seq<char>>>,
) -> ReplyView {
    match s.turn {
        Turn::Status { at } => ReplyView::File(statuses[at as int]),
        _ => ReplyView::Dir(listing),
    }
}

/// The state in which the search in state `s` ends on such a machine, or in
/// which it stands after `fuel` answers.
pub open spec fn run_search(
    s: ChildView,
    listing: ListingView,
    statuses: Seq<Result<Seq<u8>, Seq<char>>>,
    fuel: nat,
) -> ChildView
    decreases fuel,
{
    if fuel == 0 || s.turn is Done {
        s
    } else {
        run_search(
            s.resumed(reply_to(s, listing, statuses)),
            listing,
            statuses,
            (fuel - 1) as nat,
        )
    }
}

proof fn lemma_run_from(
    s: ChildView,
    listing: ListingView,
    statuses: Seq<Result<Seq<u8>, Seq<char>>>,
    from: nat,
    fuel: nat,
)
    requires
        s.entries == listing.entries,
        s.failure == listing.failure,
        s.turn == s.turn_to(from),
        statuses.len() == s.entries.len(),
        from <= s.entries.len(),
        fuel >= s.entries.len() - from,
    ensures
        run_search(s, listing, statuses, fuel).turn == Turn::Done(
            first_child(s.parent, s.root, s.entries, statuses, s.failure, from),
        ),
        run_search(s, listing, statuses, fuel).parent == s.parent,
    decreases s.entries.len() - from,
{
    if from < s.entries.len() {
        let read = s.resumed(reply_to(s, listing, statuses));
        match examined(
            s.parent,
            s.entries[from as int].name,
            status_path(s.root, s.entries[from as int].name),
            statuses[from as int],
        ) {
            VerdictView::Continue => {
                lemma_run_from(read, listing, statuses, from + 1, (fuel - 1) as nat);
            },
            _ => {
                assert(run_search(read, listing, statuses, (fuel - 1) as nat) == read);
            },
        }
    }
}

/// The search ends at the first process that decides it. On a machine
/// whose process directory `root` lists as `listing` and on which reading the
/// status of the process behind the entry at index `i` gives `statuses[i]`,
/// the search for the child of `parent` ends with the outcome of the first
/// entry, in the order of the listing, whose outcome is not to go on: with
/// the process whose status names `parent` as its parent, or with the
/// failure to use what was read. Where every entry is passed over, it
/// ends without a process.
pub proof fn law_search_ends_at_first_child(
    root: Seq<char>,
    parent: Seq<char>,
    listing: ListingView,
    statuses: Seq<Result<Seq<u8>, Seq<char>>>,
    fuel: nat,
)
    requires
        statuses.len() == listing.entries.len(),
        fuel > listing.entries.len(),
    ensures
        run_search(ChildView::start(root, parent), listing, statuses, fuel).turn == Turn::Done(
            first_child(parent, root, listing.entries, statuses, listing.failure, 0),
        ),
        run_search(ChildView::start(root, parent), listing, statuses, fuel).parent == parent,
{
    let start = ChildView::start(root, parent);
    let listed = start.resumed(reply_to(start, listing, statuses));
    lemma_run_from(listed, listing, statuses, 0, (fuel - 1) as nat);
}

/// A machine as the lookup of a pod of rkt sees it.
pub struct Host {
    /// What running a command gives.
    pub programs: spec_fn(Seq<Seq<char>>) -> Result<OutputView, Seq<char>>,
    /// The directory in which the machine shows its processes.
    pub root: Seq<char>,
    /// What listing the process directory gives.
    pub processes: ListingView,
    /// What reading the status of the process behind each entry of the
    /// process directory gives.
    pub statuses: Seq<Result<Seq<u8>, Seq<char>>>,
}

/// The stage `stage` after its search of the processes has run on the
/// machine `host`, or has been given `fuel` answers.
pub open spec fn run_stage(stage: Stage, host: Host, fuel: nat) -> Stage
    decreases fuel,
{
    match stage {
        Stage::Search { search, .. } => if fuel == 0 || search.turn is Done {
            stage
        } else {
            run_stage(
                stage.resumed(reply_to(search, host.processes, host.statuses)),
                host,
                (fuel - 1) as nat,
            )
        },
        _ => stage,
    }
}

/// The stage in which the lookup of the pod `id` ends on the machine
/// `host`, where the search of the processes is given `fuel` answers: the
/// status of the pod is asked for, and the processes are searched.
pub open spec fn run(id: Seq<char>, host: Host, fuel: nat) -> Stage {
    run_stage(
        (Stage::Status { root: host.root, id }).resumed(
            ReplyView::Ran((host.programs)(query(id))),
        ),
        host,
        fuel,
    )
}

/// What the lookup of the pod `id` comes to on the machine `host`: the
/// status of the pod names its supervisor, and the first process that
/// decides the search for the child of the supervisor is the answer.
pub open spec fn resolved(id: Seq<char>, host: Host) -> Result<pid_t, ErrorView> {
    match parent(id, (host.programs)(query(id))) {
        Err(e) => Err(e),
        Ok(supervisor) => match first_child(
            supervisor,
            host.root,
            host.processes.entries,
            host.statuses,
            host.processes.failure,
            0,
        ) {
            Ok(pid) => Ok(pid),
            Err(e) => Err(in_context(e, child_context(id))),
        },
    }
}

proof fn lemma_run_stage(id: Seq<char>, search: ChildView, host: Host, fuel: nat)
    ensures
        run_stage(Stage::Search { id, search }, host, fuel) == (Stage::Search {
            id,
            search: run_search(search, host.processes, host.statuses, fuel),
        }),
    decreases fuel,
{
    if fuel > 0 && !(search.turn is Done) {
        lemma_run_stage(
            id,
            search.resumed(reply_to(search, host.processes, host.statuses)),
            host,
            (fuel - 1) as nat,
        );
    }
}

/// The lookup of a pod of rkt goes the way from the pod to the child of its
/// supervisor. Run on a machine, with an answer for each entry of the
/// process directory at least, the lookup ends with what `resolved` says of
/// the machine.
pub proof fn law_lookup_resolves(id: Seq<char>, host: Host, fuel: nat)
    requires
        host.statuses.len() == host.processes.entries.len(),
        fuel > host.processes.entries.len(),
    ensures
        run(id, host, fuel).next() == StepView::Done(resolved(id, host)),
{
    match parent(id, (host.programs)(query(id))) {
        Err(_) => {},
        Ok(supervisor) => {
            lemma_run_stage(id, ChildView::start(host.root, supervisor), host, fuel);
            law_search_ends_at_first_child(
                host.root,
                supervisor,
                host.processes,
                host.statuses,
                fuel,
            );
        },
    }
}

} // verus!
