//! Virtual machines of Firecracker, found by the file that each keeps open:
//! the identifier is that of the machine, and the process that holds the
//! marker file of the machine among its open files is the answer.

use vstd::prelude::*;
use libc::pid_t;
use crate::cgroup::{entry_views, DirEntry, EntryView, ListingView};
use crate::error::{lift, system_failure, unreadable, ErrorKind, ErrorView, LookupError};
use crate::number::{decimal, parse_unsigned_pid, pid_text, unsigned_pid_of};
use crate::output::{lossy_chars, lossy_text, read_view};
use crate::scan::{Verdict, VerdictView};
use crate::seqs::{
    contains_chars, contains_run, first_where, lemma_first_where, lemma_first_where_unique,
};
use crate::system::{
    frame_step, framed_step, link_view, links_view, Reply, ReplyView, Request, RequestView, Step,
    StepView,
};
use crate::text::{join2, join3, same_text, string_view, to_chars};
use crate::tools::Tools;

verus! {

/// The search by the identifier of a virtual machine.
#[derive(Clone, Copy, Debug)]
pub struct VhiveFcVmid {}

/// The word that the command line of every Firecracker process holds.
pub const FIRECRACKER: &'static str = "firecracker";

/// The file that the virtual machine `vmid` keeps open while it runs.
pub open spec fn marker_path(vmid: Seq<char>) -> Seq<char> {
    "/tmp/log_"@ + vmid + "_start.logs"@
}

/// Whether the command line `cmdline`, read with tolerance, holds the word
/// `firecracker`.
pub open spec fn is_firecracker(cmdline: Seq<u8>) -> bool {
    contains_run(lossy_text(cmdline), FIRECRACKER@)
}

/// Whether the process `number` deserves a look at its open files, `cmdline`
/// being what reading its command line gave.
pub open spec fn screened(number: pid_t, cmdline: Result<Seq<u8>, Seq<char>>) -> Result<
    bool,
    ErrorView,
> {
    match cmdline {
        Err(cause) => Err(
            system_failure("cannot read cmdline of process "@ + decimal(number as int), cause),
        ),
        Ok(bytes) => Ok(is_firecracker(bytes)),
    }
}

/// Whether the link `target` could be read and leads to the marker file of
/// the virtual machine `vmid`.
pub open spec fn leads_to_marker(target: Result<Seq<char>, Seq<char>>, vmid: Seq<char>) -> bool {
    target is Ok && target->Ok_0 == marker_path(vmid)
}

/// The outcome of examining the open files of the process `number`, `links`
/// being what listing the directory `fds` of its open files gave: for each
/// file where it leads, or why that could not be read. The files are taken
/// in order, up to the first that leads to the marker file of the virtual
/// machine `vmid`; a link that could not be read ends the search.
pub open spec fn examined(
    vmid: Seq<char>,
    number: pid_t,
    fds: Seq<char>,
    links: Result<Seq<Result<Seq<char>, Seq<char>>>, Seq<char>>,
) -> VerdictView {
    match links {
        Err(cause) => VerdictView::Failed(system_failure("cannot list "@ + fds, cause)),
        Ok(targets) => {
            let hit = first_where(
                targets,
                |target: Result<Seq<char>, Seq<char>>| leads_to_marker(target, vmid),
            );
            let bad = first_where(targets, |target: Result<Seq<char>, Seq<char>>| target is Err);
            if hit < bad {
                VerdictView::Found(number)
            } else if bad < targets.len() {
                VerdictView::Failed(
                    system_failure("cannot read symlink in "@ + fds, targets[bad]->Err_0),
                )
            } else {
                VerdictView::Continue
            }
        },
    }
}

/// That no process holds the marker file of the virtual machine `vmid`.
pub open spec fn no_process(vmid: Seq<char>) -> ErrorView {
    ErrorView {
        kind: ErrorKind::NotFound,
        message: "no process found for firecracker vm id "@ + vmid,
    }
}

/// What is said before a failure of the search for the machine `vmid`.
pub open spec fn search_context(vmid: Seq<char>) -> Seq<char> {
    "cannot find pid for firecracker vmID "@ + vmid
}

/// The path of the file that the virtual machine keeps open while it runs.
pub fn known_file(vmid: &str) -> (path: String)
    ensures
        path@ == marker_path(vmid@),
{
    join3("/tmp/log_", vmid, "_start.logs")
}

/// Reads the name of an entry of the process directory: the ID of the
/// process, if the entry is one. An entry is a process where its name
/// writes a number that a process ID can hold; other entries are no
/// processes.
pub fn process_number(entry_name: &str) -> (number: Option<pid_t>)
    ensures
        number == unsigned_pid_of(entry_name@),
{
    let chars = to_chars(entry_name);
    parse_unsigned_pid(chars.as_slice())
}

/// Tells whether a process deserves a look at its open files: only a
/// process with `firecracker` in its command line does.
pub fn screen(number: pid_t, cmdline: &Result<Vec<u8>, String>) -> (look: Result<
    bool,
    LookupError,
>)
    ensures
        lift(look) == screened(number, read_view(*cmdline)),
{
    match cmdline {
        Err(cause) => {
            let shown = pid_text(number);
            let what = join2("cannot read cmdline of process ", shown.as_str());
            Err(unreadable(what.as_str(), cause.as_str()))
        },
        Ok(bytes) => {
            let text = lossy_chars(bytes.as_slice());
            let word = to_chars(FIRECRACKER);
            Ok(contains_chars(text.as_slice(), word.as_slice()))
        },
    }
}

/// Examines the open files of one process while looking for the virtual
/// machine `vmid`.
#[verifier::loop_isolation(false)]
pub fn examine_descriptors(
    vmid: &str,
    number: pid_t,
    fds: &str,
    links: &Result<Vec<Result<String, String>>, String>,
) -> (verdict: Verdict)
    ensures
        verdict@ == examined(vmid@, number, fds@, links_view(*links)),
{
    match links {
        Err(cause) => {
            let what = join2("cannot list ", fds);
            Verdict::Failed(unreadable(what.as_str(), cause.as_str()))
        },
        Ok(targets) => {
            let marker = known_file(vmid);
            let ghost shown = targets@.map_values(|t: Result<String, String>| link_view(t));
            let mut i: usize = 0;
            while i < targets.len()
                invariant
                    i <= targets.len(),
                    forall|j: int|
                        0 <= j < i ==> (#[trigger] shown[j]) is Ok && !leads_to_marker(
                            shown[j],
                            vmid@,
                        ),
                decreases targets.len() - i,
            {
                assert(shown[i as int] == link_view(targets@[i as int]));
                match &targets[i] {
                    Err(cause) => {
                        proof {
                            lemma_first_where_unique(
                                shown,
                                |target: Result<Seq<char>, Seq<char>>| target is Err,
                                i as int,
                            );
                            lemma_first_where(
                                shown,
                                |target: Result<Seq<char>, Seq<char>>| leads_to_marker(
                                    target,
                                    vmid@,
                                ),
                            );
                        }
                        let what = join2("cannot read symlink in ", fds);
                        return Verdict::Failed(unreadable(what.as_str(), cause.as_str()));
                    },
                    Ok(target) => {
                        if same_text(target.as_str(), marker.as_str()) {
                            proof {
                                lemma_first_where_unique(
                                    shown,
                                    |target: Result<Seq<char>, Seq<char>>| leads_to_marker(
                                        target,
                                        vmid@,
                                    ),
                                    i as int,
                                );
                                lemma_first_where(
                                    shown,
                                    |target: Result<Seq<char>, Seq<char>>| target is Err,
                                );
                            }
                            return Verdict::Found(number);
                        }
                    },
                }
                i += 1;
            }
            proof {
                lemma_first_where_unique(
                    shown,
                    |target: Result<Seq<char>, Seq<char>>| target is Err,
                    i as int,
                );
                lemma_first_where_unique(
                    shown,
                    |target: Result<Seq<char>, Seq<char>>| leads_to_marker(target, vmid@),
                    i as int,
                );
            }
            Verdict::Continue
        },
    }
}

/// The file that holds the command line of the process with the entry
/// `name` of the process directory `root`.
pub open spec fn cmdline_path(root: Seq<char>, name: Seq<char>) -> Seq<char> {
    root + "/"@ + name + "/cmdline"@
}

/// The directory that holds the open files of the process with the entry
/// `name` of the process directory `root`.
pub open spec fn fds_path(root: Seq<char>, name: Seq<char>) -> Seq<char> {
    root + "/"@ + name + "/fd"@
}

/// Where a search for the process of a virtual machine stands.
pub enum Stage {
    /// The processes are to be listed.
    List,
    /// The command line of the process at this index of the listing, which
    /// has this number, is to be read.
    Cmdline { at: nat, number: pid_t },
    /// The open files of the process at this index of the listing are to be
    /// read.
    Links { at: nat, number: pid_t },
    /// The search has ended.
    Done(Result<pid_t, ErrorView>),
}

/// The state of a search for the process of a virtual machine.
pub struct SearchView {
    /// The directory in which the system shows its processes.
    pub root: Seq<char>,
    /// The identifier of the virtual machine.
    pub vmid: Seq<char>,
    /// The entries of the process directory, once they are listed.
    pub entries: Seq<EntryView>,
    /// Why the listing stopped before its end, if it did.
    pub failure: Option<Seq<char>>,
    /// Where the search stands.
    pub stage: Stage,
}

/// How a search ends that has gone through all processes: without a
/// process, or with the failure of the listing that broke off.
pub open spec fn exhausted(vmid: Seq<char>, root: Seq<char>, failure: Option<Seq<char>>)
    -> ErrorView {
    match failure {
        Some(cause) => system_failure("cannot list "@ + root, cause),
        None => no_process(vmid),
    }
}

/// Where a search stands that is to go on with the entry at index `from`:
/// at the first entry from there on that is a process, or at its end.
/// Entries whose names write no number that a process ID can hold are no
/// processes, and are passed over.
pub open spec fn seek(
    vmid: Seq<char>,
    root: Seq<char>,
    entries: Seq<EntryView>,
    failure: Option<Seq<char>>,
    from: nat,
) -> Stage
    decreases entries.len() - from,
{
    if from >= entries.len() {
        Stage::Done(Err(exhausted(vmid, root, failure)))
    } else {
        match unsigned_pid_of(entries[from as int].name) {
            Some(number) => Stage::Cmdline { at: from, number },
            None => seek(vmid, root, entries, failure, from + 1),
        }
    }
}

impl SearchView {
    /// The state in which the search for the virtual machine `vmid` among
    /// the processes that the directory `root` shows starts.
    pub open spec fn start(root: Seq<char>, vmid: Seq<char>) -> SearchView {
        SearchView { root, vmid, entries: Seq::empty(), failure: None, stage: Stage::List }
    }

    /// What holds of every state that a search can reach.
    pub open spec fn wf(self) -> bool {
        match self.stage {
            Stage::Cmdline { at, .. } => at < self.entries.len(),
            Stage::Links { at, .. } => at < self.entries.len(),
            _ => true,
        }
    }

    /// What the search wants next.
    pub open spec fn next(self) -> StepView {
        match self.stage {
            Stage::List => StepView::Ask(RequestView::ListDir(self.root)),
            Stage::Cmdline { at, .. } => StepView::Ask(
                RequestView::ReadFile(cmdline_path(self.root, self.entries[at as int].name)),
            ),
            Stage::Links { at, .. } => StepView::Ask(
                RequestView::ReadLinks(fds_path(self.root, self.entries[at as int].name)),
            ),
            Stage::Done(answer) => StepView::Done(answer),
        }
    }

    /// The state after the system has answered. An answer to another
    /// question than the one that was asked is ignored.
    pub open spec fn resumed(self, reply: ReplyView) -> SearchView {
        match (self.stage, reply) {
            (Stage::List, ReplyView::Dir(listing)) => SearchView {
                entries: listing.entries,
                failure: listing.failure,
                stage: seek(self.vmid, self.root, listing.entries, listing.failure, 0),
                ..self
            },
            (Stage::Cmdline { at, number }, ReplyView::File(read)) => SearchView {
                stage: match screened(number, read) {
                    Err(e) => Stage::Done(Err(e)),
                    Ok(true) => Stage::Links { at, number },
                    Ok(false) => seek(self.vmid, self.root, self.entries, self.failure, at + 1),
                },
                ..self
            },
            (Stage::Links { at, number }, ReplyView::Links(links)) => SearchView {
                stage: match examined(
                    self.vmid,
                    number,
                    fds_path(self.root, self.entries[at as int].name),
                    links,
                ) {
                    VerdictView::Found(pid) => Stage::Done(Ok(pid)),
                    VerdictView::Failed(e) => Stage::Done(Err(e)),
                    VerdictView::Continue => seek(
                        self.vmid,
                        self.root,
                        self.entries,
                        self.failure,
                        at + 1,
                    ),
                },
                ..self
            },
            _ => self,
        }
    }
}

enum Standing {
    List,
    Cmdline { at: usize, number: pid_t },
    Links { at: usize, number: pid_t },
    Done(Result<pid_t, LookupError>),
}

impl View for Standing {
    type V = Stage;

    closed spec fn view(&self) -> Stage {
        match self {
            Standing::List => Stage::List,
            Standing::Cmdline { at, number } => Stage::Cmdline { at: *at as nat, number: *number },
            Standing::Links { at, number } => Stage::Links { at: *at as nat, number: *number },
            Standing::Done(answer) => Stage::Done(lift(*answer)),
        }
    }
}

/// A search for the process of a virtual machine, in progress.
pub struct FcSearch {
    root: String,
    vmid: String,
    entries: Vec<DirEntry>,
    failure: Option<String>,
    standing: Standing,
}

impl View for FcSearch {
    type V = SearchView;

    closed spec fn view(&self) -> SearchView {
        SearchView {
            root: self.root@,
            vmid: self.vmid@,
            entries: entry_views(self.entries@),
            failure: string_view(self.failure),
            stage: self.standing@,
        }
    }
}

/// Goes on with the entry at index `from`.
fn seek_from(
    vmid: &str,
    root: &str,
    entries: &Vec<DirEntry>,
    failure: &Option<String>,
    from: usize,
) -> (standing: Standing)
    requires
        from <= entries.len(),
    ensures
        standing@ == seek(
            vmid@,
            root@,
            entry_views(entries@),
            string_view(*failure),
            from as nat,
        ),
        standing@ matches Stage::Cmdline { at, .. } ==> at < entries.len(),
        !(standing@ is Links) && !(standing@ is List),
{
    let mut at: usize = from;
    while at < entries.len()
        invariant
            from <= at <= entries.len(),
            seek(vmid@, root@, entry_views(entries@), string_view(*failure), at as nat) == seek(
                vmid@,
                root@,
                entry_views(entries@),
                string_view(*failure),
                from as nat,
            ),
        decreases entries.len() - at,
    {
        assert(entry_views(entries@)[at as int] == entries@[at as int]@);
        match process_number(entries[at].name.as_str()) {
            Some(number) => {
                return Standing::Cmdline { at, number };
            },
            None => {},
        }
        at += 1;
    }
    let e = match failure {
        Some(cause) => {
            let what = join2("cannot list ", root);
            unreadable(what.as_str(), cause.as_str())
        },
        None => LookupError::new(
            ErrorKind::NotFound,
            join2("no process found for firecracker vm id ", vmid),
        ),
    };
    Standing::Done(Err(e))
}

/// Starts the search for the process that runs the virtual machine `vmid`:
/// among the processes that the directory `proc_root` shows, in the order
/// in which the system lists them, for the first that has `firecracker` in
/// its command line and holds the marker file of the virtual machine open.
pub fn find_fc_pid(vmid: &str, proc_root: &str) -> (search: FcSearch)
    ensures
        search@ == SearchView::start(proc_root@, vmid@),
{
    let search = FcSearch {
        root: String::from_str(proc_root),
        vmid: String::from_str(vmid),
        entries: Vec::new(),
        failure: None,
        standing: Standing::List,
    };
    assert(search@.entries =~= Seq::empty());
    search
}

impl FcSearch {
    #[verifier::type_invariant]
    spec fn inv(self) -> bool {
        self@.wf()
    }

    /// What the search wants next.
    pub fn next(&self) -> (step: Step)
        ensures
            step@ == self@.next(),
            self@.wf(),
    {
        proof {
            use_type_invariant(self);
            assert(entry_views(self.entries@).len() == self.entries@.len());
        }
        match &self.standing {
            Standing::List => Step::Ask(Request::ListDir(self.root.clone())),
            Standing::Cmdline { at, .. } => {
                assert(entry_views(self.entries@)[*at as int] == self.entries@[*at as int]@);
                let dir = join3(self.root.as_str(), "/", self.entries[*at].name.as_str());
                Step::Ask(Request::ReadFile(join2(dir.as_str(), "/cmdline")))
            },
            Standing::Links { at, .. } => {
                assert(entry_views(self.entries@)[*at as int] == self.entries@[*at as int]@);
                let dir = join3(self.root.as_str(), "/", self.entries[*at].name.as_str());
                Step::Ask(Request::ReadLinks(join2(dir.as_str(), "/fd")))
            },
            Standing::Done(Ok(pid)) => Step::Done(Ok(*pid)),
            Standing::Done(Err(e)) => Step::Done(Err(e.duplicate())),
        }
    }

    /// Takes the answer of the system to what the search wanted.
    pub fn resume(self, reply: Reply) -> (search: FcSearch)
        ensures
            search@ == self@.resumed(reply@),
            search@.wf(),
    {
        proof {
            use_type_invariant(&self);
            assert(entry_views(self.entries@).len() == self.entries@.len());
        }
        match (self.standing, reply) {
            (Standing::List, Reply::Dir(listing)) => {
                let standing = seek_from(
                    self.vmid.as_str(),
                    self.root.as_str(),
                    &listing.entries,
                    &listing.failure,
                    0,
                );
                FcSearch {
                    root: self.root,
                    vmid: self.vmid,
                    entries: listing.entries,
                    failure: listing.failure,
                    standing,
                }
            },
            (Standing::Cmdline { at, number }, Reply::File(read)) => {
                assert(self@.stage == Stage::Cmdline { at: at as nat, number });
                assert(at < self.entries.len());
                let standing = match screen(number, &read) {
                    Err(e) => Standing::Done(Err(e)),
                    Ok(true) => Standing::Links { at, number },
                    Ok(false) => seek_from(
                        self.vmid.as_str(),
                        self.root.as_str(),
                        &self.entries,
                        &self.failure,
                        at + 1,
                    ),
                };
                FcSearch {
                    root: self.root,
                    vmid: self.vmid,
                    entries: self.entries,
                    failure: self.failure,
                    standing,
                }
            },
            (Standing::Links { at, number }, Reply::Links(links)) => {
                assert(self@.stage == Stage::Links { at: at as nat, number });
                assert(at < self.entries.len());
                assert(entry_views(self.entries@)[at as int] == self.entries@[at as int]@);
                let dir = join3(self.root.as_str(), "/", self.entries[at].name.as_str());
                let fds = join2(dir.as_str(), "/fd");
                let standing = match examine_descriptors(
                    self.vmid.as_str(),
                    number,
                    fds.as_str(),
                    &links,
                ) {
                    Verdict::Found(pid) => Standing::Done(Ok(pid)),
                    Verdict::Failed(e) => Standing::Done(Err(e)),
                    Verdict::Continue => seek_from(
                        self.vmid.as_str(),
                        self.root.as_str(),
                        &self.entries,
                        &self.failure,
                        at + 1,
                    ),
                };
                FcSearch {
                    root: self.root,
                    vmid: self.vmid,
                    entries: self.entries,
                    failure: self.failure,
                    standing,
                }
            },
            (standing, _) => FcSearch {
                root: self.root,
                vmid: self.vmid,
                entries: self.entries,
                failure: self.failure,
                standing,
            },
        }
    }
}

/// The lookup of a virtual machine by its identifier, in progress.
pub struct VmLookup {
    search: FcSearch,
}

impl View for VmLookup {
    type V = SearchView;

    closed spec fn view(&self) -> SearchView {
        self.search@
    }
}

impl VmLookup {
    /// What the lookup wants next: what the search wants, with a failure of
    /// the search put in context.
    pub fn next(&self) -> (step: Step)
        ensures
            step@ == framed_step(self@.next(), search_context(self@.vmid)),
            self@.wf(),
    {
        let what = join2("cannot find pid for firecracker vmID ", self.search.vmid.as_str());
        frame_step(self.search.next(), what.as_str())
    }

    /// Takes the answer of the system to what the lookup wanted.
    pub fn resume(self, reply: Reply) -> (lookup: VmLookup)
        ensures
            lookup@ == self@.resumed(reply@),
            lookup@.wf(),
    {
        VmLookup { search: self.search.resume(reply) }
    }
}

impl VhiveFcVmid {
    /// Starts the lookup of the virtual machine `container_id` among the
    /// processes that the directory `proc_root` shows.
    pub fn lookup(&self, container_id: &str, proc_root: &str) -> (lookup: VmLookup)
        ensures
            lookup@ == SearchView::start(proc_root@, container_id@),
    {
        VmLookup { search: find_fc_pid(container_id, proc_root) }
    }

    /// The search needs no program.
    pub fn check_required_tools(&self, tools: &Tools) -> (checked: Result<(), LookupError>)
        ensures
            checked is Ok,
    {
        Ok(())
    }
}

/// What the system shows of one process: its command line and its open
/// files, as it answers when asked for them.
pub struct Shown {
    pub cmdline: Result<Seq<u8>, Seq<char>>,
    pub links: Result<Seq<Result<Seq<char>, Seq<char>>>, Seq<char>>,
}

/// The outcome of examining the process behind `entry`, of which the
/// system shows `shown`: an entry that is no process is passed over, as is a
/// process without `firecracker` in its command line; of any other process
/// the open files decide.
pub open spec fn verdict_on(vmid: Seq<char>, root: Seq<char>, entry: EntryView, shown: Shown)
    -> VerdictView {
    match unsigned_pid_of(entry.name) {
        None => VerdictView::Continue,
        Some(number) => match screened(number, shown.cmdline) {
            Err(e) => VerdictView::Failed(e),
            Ok(false) => VerdictView::Continue,
            Ok(true) => examined(vmid, number, fds_path(root, entry.name), shown.links),
        },
    }
}

/// What a search over the processes `entries` ends with that starts at index
/// `from`: the first outcome, in the order of the listing, that is not to
/// go on; or, past the last entry, the end of an exhausted search.
pub open spec fn first_verdict(
    vmid: Seq<char>,
    root: Seq<char>,
    entries: Seq<EntryView>,
    shown: Seq<Shown>,
    failure: Option<Seq<char>>,
    from: nat,
) -> Result<pid_t, ErrorView>
    decreases entries.len() - from,
{
    if from >= entries.len() {
        Err(exhausted(vmid, root, failure))
    } else {
        match verdict_on(vmid, root, entries[from as int], shown[from as int]) {
            VerdictView::Found(pid) => Ok(pid),
            VerdictView::Failed(e) => Err(e),
            VerdictView::Continue => first_verdict(vmid, root, entries, shown, failure, from + 1),
        }
    }
}

/// What the system answers to what the search in state `s` wants, on a
/// machine whose process directory lists as `listing` and on which the
/// process behind the entry at index `i` shows `shown[i]`.
pub open spec fn reply_to(s: SearchView, listing: ListingView, shown: Seq<Shown>) -> ReplyView {
    match s.stage {
        Stage::Cmdline { at, .. } => ReplyView::File(shown[at as int].cmdline),
        Stage::Links { at, .. } => ReplyView::Links(shown[at as int].links),
        _ => ReplyView::Dir(listing),
    }
}

/// The state in which the search in state `s` ends on such a machine, or in
/// which it stands after `fuel` answers.
pub open spec fn run(s: SearchView, listing: ListingView, shown: Seq<Shown>, fuel: nat)
    -> SearchView
    decreases fuel,
{
    if fuel == 0 || s.stage is Done {
        s
    } else {
        run(s.resumed(reply_to(s, listing, shown)), listing, shown, (fuel - 1) as nat)
    }
}

/// A search is for the same virtual machine from its start to its end.
pub proof fn lemma_run_keeps_vmid(s: SearchView, listing: ListingView, shown: Seq<Shown>, fuel: nat)
    ensures
        run(s, listing, shown, fuel).vmid == s.vmid,
    decreases fuel,
{
    if fuel > 0 && !(s.stage is Done) {
        lemma_run_keeps_vmid(
            s.resumed(reply_to(s, listing, shown)),
            listing,
            shown,
            (fuel - 1) as nat,
        );
    }
}

proof fn lemma_run_from(
    s: SearchView,
    listing: ListingView,
    shown: Seq<Shown>,
    from: nat,
    fuel: nat,
)
    requires
        s.entries == listing.entries,
        s.failure == listing.failure,
        s.stage == seek(s.vmid, s.root, s.entries, s.failure, from),
        shown.len() == s.entries.len(),
        from <= s.entries.len(),
        fuel >= 2 * (s.entries.len() - from),
    ensures
        run(s, listing, shown, fuel).stage == Stage::Done(
            first_verdict(s.vmid, s.root, s.entries, shown, s.failure, from),
        ),
    decreases s.entries.len() - from,
{
    if from < s.entries.len() {
        match unsigned_pid_of(s.entries[from as int].name) {
            None => {
                lemma_run_from(s, listing, shown, from + 1, fuel);
            },
            Some(number) => {
                let read = s.resumed(reply_to(s, listing, shown));
                match screened(number, shown[from as int].cmdline) {
                    Err(e) => {
                        assert(run(read, listing, shown, (fuel - 1) as nat) == read);
                    },
                    Ok(false) => {
                        lemma_run_from(read, listing, shown, from + 1, (fuel - 1) as nat);
                    },
                    Ok(true) => {
                        let looked = read.resumed(reply_to(read, listing, shown));
                        assert(run(s, listing, shown, fuel) == run(
                            looked,
                            listing,
                            shown,
                            (fuel - 2) as nat,
                        ));
                        match examined(
                            s.vmid,
                            number,
                            fds_path(s.root, s.entries[from as int].name),
                            shown[from as int].links,
                        ) {
                            VerdictView::Continue => {
                                lemma_run_from(looked, listing, shown, from + 1, (fuel - 2) as nat);
                            },
                            _ => {
                                assert(run(looked, listing, shown, (fuel - 2) as nat) == looked);
                            },
                        }
                    },
                }
            },
        }
    }
}

/// The search ends at the first process that decides it. On a machine whose
/// process directory `root` lists as `listing` and on which the process
/// behind the entry at index `i` shows `shown[i]`, the search for the virtual machine
/// `vmid` ends with the outcome of the first entry, in the order of the
/// listing, whose outcome is not to go on: with the process that holds the
/// marker file, or with the failure to read what had to be read. Where
/// every entry is passed over, it ends without a process.
pub proof fn law_search_ends_at_first_verdict(
    root: Seq<char>,
    vmid: Seq<char>,
    listing: ListingView,
    shown: Seq<Shown>,
    fuel: nat,
)
    requires
        shown.len() == listing.entries.len(),
        fuel > 2 * listing.entries.len(),
    ensures
        run(SearchView::start(root, vmid), listing, shown, fuel).stage == Stage::Done(
            first_verdict(vmid, root, listing.entries, shown, listing.failure, 0),
        ),
{
    let start = SearchView::start(root, vmid);
    let listed = start.resumed(reply_to(start, listing, shown));
    lemma_run_from(listed, listing, shown, 0, (fuel - 1) as nat);
}

/// Whether the process `pid` is the one behind `entry` and runs the virtual
/// machine `vmid`, the system showing `shown` of it: the name of the entry
/// writes `pid`, the command line holds `firecracker`, and one of the open
/// files leads to the marker file of the virtual machine.
pub open spec fn runs_machine(vmid: Seq<char>, entry: EntryView, shown: Shown, pid: pid_t) -> bool {
    &&& unsigned_pid_of(entry.name) == Some(pid)
    &&& shown.cmdline is Ok
    &&& is_firecracker(shown.cmdline->Ok_0)
    &&& shown.links is Ok
    &&& exists|j: int|
        0 <= j < shown.links->Ok_0.len() && leads_to_marker(#[trigger] shown.links->Ok_0[j], vmid)
}

proof fn lemma_found_runs_machine(
    vmid: Seq<char>,
    root: Seq<char>,
    entries: Seq<EntryView>,
    shown: Seq<Shown>,
    failure: Option<Seq<char>>,
    from: nat,
    pid: pid_t,
)
    requires
        shown.len() == entries.len(),
        first_verdict(vmid, root, entries, shown, failure, from) == Ok::<pid_t, ErrorView>(pid),
    ensures
        exists|i: int|
            from <= i < entries.len() && runs_machine(vmid, #[trigger] entries[i], shown[i], pid),
    decreases entries.len() - from,
{
    if from < entries.len() {
        let at = from as int;
        match verdict_on(vmid, root, entries[at], shown[at]) {
            VerdictView::Found(found) => {
                let targets = shown[at].links->Ok_0;
                lemma_first_where(
                    targets,
                    |target: Result<Seq<char>, Seq<char>>| leads_to_marker(target, vmid),
                );
                lemma_first_where(targets, |target: Result<Seq<char>, Seq<char>>| target is Err);
                let hit = first_where(
                    targets,
                    |target: Result<Seq<char>, Seq<char>>| leads_to_marker(target, vmid),
                );
                assert(leads_to_marker(targets[hit], vmid));
                assert(runs_machine(vmid, entries[at], shown[at], pid));
            },
            VerdictView::Failed(_) => {},
            VerdictView::Continue => {
                lemma_found_runs_machine(vmid, root, entries, shown, failure, from + 1, pid);
            },
        }
    }
}

/// The process that the search finds runs the virtual machine. Where the
/// search for the virtual machine `vmid` ends with a process, the ID of
/// that process is what the name of an entry of the process directory
/// writes, the command line of the process holds `firecracker`, and one of
/// its open files leads to the marker file of the virtual machine.
pub proof fn law_found_process_runs_machine(
    root: Seq<char>,
    vmid: Seq<char>,
    listing: ListingView,
    shown: Seq<Shown>,
    fuel: nat,
    pid: pid_t,
)
    requires
        shown.len() == listing.entries.len(),
        fuel > 2 * listing.entries.len(),
        run(SearchView::start(root, vmid), listing, shown, fuel).stage == Stage::Done(
            Ok(pid),
        ),
    ensures
        exists|i: int|
            0 <= i < listing.entries.len() && runs_machine(
                vmid,
                #[trigger] listing.entries[i],
                shown[i],
                pid,
            ),
{
    law_search_ends_at_first_verdict(root, vmid, listing, shown, fuel);
    lemma_found_runs_machine(vmid, root, listing.entries, shown, listing.failure, 0, pid);
}

} // verus!
