//! Processes found by their command line: the identifier is a piece of text
//! that the command line of the process holds.

use vstd::prelude::*;
use vstd::utf8::encode_utf8;
use libc::pid_t;
use crate::cgroup::{entry_views, DirEntry, EntryView, ListingView};
use crate::error::{lift, system_failure, unreadable, ErrorKind, ErrorView, LookupError};
use crate::number::{parse_pid, pid_of};
use crate::seqs::{contains_bytes, contains_run};
use crate::system::{Reply, ReplyView, Request, RequestView, Step, StepView};
use crate::text::{join2, join3, string_view, to_chars};
use crate::tools::Tools;

verus! {

/// The search for a process by its command line.
#[derive(Clone, Copy, Debug)]
pub struct Command {}

/// The command line `cmdline` with a space in place of each of the NUL
/// bytes that end its arguments.
pub open spec fn spaced(cmdline: Seq<u8>) -> Seq<u8> {
    cmdline.map_values(|b: u8| if b == 0 { 32u8 } else { b })
}

/// The process that the entry `name` stands for, if it stands for one that
/// is not the searching process `own` itself.
pub open spec fn other_process(name: Seq<char>, own: pid_t) -> Option<pid_t> {
    match pid_of(name) {
        Some(pid) => if pid == own {
            None
        } else {
            Some(pid)
        },
        None => None,
    }
}

/// Whether the command line `cmdline`, its arguments taken as one text with
/// spaces between them, holds the bytes of `id`.
pub open spec fn mentions(id: Seq<char>, cmdline: Seq<u8>) -> bool {
    contains_run(spaced(cmdline), encode_utf8(id))
}

/// That no command line holds `id`.
pub open spec fn no_match(id: Seq<char>) -> ErrorView {
    ErrorView {
        kind: ErrorKind::NotFound,
        message: "no process found with command line matching '"@ + id + "'"@,
    }
}

/// The file that holds the command line of the process with the entry
/// `name` of the process directory `root`.
pub open spec fn cmdline_path(root: Seq<char>, name: Seq<char>) -> Seq<char> {
    root + "/"@ + name + "/cmdline"@
}

/// Where a search by command line stands.
pub enum Stage {
    /// The processes are to be listed.
    List,
    /// The command line of the process at this index of the listing, which
    /// has this ID, is to be read.
    Cmdline { at: nat, pid: pid_t },
    /// The search has ended.
    Done(Result<pid_t, ErrorView>),
}

/// The state of a search by command line.
pub struct ScanView {
    /// The directory in which the system shows its processes.
    pub root: Seq<char>,
    /// The text that is searched for.
    pub id: Seq<char>,
    /// The process that searches, which is not looked at.
    pub own: pid_t,
    /// The entries of the process directory, once they are listed.
    pub entries: Seq<EntryView>,
    /// Why the listing stopped before its end, if it did.
    pub failure: Option<Seq<char>>,
    /// Where the search stands.
    pub stage: Stage,
}

/// How a search ends that has gone through all processes: without a
/// process, or with the failure of the listing that broke off.
pub open spec fn exhausted(id: Seq<char>, root: Seq<char>, failure: Option<Seq<char>>)
    -> ErrorView {
    match failure {
        Some(cause) => system_failure(
            "failed to read "@ + root + " directory - is procfs mounted?"@,
            cause,
        ),
        None => no_match(id),
    }
}

/// Where a search stands that is to go on with the entry at index `from`:
/// at the first entry from there on that is a process other than the
/// searching one, or at its end.
pub open spec fn seek(
    id: Seq<char>,
    own: pid_t,
    root: Seq<char>,
    entries: Seq<EntryView>,
    failure: Option<Seq<char>>,
    from: nat,
) -> Stage
    decreases entries.len() - from,
{
    if from >= entries.len() {
        Stage::Done(Err(exhausted(id, root, failure)))
    } else {
        match other_process(entries[from as int].name, own) {
            Some(pid) => Stage::Cmdline { at: from, pid },
            None => seek(id, own, root, entries, failure, from + 1),
        }
    }
}

impl ScanView {
    /// The state in which the search for `id` by the process `own` starts,
    /// among the processes that the directory `root` shows.
    pub open spec fn start(root: Seq<char>, id: Seq<char>, own: pid_t) -> ScanView {
        ScanView { root, id, own, entries: Seq::empty(), failure: None, stage: Stage::List }
    }

    /// What holds of every state that a search can reach.
    pub open spec fn wf(self) -> bool {
        self.stage matches Stage::Cmdline { at, .. } ==> at < self.entries.len()
    }

    /// What the search wants next.
    pub open spec fn next(self) -> StepView {
        match self.stage {
            Stage::List => StepView::Ask(RequestView::ListDir(self.root)),
            Stage::Cmdline { at, .. } => StepView::Ask(
                RequestView::ReadFile(cmdline_path(self.root, self.entries[at as int].name)),
            ),
            Stage::Done(answer) => StepView::Done(answer),
        }
    }

    /// The state after the system has answered. A command line that cannot
    /// be read is passed over, as is one that does not hold the text. An
    /// answer to another question than the one that was asked is ignored.
    pub open spec fn resumed(self, reply: ReplyView) -> ScanView {
        match (self.stage, reply) {
            (Stage::List, ReplyView::Dir(listing)) => ScanView {
                entries: listing.entries,
                failure: listing.failure,
                stage: seek(self.id, self.own, self.root, listing.entries, listing.failure, 0),
                ..self
            },
            (Stage::Cmdline { at, pid }, ReplyView::File(read)) => ScanView {
                stage: if read is Ok && mentions(self.id, read->Ok_0) {
                    Stage::Done(Ok(pid))
                } else {
                    seek(self.id, self.own, self.root, self.entries, self.failure, at + 1)
                },
                ..self
            },
            _ => self,
        }
    }
}

enum Standing {
    List,
    Cmdline { at: usize, pid: pid_t },
    Done(Result<pid_t, LookupError>),
}

impl View for Standing {
    type V = Stage;

    closed spec fn view(&self) -> Stage {
        match self {
            Standing::List => Stage::List,
            Standing::Cmdline { at, pid } => Stage::Cmdline { at: *at as nat, pid: *pid },
            Standing::Done(answer) => Stage::Done(lift(*answer)),
        }
    }
}

/// A search by command line, in progress.
pub struct CommandLookup {
    root: String,
    id: String,
    own: pid_t,
    entries: Vec<DirEntry>,
    failure: Option<String>,
    standing: Standing,
}

impl View for CommandLookup {
    type V = ScanView;

    closed spec fn view(&self) -> ScanView {
        ScanView {
            root: self.root@,
            id: self.id@,
            own: self.own,
            entries: entry_views(self.entries@),
            failure: string_view(self.failure),
            stage: self.standing@,
        }
    }
}

/// Goes on with the entry at index `from`.
fn seek_from(
    id: &str,
    own: pid_t,
    root: &str,
    entries: &Vec<DirEntry>,
    failure: &Option<String>,
    from: usize,
) -> (standing: Standing)
    requires
        from <= entries.len(),
    ensures
        standing@ == seek(
            id@,
            own,
            root@,
            entry_views(entries@),
            string_view(*failure),
            from as nat,
        ),
        standing@ matches Stage::Cmdline { at, .. } ==> at < entries.len(),
        !(standing@ is List),
{
    let mut at: usize = from;
    while at < entries.len()
        invariant
            from <= at <= entries.len(),
            seek(id@, own, root@, entry_views(entries@), string_view(*failure), at as nat) == seek(
                id@,
                own,
                root@,
                entry_views(entries@),
                string_view(*failure),
                from as nat,
            ),
        decreases entries.len() - at,
    {
        assert(entry_views(entries@)[at as int] == entries@[at as int]@);
        match (Command {}).candidate(entries[at].name.as_str(), own) {
            Some(pid) => {
                return Standing::Cmdline { at, pid };
            },
            None => {},
        }
        at += 1;
    }
    let e = match failure {
        Some(cause) => {
            let what = join3("failed to read ", root, " directory - is procfs mounted?");
            unreadable(what.as_str(), cause.as_str())
        },
        None => (Command {}).not_found(id),
    };
    Standing::Done(Err(e))
}

impl CommandLookup {
    #[verifier::type_invariant]
    spec fn inv(self) -> bool {
        self@.wf()
    }

    /// What the search wants next.
    pub fn next(&self) -> (step: Step)
        ensures
            step@ == self@.next(),
            self@.wf(),
    {
        proof {
            use_type_invariant(self);
            assert(entry_views(self.entries@).len() == self.entries@.len());
        }
        match &self.standing {
            Standing::List => Step::Ask(Request::ListDir(self.root.clone())),
            Standing::Cmdline { at, .. } => {
                assert(entry_views(self.entries@)[*at as int] == self.entries@[*at as int]@);
                let dir = join3(self.root.as_str(), "/", self.entries[*at].name.as_str());
                Step::Ask(Request::ReadFile(join2(dir.as_str(), "/cmdline")))
            },
            Standing::Done(Ok(pid)) => Step::Done(Ok(*pid)),
            Standing::Done(Err(e)) => Step::Done(Err(e.duplicate())),
        }
    }

    /// Takes the answer of the system to what the search wanted.
    pub fn resume(self, reply: Reply) -> (lookup: CommandLookup)
        ensures
            lookup@ == self@.resumed(reply@),
            lookup@.wf(),
    {
        proof {
            use_type_invariant(&self);
            assert(entry_views(self.entries@).len() == self.entries@.len());
        }
        match (self.standing, reply) {
            (Standing::List, Reply::Dir(listing)) => {
                let standing = seek_from(
                    self.id.as_str(),
                    self.own,
                    self.root.as_str(),
                    &listing.entries,
                    &listing.failure,
                    0,
                );
                CommandLookup {
                    root: self.root,
                    id: self.id,
                    own: self.own,
                    entries: listing.entries,
                    failure: listing.failure,
                    standing,
                }
            },
            (Standing::Cmdline { at, pid }, Reply::File(read)) => {
                assert(self@.stage == Stage::Cmdline { at: at as nat, pid });
                assert(at < self.entries.len());
                let found = match &read {
                    Ok(bytes) => (Command {}).matches(self.id.as_str(), bytes.as_slice()),
                    Err(_) => false,
                };
                let standing = if found {
                    Standing::Done(Ok(pid))
                } else {
                    seek_from(
                        self.id.as_str(),
                        self.own,
                        self.root.as_str(),
                        &self.entries,
                        &self.failure,
                        at + 1,
                    )
                };
                CommandLookup {
                    root: self.root,
                    id: self.id,
                    own: self.own,
                    entries: self.entries,
                    failure: self.failure,
                    standing,
                }
            },
            (standing, _) => CommandLookup {
                root: self.root,
                id: self.id,
                own: self.own,
                entries: self.entries,
                failure: self.failure,
                standing,
            },
        }
    }
}

impl Command {
    /// Starts the search for a process whose command line holds
    /// `container_id`, among the processes but `own_pid` that the directory
    /// `proc_root` shows, in the order in which the system lists them.
    pub fn lookup(&self, container_id: &str, own_pid: pid_t, proc_root: &str) -> (lookup:
        CommandLookup)
        ensures
            lookup@ == ScanView::start(proc_root@, container_id@, own_pid),
    {
        let lookup = CommandLookup {
            root: String::from_str(proc_root),
            id: String::from_str(container_id),
            own: own_pid,
            entries: Vec::new(),
            failure: None,
            standing: Standing::List,
        };
        assert(lookup@.entries =~= Seq::empty());
        lookup
    }

    /// Reads the name of an entry of the process directory: the process to
    /// examine, if it names one other than `own_pid`.
    pub fn candidate(&self, entry_name: &str, own_pid: pid_t) -> (pid: Option<pid_t>)
        ensures
            pid == other_process(entry_name@, own_pid),
    {
        let chars = to_chars(entry_name);
        match parse_pid(chars.as_slice()) {
            Some(pid) => if pid == own_pid {
                None
            } else {
                Some(pid)
            },
            None => None,
        }
    }

    /// Tells whether the command line of a process holds the identifier.
    pub fn matches(&self, container_id: &str, cmdline: &[u8]) -> (found: bool)
        ensures
            found == mentions(container_id@, cmdline@),
    {
        let mut text: Vec<u8> = Vec::new();
        let mut i: usize = 0;
        while i < cmdline.len()
            invariant
                i <= cmdline.len(),
                text@ == spaced(cmdline@.take(i as int)),
            decreases cmdline.len() - i,
        {
            let b = cmdline[i];
            text.push(if b == 0 { 32u8 } else { b });
            proof {
                assert(cmdline@.take(i + 1) == cmdline@.take(i as int).push(b));
                assert(text@ =~= spaced(cmdline@.take(i + 1)));
            }
            i += 1;
        }
        proof {
            assert(cmdline@.take(i as int) == cmdline@);
        }
        contains_bytes(text.as_slice(), container_id.as_bytes())
    }

    /// Reports that no process was found.
    pub fn not_found(&self, container_id: &str) -> (e: LookupError)
        ensures
            e@ == no_match(container_id@),
    {
        LookupError::new(
            ErrorKind::NotFound,
            join3("no process found with command line matching '", container_id, "'"),
        )
    }

    /// A search by command line needs no program.
    pub fn check_required_tools(&self, tools: &Tools) -> (checked: Result<(), LookupError>)
        ensures
            checked is Ok,
    {
        Ok(())
    }
}

/// Whether the process behind `entry` is the one searched for, `cmdline`
/// being what reading its command line gives: the ID of the process, if it
/// is another process than the searching one and its command line holds
/// the text.
pub open spec fn hit(
    id: Seq<char>,
    own: pid_t,
    entry: EntryView,
    cmdline: Result<Seq<u8>, Seq<char>>,
) -> Option<pid_t> {
    match other_process(entry.name, own) {
        Some(pid) => if cmdline is Ok && mentions(id, cmdline->Ok_0) {
            Some(pid)
        } else {
            None
        },
        None => None,
    }
}

/// What a search over the processes `entries` ends with that starts at
/// index `from`: the first process, in the order of the listing, that is
/// the one searched for; or, past the last entry, the end of an exhausted
/// search.
pub open spec fn first_hit(
    id: Seq<char>,
    own: pid_t,
    root: Seq<char>,
    entries: Seq<EntryView>,
    cmdlines: Seq<Result<Seq<u8>, Seq<char>>>,
    failure: Option<Seq<char>>,
    from: nat,
) -> Result<pid_t, ErrorView>
    decreases entries.len() - from,
{
    if from >= entries.len() {
        Err(exhausted(id, root, failure))
    } else {
        match hit(id, own, entries[from as int], cmdlines[from as int]) {
            Some(pid) => Ok(pid),
            None => first_hit(id, own, root, entries, cmdlines, failure, from + 1),
        }
    }
}

/// What the system answers to what the search in state `s` wants, on a
/// machine whose process directory lists as `listing` and on which reading
/// the command line of the process behind the entry at index `i` gives
/// `cmdlines[i]`.
pub open spec fn reply_to(
    s: ScanView,
    listing: ListingView,
    cmdlines: Seq<Result<Seq<u8>, Seq<char>>>,
) -> ReplyView {
    match s.stage {
        Stage::Cmdline { at, .. } => ReplyView::File(cmdlines[at as int]),
        _ => ReplyView::Dir(listing),
    }
}

/// The state in which the search in state `s` ends on such a machine, or in
/// which it stands after `fuel` answers.
pub open spec fn run(
    s: ScanView,
    listing: ListingView,
    cmdlines: Seq<Result<Seq<u8>, Seq<char>>>,
    fuel: nat,
) -> ScanView
    decreases fuel,
{
    if fuel == 0 || s.stage is Done {
        s
    } else {
        run(s.resumed(reply_to(s, listing, cmdlines)), listing, cmdlines, (fuel - 1) as nat)
    }
}

proof fn lemma_run_from(
    s: ScanView,
    listing: ListingView,
    cmdlines: Seq<Result<Seq<u8>, Seq<char>>>,
    from: nat,
    fuel: nat,
)
    requires
        s.entries == listing.entries,
        s.failure == listing.failure,
        s.stage == seek(s.id, s.own, s.root, s.entries, s.failure, from),
        cmdlines.len() == s.entries.len(),
        from <= s.entries.len(),
        fuel >= s.entries.len() - from,
    ensures
        run(s, listing, cmdlines, fuel).stage == Stage::Done(
            first_hit(s.id, s.own, s.root, s.entries, cmdlines, s.failure, from),
        ),
    decreases s.entries.len() - from,
{
    if from < s.entries.len() {
        match other_process(s.entries[from as int].name, s.own) {
            None => {
                lemma_run_from(s, listing, cmdlines, from + 1, fuel);
            },
            Some(pid) => {
                let read = s.resumed(reply_to(s, listing, cmdlines));
                if hit(s.id, s.own, s.entries[from as int], cmdlines[from as int]) is Some {
                    assert(run(read, listing, cmdlines, (fuel - 1) as nat) == read);
                } else {
                    lemma_run_from(read, listing, cmdlines, from + 1, (fuel - 1) as nat);
                }
            },
        }
    }
}

/// The search ends at the first process that mentions the text. On a
/// machine whose process directory `root` lists as `listing` and on which
/// reading the command line of the process behind the entry at index `i`
/// gives `cmdlines[i]`, the search for `id` by the process `own` ends with the
/// first process, in the order of the listing, that is another process than
/// `own` and whose command line holds `id`. Where there is none, it ends
/// without a process.
pub proof fn law_search_ends_at_first_hit(
    root: Seq<char>,
    id: Seq<char>,
    own: pid_t,
    listing: ListingView,
    cmdlines: Seq<Result<Seq<u8>, Seq<char>>>,
    fuel: nat,
)
    requires
        cmdlines.len() == listing.entries.len(),
        fuel > listing.entries.len(),
    ensures
        run(ScanView::start(root, id, own), listing, cmdlines, fuel).stage == Stage::Done(
            first_hit(id, own, root, listing.entries, cmdlines, listing.failure, 0),
        ),
{
    let start = ScanView::start(root, id, own);
    let listed = start.resumed(reply_to(start, listing, cmdlines));
    lemma_run_from(listed, listing, cmdlines, 0, (fuel - 1) as nat);
}

} // verus!
