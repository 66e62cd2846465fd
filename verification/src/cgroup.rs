//! The search for a control group by its name: a walk over the tree of
//! directories below a root, depth first, which ends at the first directory
//! that has the name.
//!
//! The walk asks for one directory at a time and is handed its listing. Of
//! each listing it takes the entries in order: a directory with the name
//! ends the walk; any other directory is listed, and walked through, before
//! the entry after it is taken. Which of several directories with the name
//! is found therefore depends on the order of the listings alone.

use vstd::prelude::*;
use crate::error::{lift_text, system_failure, unreadable, ErrorKind, ErrorView, LookupError};
use crate::text::{join3, same_text, string_view};

verus! {

/// An entry of a directory.
#[derive(Debug)]
pub struct DirEntry {
    /// The name of the entry, without the path of the directory.
    pub name: String,
    /// Whether the entry is a directory, or leads to one.
    pub is_dir: bool,
}

/// A `DirEntry` as contracts speak of it.
pub struct EntryView {
    pub name: Seq<char>,
    pub is_dir: bool,
}

impl View for DirEntry {
    type V = EntryView;

    open spec fn view(&self) -> EntryView {
        EntryView { name: self.name@, is_dir: self.is_dir }
    }
}

/// What listing a directory gave: the entries that could be read, in the
/// order in which the system gave them, and the reason why the listing
/// stopped, if it did not reach its end.
#[derive(Debug)]
pub struct Listing {
    pub entries: Vec<DirEntry>,
    pub failure: Option<String>,
}

/// A `Listing` as contracts speak of it.
pub struct ListingView {
    pub entries: Seq<EntryView>,
    pub failure: Option<Seq<char>>,
}

impl View for Listing {
    type V = ListingView;

    open spec fn view(&self) -> ListingView {
        ListingView { entries: entry_views(self.entries@), failure: string_view(self.failure) }
    }
}

/// The entries `entries` as contracts speak of them.
pub open spec fn entry_views(entries: Seq<DirEntry>) -> Seq<EntryView> {
    entries.map_values(|e: DirEntry| e@)
}

/// The path of the entry `name` of the directory `dir`.
pub open spec fn path_join(dir: Seq<char>, name: Seq<char>) -> Seq<char> {
    dir + "/"@ + name
}

/// A directory that the walk has entered: its path, its entries, and how
/// many of them the walk has taken.
pub struct FrameView {
    pub dir: Seq<char>,
    pub entries: Seq<EntryView>,
    pub next: nat,
}

/// Where a walk stands.
pub enum Status {
    /// The walk wants the listing of this directory.
    Awaiting(Seq<char>),
    /// The walk has found the directory at this path.
    Found(Seq<char>),
    /// The walk has gone through the tree and found nothing.
    NotFound,
    /// The root could not be listed to its end.
    Failed,
}

/// The number of steps that a walk with the directories `frames` entered can
/// still take.
pub open spec fn weight(frames: Seq<FrameView>) -> nat
    decreases frames.len(),
{
    if frames.len() == 0 {
        0
    } else {
        let top = frames.last();
        let left = if top.next <= top.entries.len() {
            top.entries.len() - top.next
        } else {
            0
        };
        (weight(frames.drop_last()) + left + 1) as nat
    }
}

/// `frames` with one more entry of its innermost directory taken.
pub open spec fn advanced(frames: Seq<FrameView>) -> Seq<FrameView> {
    frames.drop_last().push(FrameView { next: frames.last().next + 1, ..frames.last() })
}

/// Walks on from the directories `frames`, the innermost last, until a
/// directory named `target` is found, the listing of a directory is wanted,
/// or nothing is left: the directories then entered, and where the walk
/// stands. `complete` says whether the root was listed to its end.
pub open spec fn walk(frames: Seq<FrameView>, target: Seq<char>, complete: bool) -> (
    Seq<FrameView>,
    Status,
)
    decreases weight(frames),
{
    if frames.len() == 0 {
        (
            frames,
            if complete {
                Status::NotFound
            } else {
                Status::Failed
            },
        )
    } else {
        let top = frames.last();
        if top.next >= top.entries.len() {
            walk(frames.drop_last(), target, complete)
        } else {
            let entry = top.entries[top.next as int];
            proof {
                assert(advanced(frames).drop_last() == frames.drop_last());
            }
            if !entry.is_dir {
                walk(advanced(frames), target, complete)
            } else if entry.name == target {
                (advanced(frames), Status::Found(path_join(top.dir, entry.name)))
            } else {
                (advanced(frames), Status::Awaiting(path_join(top.dir, entry.name)))
            }
        }
    }
}

/// The state of a search.
pub struct SearchView {
    /// The name that is searched for.
    pub target: Seq<char>,
    /// The directory below which it is searched for.
    pub root: Seq<char>,
    /// Why the listing of the root stopped before its end, if it did.
    pub root_failure: Option<Seq<char>>,
    /// The directories that the walk has entered and not left, the innermost
    /// last.
    pub frames: Seq<FrameView>,
    /// Where the walk stands.
    pub status: Status,
}

/// That no directory has the name.
pub open spec fn not_found() -> ErrorView {
    ErrorView { kind: ErrorKind::NotFound, message: "cgroup not found in directory tree"@ }
}

impl SearchView {
    /// The state in which the search for `target` below `root` starts: it
    /// wants the listing of the root.
    pub open spec fn start(root: Seq<char>, target: Seq<char>) -> SearchView {
        SearchView {
            target,
            root,
            root_failure: None,
            frames: Seq::empty(),
            status: Status::Awaiting(root),
        }
    }

    /// The state after the directory that the search wanted was listed. A
    /// search that wants no listing ignores it.
    pub open spec fn listed(self, listing: ListingView) -> SearchView {
        match self.status {
            Status::Awaiting(dir) => {
                let root_failure = if self.frames.len() == 0 {
                    listing.failure
                } else {
                    self.root_failure
                };
                let entered = self.frames.push(
                    FrameView { dir, entries: listing.entries, next: 0 },
                );
                let (frames, status) = walk(entered, self.target, root_failure is None);
                SearchView { root_failure, frames, status, ..self }
            },
            _ => self,
        }
    }

    /// The directory whose listing the search wants.
    pub open spec fn wanted(self) -> Option<Seq<char>> {
        match self.status {
            Status::Awaiting(dir) => Some(dir),
            _ => None,
        }
    }

    /// What the search has come to, once it has ended: the path of the
    /// directory found, or why there is none.
    pub open spec fn outcome(self) -> Option<Result<Seq<char>, ErrorView>> {
        match self.status {
            Status::Awaiting(_) => None,
            Status::Found(path) => Some(Ok(path)),
            Status::NotFound => Some(Err(not_found())),
            Status::Failed => Some(
                Err(
                    system_failure(
                        "failed to read directory '"@ + self.root + "'"@,
                        match self.root_failure {
                            Some(cause) => cause,
                            None => Seq::empty(),
                        },
                    ),
                ),
            ),
        }
    }
}

struct Frame {
    dir: String,
    entries: Vec<DirEntry>,
    next: usize,
}

impl View for Frame {
    type V = FrameView;

    closed spec fn view(&self) -> FrameView {
        FrameView { dir: self.dir@, entries: entry_views(self.entries@), next: self.next as nat }
    }
}

enum Standing {
    Awaiting(String),
    Found(String),
    NotFound,
    Failed,
}

impl View for Standing {
    type V = Status;

    closed spec fn view(&self) -> Status {
        match self {
            Standing::Awaiting(dir) => Status::Awaiting(dir@),
            Standing::Found(path) => Status::Found(path@),
            Standing::NotFound => Status::NotFound,
            Standing::Failed => Status::Failed,
        }
    }
}

/// A search in progress.
pub struct CgroupSearch {
    target: String,
    root: String,
    root_failure: Option<String>,
    frames: Vec<Frame>,
    standing: Standing,
}

spec fn frame_views(frames: Seq<Frame>) -> Seq<FrameView> {
    frames.map_values(|f: Frame| f@)
}

impl View for CgroupSearch {
    type V = SearchView;

    closed spec fn view(&self) -> SearchView {
        SearchView {
            target: self.target@,
            root: self.root@,
            root_failure: match self.root_failure {
                Some(cause) => Some(cause@),
                None => None,
            },
            frames: frame_views(self.frames@),
            status: self.standing@,
        }
    }
}

/// Walks on from `entered`.
#[verifier::loop_isolation(false)]
fn walk_on(entered: Vec<Frame>, target: &str, complete: bool) -> (walked: (Vec<Frame>, Standing))
    ensures
        (frame_views(walked.0@), walked.1@) == walk(frame_views(entered@), target@, complete),
{
    let ghost goal = walk(frame_views(entered@), target@, complete);
    let mut frames = entered;
    loop
        invariant
            walk(frame_views(frames@), target@, complete) == goal,
        decreases weight(frame_views(frames@)),
    {
        let ghost before = frame_views(frames@);
        match frames.pop() {
            None => {
                assert(frame_views(frames@) =~= before);
                let standing = if complete {
                    Standing::NotFound
                } else {
                    Standing::Failed
                };
                return (frames, standing);
            },
            Some(top) => {
                assert(frame_views(frames@) =~= before.drop_last());
                assert(before.last() == top@);
                if top.next >= top.entries.len() {
                    continue ;
                }
                let entry = &top.entries[top.next];
                assert(top@.entries[top.next as int] == entry@);
                let is_dir = entry.is_dir;
                let matches = is_dir && same_text(entry.name.as_str(), target);
                let path = join3(top.dir.as_str(), "/", entry.name.as_str());
                let taken = Frame { dir: top.dir, entries: top.entries, next: top.next + 1 };
                frames.push(taken);
                assert(frame_views(frames@) =~= advanced(before));
                assert(advanced(before).drop_last() == before.drop_last());
                if !is_dir {
                    continue ;
                }
                if matches {
                    return (frames, Standing::Found(path));
                }
                return (frames, Standing::Awaiting(path));
            },
        }
    }
}

impl CgroupSearch {
    /// Starts the search for a directory named `target` below `root`.
    pub fn new(root: &str, target: &str) -> (search: CgroupSearch)
        ensures
            search@ == SearchView::start(root@, target@),
    {
        let search = CgroupSearch {
            target: String::from_str(target),
            root: String::from_str(root),
            root_failure: None,
            frames: Vec::new(),
            standing: Standing::Awaiting(String::from_str(root)),
        };
        assert(search@.frames =~= Seq::empty());
        search
    }

    /// The directory whose listing the search wants, unless it has ended.
    pub fn wanted(&self) -> (dir: Option<String>)
        ensures
            string_view(dir) == self@.wanted(),
    {
        match &self.standing {
            Standing::Awaiting(dir) => Some(dir.clone()),
            _ => None,
        }
    }

    /// Takes the listing of the directory that the search wanted, and walks
    /// on.
    pub fn visit_dirs(self, listing: Listing) -> (search: CgroupSearch)
        ensures
            search@ == self@.listed(listing@),
    {
        match self.standing {
            Standing::Awaiting(dir) => {
                let root_failure = if self.frames.len() == 0 {
                    listing.failure
                } else {
                    self.root_failure
                };
                let mut frames = self.frames;
                let ghost entered = frame_views(frames@).push(
                    FrameView { dir: dir@, entries: entry_views(listing.entries@), next: 0 },
                );
                frames.push(Frame { dir, entries: listing.entries, next: 0 });
                assert(frame_views(frames@) =~= entered);
                let (frames, standing) = walk_on(
                    frames,
                    self.target.as_str(),
                    root_failure.is_none(),
                );
                CgroupSearch {
                    target: self.target,
                    root: self.root,
                    root_failure,
                    frames,
                    standing,
                }
            },
            _ => self,
        }
    }

    /// What the search has come to, once it has ended.
    pub fn outcome(&self) -> (found: Option<Result<String, LookupError>>)
        ensures
            match found {
                Some(found) => self@.outcome() == Some(lift_text(found)),
                None => self@.outcome() is None,
            },
    {
        match &self.standing {
            Standing::Awaiting(_) => None,
            Standing::Found(path) => Some(Ok(path.clone())),
            Standing::NotFound => Some(
                Err(
                    LookupError::new(
                        ErrorKind::NotFound,
                        String::from_str("cgroup not found in directory tree"),
                    ),
                ),
            ),
            Standing::Failed => {
                let what = join3("failed to read directory '", self.root.as_str(), "'");
                let e = match &self.root_failure {
                    Some(cause) => unreadable(what.as_str(), cause.as_str()),
                    None => unreadable(what.as_str(), String::new().as_str()),
                };
                Some(Err(e))
            },
        }
    }
}

} // verus!
