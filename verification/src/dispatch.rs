//! The order of a lookup: which backend is asked next, when the lookup ends,
//! and what it answers.
//!
//! A lookup goes over a list of backends: the one that the caller chose or,
//! where the caller chose none, the default one. First every backend that the
//! caller chose is asked whether its tools are installed, and one that lacks
//! them ends the lookup at once. Then the backends are asked for the
//! container, in order, until one knows it. When none does, the lookup fails
//! with the failure of each.

use vstd::prelude::*;
use libc::pid_t;
use crate::error::{lift, ErrorKind, ErrorView, LookupError};
use crate::text::join5;

verus! {

/// What a dispatch wants done next.
#[derive(Clone, Copy, Debug, PartialEq, Eq, Structural)]
pub enum Action {
    /// Ask the backend at this index of the chosen list for its tools.
    Check(usize),
    /// Ask the backend at this index of the list in use for the container.
    Lookup(usize),
    /// Nothing: the lookup has ended.
    Finish,
}

/// A lookup that a backend failed.
pub struct Attempt {
    pub name: Seq<char>,
    pub error: ErrorView,
}

/// How the report of a failed lookup starts.
pub const REPORT_HEADER: &'static str = "no suitable container found, got the following errors:";

/// The report of the failed lookups `attempts`: the header, and then for each
/// in order a line with the name of the backend and the message of its
/// failure.
pub open spec fn report(attempts: Seq<Attempt>) -> Seq<char>
    decreases attempts.len(),
{
    if attempts.len() == 0 {
        REPORT_HEADER@
    } else {
        report(attempts.drop_last()) + "\n  - "@ + attempts.last().name + ": "@
            + attempts.last().error.message
    }
}

/// The state of a dispatch.
pub struct DispatchView {
    /// The number of backends that the caller chose.
    pub explicit: nat,
    /// The number of backends of the default list.
    pub fallback: nat,
    /// The number of chosen backends whose tools were found.
    pub checked: nat,
    /// The failure of the chosen backend whose tools were not found.
    pub refused: Option<ErrorView>,
    /// The lookups that failed, in order.
    pub attempts: Seq<Attempt>,
    /// The process that a backend found.
    pub found: Option<pid_t>,
}

impl DispatchView {
    /// The state in which a dispatch starts.
    pub open spec fn start(explicit: nat, fallback: nat) -> DispatchView {
        DispatchView {
            explicit,
            fallback,
            checked: 0,
            refused: None,
            attempts: Seq::empty(),
            found: None,
        }
    }

    /// The length of the list in use: the chosen one unless it is empty.
    pub open spec fn candidates(self) -> nat {
        if self.explicit > 0 {
            self.explicit
        } else {
            self.fallback
        }
    }

    /// What holds of every state that a dispatch can reach.
    pub open spec fn wf(self) -> bool {
        &&& self.checked <= self.explicit
        &&& self.attempts.len() <= self.candidates()
        &&& self.refused is Some ==> self.checked < self.explicit
        &&& self.checked < self.explicit ==> self.attempts.len() == 0 && self.found is None
        &&& self.found is Some ==> self.attempts.len() < self.candidates()
    }

    /// What the dispatch wants done next.
    pub open spec fn next(self) -> Action {
        if self.refused is Some || self.found is Some {
            Action::Finish
        } else if self.checked < self.explicit {
            Action::Check(self.checked as usize)
        } else if self.attempts.len() < self.candidates() {
            Action::Lookup(self.attempts.len() as usize)
        } else {
            Action::Finish
        }
    }

    /// The state after the backend that was to be checked has answered. In a
    /// state that wants no check, the answer is ignored.
    pub open spec fn checked_with(self, answer: Result<(), ErrorView>) -> DispatchView {
        if self.next() is Check {
            match answer {
                Ok(_) => DispatchView { checked: self.checked + 1, ..self },
                Err(e) => DispatchView { refused: Some(e), ..self },
            }
        } else {
            self
        }
    }

    /// The state after the backend `name`, which was to be asked for the
    /// container, has answered. In a state that wants no lookup, the answer
    /// is ignored.
    pub open spec fn looked_up_with(self, name: Seq<char>, answer: Result<pid_t, ErrorView>)
        -> DispatchView {
        if self.next() is Lookup {
            match answer {
                Ok(pid) => DispatchView { found: Some(pid), ..self },
                Err(error) => DispatchView {
                    attempts: self.attempts.push(Attempt { name, error }),
                    ..self
                },
            }
        } else {
            self
        }
    }

    /// What the lookup answers, once it has ended: the failure of the tool
    /// check that failed; else the process that was found; else the report of
    /// all lookups, each of which failed.
    pub open spec fn outcome(self) -> Result<pid_t, ErrorView> {
        if self.refused is Some {
            Err(self.refused->0)
        } else if self.found is Some {
            Ok(self.found->0)
        } else {
            Err(ErrorView { kind: ErrorKind::NotFound, message: report(self.attempts) })
        }
    }

    /// The number of answers that the dispatch can still take.
    pub open spec fn remaining(self) -> nat {
        match self.next() {
            Action::Finish => 0,
            Action::Check(_) => ((self.explicit - self.checked) + self.candidates() + 1) as nat,
            Action::Lookup(_) => (self.candidates() - self.attempts.len()) as nat,
        }
    }
}

/// What one backend answers in the course of one lookup: to the question
/// for its tools, and to the question for the container.
pub struct Answers {
    pub tools: Result<(), ErrorView>,
    pub name: Seq<char>,
    pub lookup: Result<pid_t, ErrorView>,
}

/// The list in use: the chosen one unless it is empty.
pub open spec fn in_use(explicit: Seq<Answers>, fallback: Seq<Answers>) -> Seq<Answers> {
    if explicit.len() > 0 {
        explicit
    } else {
        fallback
    }
}

/// The state `d` after what it wants done next was done, with the backends
/// answering as `explicit` and `fallback` say.
pub open spec fn advance(d: DispatchView, explicit: Seq<Answers>, fallback: Seq<Answers>)
    -> DispatchView {
    match d.next() {
        Action::Check(i) => d.checked_with(explicit[i as int].tools),
        Action::Lookup(i) => d.looked_up_with(
            in_use(explicit, fallback)[i as int].name,
            in_use(explicit, fallback)[i as int].lookup,
        ),
        Action::Finish => d,
    }
}

/// The state in which the dispatch that is in state `d` ends.
pub open spec fn run(d: DispatchView, explicit: Seq<Answers>, fallback: Seq<Answers>)
    -> DispatchView
    decreases d.remaining(),
{
    if d.next() is Finish {
        d
    } else {
        run(advance(d, explicit, fallback), explicit, fallback)
    }
}

/// The backends that are asked for the container from the state `d` on, by
/// their indices in the list in use and in the order of the asking.
pub open spec fn lookups_asked(d: DispatchView, explicit: Seq<Answers>, fallback: Seq<Answers>)
    -> Seq<int>
    decreases d.remaining(),
{
    match d.next() {
        Action::Finish => Seq::empty(),
        Action::Check(_) => lookups_asked(advance(d, explicit, fallback), explicit, fallback),
        Action::Lookup(i) => seq![i as int] + lookups_asked(
            advance(d, explicit, fallback),
            explicit,
            fallback,
        ),
    }
}

/// The failures of the backends `list`, each of which failed the lookup.
pub open spec fn failures(list: Seq<Answers>) -> Seq<Attempt> {
    list.map_values(|a: Answers| Attempt { name: a.name, error: a.lookup->Err_0 })
}

/// The indices from `from` up to, and without, `to`.
pub open spec fn indices(from: int, to: int) -> Seq<int> {
    Seq::new((to - from) as nat, |k: int| from + k)
}

/// The state of a dispatch that has found the tools of `checked` chosen
/// backends and has asked none for the container yet.
pub open spec fn checking(explicit: Seq<Answers>, fallback: Seq<Answers>, checked: nat)
    -> DispatchView {
    DispatchView { checked, ..DispatchView::start(explicit.len(), fallback.len()) }
}

/// The state of a dispatch in which the first `tried` backends of the list
/// in use have failed the lookup.
pub open spec fn trying(explicit: Seq<Answers>, fallback: Seq<Answers>, tried: int)
    -> DispatchView {
    DispatchView {
        checked: explicit.len(),
        attempts: failures(in_use(explicit, fallback).take(tried)),
        ..DispatchView::start(explicit.len(), fallback.len())
    }
}

proof fn lemma_refusal(explicit: Seq<Answers>, fallback: Seq<Answers>, checked: nat, k: int)
    requires
        explicit.len() <= usize::MAX,
        checked <= k < explicit.len(),
        explicit[k].tools is Err,
        forall|j: int| 0 <= j < k ==> explicit[j].tools is Ok,
    ensures
        run(checking(explicit, fallback, checked), explicit, fallback).outcome() == Err::<
            pid_t,
            ErrorView,
        >(explicit[k].tools->Err_0),
        lookups_asked(checking(explicit, fallback, checked), explicit, fallback)
            == Seq::<int>::empty(),
    decreases k - checked,
{
    let d = checking(explicit, fallback, checked);
    assert(d.next() == Action::Check(checked as usize));
    let after = advance(d, explicit, fallback);
    if checked == k {
        assert(after.refused == Some(explicit[k].tools->Err_0));
        assert(after.next() is Finish);
        assert(run(after, explicit, fallback) == after);
        assert(lookups_asked(after, explicit, fallback) == Seq::<int>::empty());
    } else {
        assert(explicit[checked as int].tools is Ok);
        assert(after == checking(explicit, fallback, checked + 1));
        lemma_refusal(explicit, fallback, checked + 1, k);
    }
}

proof fn lemma_checks_pass(explicit: Seq<Answers>, fallback: Seq<Answers>, checked: nat)
    requires
        explicit.len() <= usize::MAX,
        checked <= explicit.len(),
        forall|j: int| 0 <= j < explicit.len() ==> explicit[j].tools is Ok,
    ensures
        run(checking(explicit, fallback, checked), explicit, fallback) == run(
            trying(explicit, fallback, 0),
            explicit,
            fallback,
        ),
        lookups_asked(checking(explicit, fallback, checked), explicit, fallback) == lookups_asked(
            trying(explicit, fallback, 0),
            explicit,
            fallback,
        ),
    decreases explicit.len() - checked,
{
    let d = checking(explicit, fallback, checked);
    assert(in_use(explicit, fallback).take(0) == Seq::<Answers>::empty());
    assert(failures(Seq::<Answers>::empty()) == Seq::<Attempt>::empty());
    if checked == explicit.len() {
        assert(d == trying(explicit, fallback, 0));
    } else {
        assert(d.next() == Action::Check(checked as usize));
        assert(explicit[checked as int].tools is Ok);
        assert(advance(d, explicit, fallback) == checking(explicit, fallback, checked + 1));
        lemma_checks_pass(explicit, fallback, checked + 1);
    }
}

proof fn lemma_failure_recorded(explicit: Seq<Answers>, fallback: Seq<Answers>, tried: int)
    requires
        0 <= tried < in_use(explicit, fallback).len(),
        in_use(explicit, fallback).len() <= usize::MAX,
        in_use(explicit, fallback)[tried].lookup is Err,
    ensures
        trying(explicit, fallback, tried).next() == Action::Lookup(tried as usize),
        advance(trying(explicit, fallback, tried), explicit, fallback) == trying(
            explicit,
            fallback,
            tried + 1,
        ),
{
    let list = in_use(explicit, fallback);
    let d = trying(explicit, fallback, tried);
    assert(d.attempts.len() == tried);
    assert(list.take(tried + 1) == list.take(tried).push(list[tried]));
    assert(failures(list.take(tried + 1)) =~= failures(list.take(tried)).push(
        Attempt { name: list[tried].name, error: list[tried].lookup->Err_0 },
    ));
}

proof fn lemma_success(explicit: Seq<Answers>, fallback: Seq<Answers>, tried: int, i: int)
    requires
        0 <= tried <= i < in_use(explicit, fallback).len(),
        in_use(explicit, fallback).len() <= usize::MAX,
        in_use(explicit, fallback)[i].lookup is Ok,
        forall|j: int| 0 <= j < i ==> in_use(explicit, fallback)[j].lookup is Err,
    ensures
        run(trying(explicit, fallback, tried), explicit, fallback).outcome() == Ok::<
            pid_t,
            ErrorView,
        >(in_use(explicit, fallback)[i].lookup->Ok_0),
        lookups_asked(trying(explicit, fallback, tried), explicit, fallback) == indices(
            tried,
            i + 1,
        ),
    decreases i - tried,
{
    let list = in_use(explicit, fallback);
    let d = trying(explicit, fallback, tried);
    assert(d.attempts.len() == tried);
    assert(d.next() == Action::Lookup(tried as usize));
    let after = advance(d, explicit, fallback);
    if tried == i {
        assert(after.found == Some(list[i].lookup->Ok_0));
        assert(after.next() is Finish);
        assert(run(after, explicit, fallback) == after);
        assert(lookups_asked(after, explicit, fallback) == Seq::<int>::empty());
        assert(lookups_asked(d, explicit, fallback) =~= indices(tried, i + 1));
    } else {
        lemma_failure_recorded(explicit, fallback, tried);
        lemma_success(explicit, fallback, tried + 1, i);
        assert(lookups_asked(d, explicit, fallback) =~= indices(tried, i + 1));
    }
}

proof fn lemma_all_fail(explicit: Seq<Answers>, fallback: Seq<Answers>, tried: int)
    requires
        0 <= tried <= in_use(explicit, fallback).len(),
        in_use(explicit, fallback).len() <= usize::MAX,
        forall|j: int|
            0 <= j < in_use(explicit, fallback).len() ==> in_use(explicit, fallback)[j].lookup
                is Err,
    ensures
        run(trying(explicit, fallback, tried), explicit, fallback) == trying(
            explicit,
            fallback,
            in_use(explicit, fallback).len() as int,
        ),
        lookups_asked(trying(explicit, fallback, tried), explicit, fallback) == indices(
            tried,
            in_use(explicit, fallback).len() as int,
        ),
    decreases in_use(explicit, fallback).len() - tried,
{
    let list = in_use(explicit, fallback);
    let d = trying(explicit, fallback, tried);
    assert(d.attempts.len() == tried);
    if tried == list.len() {
        assert(d.next() is Finish);
        assert(lookups_asked(d, explicit, fallback) =~= indices(tried, list.len() as int));
    } else {
        lemma_failure_recorded(explicit, fallback, tried);
        lemma_all_fail(explicit, fallback, tried + 1);
        assert(lookups_asked(d, explicit, fallback) =~= indices(tried, list.len() as int));
    }
}

/// A chosen backend without its tools fails the lookup before any backend is
/// asked for the container: where the tools of the chosen backend at index
/// `k` are missing, and those of the chosen backends before it are not, the
/// lookup ends with the failure of that tool check, and no backend is ever
/// asked for the container.
pub proof fn law_missing_tools_fail_fast(explicit: Seq<Answers>, fallback: Seq<Answers>, k: int)
    requires
        explicit.len() <= usize::MAX,
        0 <= k < explicit.len(),
        explicit[k].tools is Err,
        forall|j: int| 0 <= j < k ==> explicit[j].tools is Ok,
    ensures
        run(
            DispatchView::start(explicit.len(), fallback.len()),
            explicit,
            fallback,
        ).outcome() == Err::<pid_t, ErrorView>(explicit[k].tools->Err_0),
        lookups_asked(DispatchView::start(explicit.len(), fallback.len()), explicit, fallback)
            == Seq::<int>::empty(),
{
    assert(DispatchView::start(explicit.len(), fallback.len()) == checking(explicit, fallback, 0));
    lemma_refusal(explicit, fallback, 0, k);
}

/// No backend is asked after one has found the container: where the tools
/// of all chosen backends are installed and, in the list in use, the backend
/// at index `i` is the first that knows the container, the lookup ends with
/// the process that this backend found, and the backends asked are those up
/// to index `i`, each once and in order, and no other.
pub proof fn law_first_success_ends_lookup(
    explicit: Seq<Answers>,
    fallback: Seq<Answers>,
    i: int,
)
    requires
        explicit.len() <= usize::MAX,
        fallback.len() <= usize::MAX,
        forall|j: int| 0 <= j < explicit.len() ==> explicit[j].tools is Ok,
        0 <= i < in_use(explicit, fallback).len(),
        in_use(explicit, fallback)[i].lookup is Ok,
        forall|j: int| 0 <= j < i ==> in_use(explicit, fallback)[j].lookup is Err,
    ensures
        run(
            DispatchView::start(explicit.len(), fallback.len()),
            explicit,
            fallback,
        ).outcome() == Ok::<pid_t, ErrorView>(in_use(explicit, fallback)[i].lookup->Ok_0),
        lookups_asked(DispatchView::start(explicit.len(), fallback.len()), explicit, fallback)
            == indices(0, i + 1),
{
    assert(DispatchView::start(explicit.len(), fallback.len()) == checking(explicit, fallback, 0));
    lemma_checks_pass(explicit, fallback, 0);
    lemma_success(explicit, fallback, 0, i);
}

/// A lookup that every backend fails reports every failure: where the tools
/// of all chosen backends are installed and no backend of the list in use
/// knows the container, every backend of the list is asked once, in order,
/// and the lookup ends with the report of all their failures.
pub proof fn law_all_failures_are_reported(explicit: Seq<Answers>, fallback: Seq<Answers>)
    requires
        explicit.len() <= usize::MAX,
        fallback.len() <= usize::MAX,
        forall|j: int| 0 <= j < explicit.len() ==> explicit[j].tools is Ok,
        forall|j: int|
            0 <= j < in_use(explicit, fallback).len() ==> in_use(explicit, fallback)[j].lookup
                is Err,
    ensures
        run(
            DispatchView::start(explicit.len(), fallback.len()),
            explicit,
            fallback,
        ).outcome() == Err::<pid_t, ErrorView>(
            ErrorView {
                kind: ErrorKind::NotFound,
                message: report(failures(in_use(explicit, fallback))),
            },
        ),
        lookups_asked(DispatchView::start(explicit.len(), fallback.len()), explicit, fallback)
            == indices(0, in_use(explicit, fallback).len() as int),
{
    let list = in_use(explicit, fallback);
    assert(DispatchView::start(explicit.len(), fallback.len()) == checking(explicit, fallback, 0));
    lemma_checks_pass(explicit, fallback, 0);
    lemma_all_fail(explicit, fallback, 0);
    assert(list.take(list.len() as int) == list);
}

/// A dispatch in progress.
pub struct Dispatch {
    explicit: usize,
    fallback: usize,
    checked: usize,
    tried: usize,
    refused: Option<LookupError>,
    found: Option<pid_t>,
    message: String,
    attempts: Ghost<Seq<Attempt>>,
}

impl View for Dispatch {
    type V = DispatchView;

    closed spec fn view(&self) -> DispatchView {
        DispatchView {
            explicit: self.explicit as nat,
            fallback: self.fallback as nat,
            checked: self.checked as nat,
            refused: match self.refused {
                Some(e) => Some(e@),
                None => None,
            },
            attempts: self.attempts@,
            found: self.found,
        }
    }
}

impl Dispatch {
    #[verifier::type_invariant]
    spec fn inv(self) -> bool {
        &&& self@.wf()
        &&& self.tried == self.attempts@.len()
        &&& self.message@ == report(self.attempts@)
    }

    /// Starts a dispatch over `explicit` backends that the caller chose and
    /// `fallback` backends of the default list.
    pub fn new(explicit: usize, fallback: usize) -> (d: Dispatch)
        ensures
            d@ == DispatchView::start(explicit as nat, fallback as nat),
    {
        Dispatch {
            explicit,
            fallback,
            checked: 0,
            tried: 0,
            refused: None,
            found: None,
            message: String::from_str(REPORT_HEADER),
            attempts: Ghost(Seq::empty()),
        }
    }

    /// What the dispatch wants done next.
    pub fn next(&self) -> (action: Action)
        ensures
            action == self@.next(),
            self@.wf(),
    {
        proof {
            use_type_invariant(self);
        }
        let candidates = if self.explicit > 0 {
            self.explicit
        } else {
            self.fallback
        };
        if self.refused.is_some() || self.found.is_some() {
            Action::Finish
        } else if self.checked < self.explicit {
            Action::Check(self.checked)
        } else if self.tried < candidates {
            Action::Lookup(self.tried)
        } else {
            Action::Finish
        }
    }

    /// Takes the answer of the backend that was to be checked.
    pub fn checked(self, answer: Result<(), LookupError>) -> (d: Dispatch)
        ensures
            d@ == self@.checked_with(lift(answer)),
            d@.wf(),
    {
        proof {
            use_type_invariant(&self);
        }
        match self.next() {
            Action::Check(_) => match answer {
                Ok(_) => Dispatch { checked: self.checked + 1, ..self },
                Err(e) => Dispatch { refused: Some(e), ..self },
            },
            _ => self,
        }
    }

    /// Takes the answer of the backend `name`, which was to be asked for the
    /// container.
    pub fn looked_up(self, name: &str, answer: Result<pid_t, LookupError>) -> (d: Dispatch)
        ensures
            d@ == self@.looked_up_with(name@, lift(answer)),
            d@.wf(),
    {
        proof {
            use_type_invariant(&self);
        }
        match self.next() {
            Action::Lookup(_) => match answer {
                Ok(pid) => Dispatch { found: Some(pid), ..self },
                Err(e) => {
                    let ghost attempts = self.attempts@.push(Attempt { name: name@, error: e@ });
                    let message = join5(
                        self.message.as_str(),
                        "\n  - ",
                        name,
                        ": ",
                        e.message.as_str(),
                    );
                    proof {
                        assert(attempts.drop_last() =~= self.attempts@);
                    }
                    Dispatch {
                        tried: self.tried + 1,
                        message,
                        attempts: Ghost(attempts),
                        ..self
                    }
                },
            },
            _ => self,
        }
    }

    /// What the lookup answers.
    pub fn finish(self) -> (answer: Result<pid_t, LookupError>)
        ensures
            lift(answer) == self@.outcome(),
    {
        proof {
            use_type_invariant(&self);
        }
        match self.refused {
            Some(e) => Err(e),
            None => match self.found {
                Some(pid) => Ok(pid),
                None => Err(LookupError::new(ErrorKind::NotFound, self.message)),
            },
        }
    }
}

} // verus!
