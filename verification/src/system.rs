//! What a lookup asks of the system, and what the system answers.
//!
//! A lookup that needs more than one look at the system is a value that says
//! what it wants next, and that is handed the answer. The caller does what is
//! wanted: it runs the program, reads the file, lists the directory.

use vstd::prelude::*;
use libc::pid_t;
use crate::cgroup::{Listing, ListingView};
use crate::error::{in_context, ErrorView, LookupError};
use crate::output::{ran_view, read_view, CommandOutput, OutputView};
use crate::process_id::{Probe, ProbeView};
use crate::text::texts;

verus! {

/// Something that a lookup wants of the system.
#[derive(Debug)]
pub enum Request {
    /// Run the program that the first string names, with the other strings
    /// as its arguments, and keep what it writes.
    Run(Vec<String>),
    /// Look whether there is anything at this path.
    Probe(String),
    /// Read the file at this path.
    ReadFile(String),
    /// List the directory at this path.
    ListDir(String),
    /// Read where each link in the directory at this path leads.
    ReadLinks(String),
}

/// A `Request` as contracts speak of it.
pub enum RequestView {
    Run(Seq<Seq<char>>),
    Probe(Seq<char>),
    ReadFile(Seq<char>),
    ListDir(Seq<char>),
    ReadLinks(Seq<char>),
}

impl View for Request {
    type V = RequestView;

    open spec fn view(&self) -> RequestView {
        match self {
            Request::Run(argv) => RequestView::Run(texts(argv@)),
            Request::Probe(path) => RequestView::Probe(path@),
            Request::ReadFile(path) => RequestView::ReadFile(path@),
            Request::ListDir(path) => RequestView::ListDir(path@),
            Request::ReadLinks(path) => RequestView::ReadLinks(path@),
        }
    }
}

/// What the system answered to a request.
#[derive(Debug)]
pub enum Reply {
    /// To `Run`: how the program ended and what it wrote, or why it could
    /// not be started.
    Ran(Result<CommandOutput, String>),
    /// To `Probe`: what was seen.
    Probed(Probe),
    /// To `ReadFile`: the bytes of the file, or why it could not be read.
    File(Result<Vec<u8>, String>),
    /// To `ListDir`: the entries of the directory.
    Dir(Listing),
    /// To `ReadLinks`: for each link in the directory where it leads, or why
    /// that could not be read; or why the directory could not be listed.
    Links(Result<Vec<Result<String, String>>, String>),
}

/// Where a link leads, as contracts speak of it.
pub open spec fn link_view(target: Result<String, String>) -> Result<Seq<char>, Seq<char>> {
    match target {
        Ok(path) => Ok(path@),
        Err(cause) => Err(cause@),
    }
}

/// Where the links of a directory lead, as contracts speak of it.
pub open spec fn links_view(links: Result<Vec<Result<String, String>>, String>) -> Result<
    Seq<Result<Seq<char>, Seq<char>>>,
    Seq<char>,
> {
    match links {
        Ok(targets) => Ok(targets@.map_values(|t: Result<String, String>| link_view(t))),
        Err(cause) => Err(cause@),
    }
}

/// A `Reply` as contracts speak of it.
pub enum ReplyView {
    Ran(Result<OutputView, Seq<char>>),
    Probed(ProbeView),
    File(Result<Seq<u8>, Seq<char>>),
    Dir(ListingView),
    Links(Result<Seq<Result<Seq<char>, Seq<char>>>, Seq<char>>),
}

impl View for Reply {
    type V = ReplyView;

    open spec fn view(&self) -> ReplyView {
        match self {
            Reply::Ran(ran) => ReplyView::Ran(ran_view(*ran)),
            Reply::Probed(probe) => ReplyView::Probed(probe@),
            Reply::File(read) => ReplyView::File(read_view(*read)),
            Reply::Dir(listing) => ReplyView::Dir(listing@),
            Reply::Links(links) => ReplyView::Links(links_view(*links)),
        }
    }
}

/// What a lookup has come to: a request to the system, or its end.
#[derive(Debug)]
pub enum Step {
    /// The lookup goes on when this was done.
    Ask(Request),
    /// The lookup has ended, with this process or this failure.
    Done(Result<pid_t, LookupError>),
}

/// A `Step` as contracts speak of it.
pub enum StepView {
    Ask(RequestView),
    Done(Result<pid_t, ErrorView>),
}

impl View for Step {
    type V = StepView;

    open spec fn view(&self) -> StepView {
        match self {
            Step::Ask(request) => StepView::Ask(request@),
            Step::Done(Ok(pid)) => StepView::Done(Ok(*pid)),
            Step::Done(Err(e)) => StepView::Done(Err(e@)),
        }
    }
}

/// A step of a search, with its failure, if it has ended in one, put in the
/// context `what`.
pub open spec fn framed_step(step: StepView, what: Seq<char>) -> StepView {
    match step {
        StepView::Done(Err(e)) => StepView::Done(Err(in_context(e, what))),
        _ => step,
    }
}

/// Puts the failure of a step, if it has ended in one, in the context
/// `what`.
pub fn frame_step(step: Step, what: &str) -> (framed: Step)
    ensures
        framed@ == framed_step(step@, what@),
{
    match step {
        Step::Done(Err(e)) => Step::Done(Err(e.context(what))),
        step => step,
    }
}

} // verus!
