//! What examining one entry of a directory of processes leads to.

use vstd::prelude::*;
use libc::pid_t;
use crate::error::{ErrorView, LookupError};

verus! {

/// The outcome of examining one process while looking for a container.
#[derive(Debug)]
pub enum Verdict {
    /// The process is not the one: go on with the next.
    Continue,
    /// The process is the one.
    Found(pid_t),
    /// The search cannot go on.
    Failed(LookupError),
}

/// A `Verdict` as contracts speak of it.
pub enum VerdictView {
    Continue,
    Found(pid_t),
    Failed(ErrorView),
}

impl View for Verdict {
    type V = VerdictView;

    open spec fn view(&self) -> VerdictView {
        match self {
            Verdict::Continue => VerdictView::Continue,
            Verdict::Found(pid) => VerdictView::Found(*pid),
            Verdict::Failed(e) => VerdictView::Failed(e@),
        }
    }
}

} // verus!
