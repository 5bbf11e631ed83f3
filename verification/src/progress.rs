//! The `setup-progress` events shown on the loading page.
use vstd::prelude::*;

verus! {

/// One progress event: which setup step (`bun` or `hub`), its status
/// (`running`, `done` or `error`) and a message.
pub struct SetupProgress {
    pub step: String,
    pub status: String,
    pub message: String,
}

/// The view of a progress event.
pub struct ProgressView {
    pub step: Seq<char>,
    pub status: Seq<char>,
    pub message: Seq<char>,
}

impl View for SetupProgress {
    type V = ProgressView;

    open spec fn view(&self) -> ProgressView {
        ProgressView { step: self.step@, status: self.status@, message: self.message@ }
    }
}

/// The event with the given step, status and message.
pub open spec fn progress(step: Seq<char>, status: Seq<char>, message: Seq<char>) -> ProgressView {
    ProgressView { step, status, message }
}

/// The view of an optional progress event.
pub open spec fn opt_progress_view(p: Option<SetupProgress>) -> Option<ProgressView> {
    match p {
        Some(e) => Some(e@),
        None => None,
    }
}

impl SetupProgress {
    /// The event with the given step, status and message.
    pub fn new(step: &str, status: &str, message: &str) -> (r: SetupProgress)
        ensures
            r@ == progress(step@, status@, message@),
    {
        SetupProgress {
            step: String::from_str(step),
            status: String::from_str(status),
            message: String::from_str(message),
        }
    }
}

} // verus!
