//! What a directory walk hands out, and what is decided for each entry.

use crate::matcher::{whitelisted, ExtensionMatcher};
use vstd::prelude::*;

verus! {

/// What the walk is to do after an entry was handled.
#[derive(Debug, Clone, Copy, PartialEq, Eq)]
pub enum WalkState {
    /// Go on with the next entry.
    Continue,
    /// Hand out no further entry.
    Quit,
}

/// The type of a directory entry, as far as it matters here.
#[derive(Debug, Clone, Copy, PartialEq, Eq)]
pub enum EntryKind {
    /// A regular file.
    File,
    /// A directory.
    Directory,
    /// Anything else, such as a symbolic link that is not followed.
    Other,
}

/// One entry that the walk found.
#[derive(Debug)]
pub struct WalkEntry {
    /// The path of the entry.
    pub path: String,
    /// The type of the entry, where it could be resolved.
    pub kind: Option<EntryKind>,
    /// The error that the walk attached to the entry, if any.
    pub error: Option<String>,
}

/// What the walk hands out: an entry, or the reason why it could not read
/// one.
#[derive(Debug)]
pub enum WalkEvent {
    Found(WalkEntry),
    Unreadable(String),
}

/// What is to be done about an event of the walk.
#[derive(Debug)]
pub enum Decision {
    /// Nothing: the entry is no file to convert.
    Skip,
    /// Count an error, report the message and end the walk.
    Abort(String),
    /// Convert the file at this path.
    Convert(String),
}

/// A `Decision` as text.
pub enum DecisionView {
    Skip,
    Abort(Seq<char>),
    Convert(Seq<char>),
}

impl View for Decision {
    type V = DecisionView;

    open spec fn view(&self) -> DecisionView {
        match *self {
            Decision::Skip => DecisionView::Skip,
            Decision::Abort(message) => DecisionView::Abort(message@),
            Decision::Convert(path) => DecisionView::Convert(path@),
        }
    }
}

/// The decision for an entry: an entry with an error attached aborts the
/// walk; a regular file that the matcher accepts is converted; a directory,
/// an entry of another or of no resolved type, and a file that the matcher
/// does not accept are passed over.
pub open spec fn entry_decision(matcher: ExtensionMatcher, entry: WalkEntry) -> DecisionView {
    match entry.error {
        Some(message) => DecisionView::Abort(message@),
        None => if entry.kind == Some(EntryKind::File) && matcher.accepts(entry.path@) {
            DecisionView::Convert(entry.path@)
        } else {
            DecisionView::Skip
        },
    }
}

/// The decision for an event: an entry that could not be read aborts the
/// walk; an entry is decided by `entry_decision`.
pub open spec fn event_decision(matcher: ExtensionMatcher, event: WalkEvent) -> DecisionView {
    match event {
        WalkEvent::Unreadable(message) => DecisionView::Abort(message@),
        WalkEvent::Found(entry) => entry_decision(matcher, entry),
    }
}

/// Decides what is to be done about an entry.
pub fn decide_entry(matcher: &ExtensionMatcher, entry: WalkEntry) -> (decision: Decision)
    ensures
        decision@ == entry_decision(*matcher, entry),
{
    match entry.error {
        Some(message) => Decision::Abort(message),
        None => {
            let is_file = match entry.kind {
                Some(EntryKind::File) => true,
                _ => false,
            };
            if is_file && whitelisted(&matcher.types, entry.path.as_str()) {
                Decision::Convert(entry.path)
            } else {
                Decision::Skip
            }
        },
    }
}

/// Decides what is to be done about an event of the walk.
pub fn decide(matcher: &ExtensionMatcher, event: WalkEvent) -> (decision: Decision)
    ensures
        decision@ == event_decision(*matcher, event),
{
    match event {
        WalkEvent::Unreadable(message) => Decision::Abort(message),
        WalkEvent::Found(entry) => decide_entry(matcher, entry),
    }
}

} // verus!
