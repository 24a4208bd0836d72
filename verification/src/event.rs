//! The events the surrounding program reports back after performing the
//! actions the pipeline asks for.

use vstd::prelude::*;

verus! {

/// The outcome of one requested operation.
pub enum Event {
    /// The operation completed successfully.
    Completed,
    /// The operation could not be carried out; carries the OS diagnostic.
    IoFailed(String),
    /// The external tool ran but exited unsuccessfully.
    ToolFailed,
    /// Which of the three template candidate paths exist, in probe order.
    PathsChecked(bool, bool, bool),
    /// Whether the destination path already exists.
    DestinationChecked(bool),
}

/// The view of an optional string.
pub open spec fn opt_view(o: Option<String>) -> Option<Seq<char>> {
    match o {
        Some(s) => Some(s@),
        None => None,
    }
}

/// The diagnostic text an operation event carries; empty for the others.
pub open spec fn event_diag(ev: Event) -> Seq<char> {
    match ev {
        Event::IoFailed(e) => e@,
        _ => Seq::empty(),
    }
}

/// An event that reports the outcome of an operation, as opposed to a probe
/// answer.
pub open spec fn is_op_event(ev: Event) -> bool {
    ev is Completed || ev is IoFailed || ev is ToolFailed
}

} // verus!
