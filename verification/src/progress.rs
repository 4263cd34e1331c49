//! Progress reporting as data.
//!
//! The protocol never calls a UI. Each transition instead returns the notes
//! that a progress sink should render, so the decision logic stays fully
//! decoupled from observability and the notes themselves are part of the
//! verified contract.

use vstd::prelude::*;

verus! {

/// The fixed labels that the connection protocol reports.
#[derive(Clone, Copy, Debug, PartialEq, Eq, Structural)]
pub enum ProgressLabel {
    /// Operator discovery has started.
    CheckingOperator,
    /// Discovery yielded a channel pair.
    ConnectedToOperator,
    /// Discovery succeeded but found no operator deployed.
    NoOperatorDetected,
    /// Discovery failed.
    UnableToConnectToOperator,
}

impl ProgressLabel {
    /// The text a progress sink renders for this label.
    pub fn text(&self) -> (r: &'static str)
        ensures
            *self is CheckingOperator ==> r@ == "Checking Operator"@,
            *self is ConnectedToOperator ==> r@ == "Connected to Operator"@,
            *self is NoOperatorDetected ==> r@ == "No Operator Detected"@,
            *self is UnableToConnectToOperator ==> r@ == "Unable to connect to Operator"@,
    {
        match self {
            ProgressLabel::CheckingOperator => "Checking Operator",
            ProgressLabel::ConnectedToOperator => "Connected to Operator",
            ProgressLabel::NoOperatorDetected => "No Operator Detected",
            ProgressLabel::UnableToConnectToOperator => "Unable to connect to Operator",
        }
    }
}

/// One instruction to the progress sink.
#[derive(Debug, PartialEq, Eq)]
pub enum ProgressNote {
    /// Open a labeled subtask.
    SubtaskStarted { label: ProgressLabel },
    /// Close the current subtask as done, with a terminal annotation.
    SubtaskDone { label: ProgressLabel },
    /// Close the current subtask as failed, with a terminal annotation.
    SubtaskFailed { label: ProgressLabel },
    /// Log the message at warning level.
    Warning { message: String },
}

} // verus!
