//! The failures that the service reports, with the text and the HTTP status of each.

use std::sync::Arc;

use vstd::prelude::*;
use vstd::string::*;
use vstd::std_specs::cmp::PartialEqSpecImpl;

use crate::task_id::{task_id_text, uuid_hyphenated, TaskId};

verus! {

/// HTTP status 200.
pub const STATUS_OK: u16 = 200;

/// HTTP status 202.
pub const STATUS_ACCEPTED: u16 = 202;

/// HTTP status 400.
pub const STATUS_BAD_REQUEST: u16 = 400;

/// HTTP status 404.
pub const STATUS_NOT_FOUND: u16 = 404;

/// HTTP status 500.
pub const STATUS_INTERNAL_SERVER_ERROR: u16 = 500;

/// Why the execution of a proof job failed.
#[derive(Debug)]
pub enum ProvingError {
    /// The proving engine reported a failure; the payload is the engine's report.
    ProvingFailed(String),
    /// The journal of the receipt is not the program's public output.
    JournalDecodingFailed,
    /// The receipt could not be written out as a proof record.
    SerializationFailed,
}

/// A [`ProvingError`] with its text as a sequence of characters.
pub enum ProvingErrorView {
    ProvingFailed(Seq<char>),
    JournalDecodingFailed,
    SerializationFailed,
}

impl View for ProvingError {
    type V = ProvingErrorView;

    open spec fn view(&self) -> ProvingErrorView {
        match self {
            ProvingError::ProvingFailed(report) => ProvingErrorView::ProvingFailed(report@),
            ProvingError::JournalDecodingFailed => ProvingErrorView::JournalDecodingFailed,
            ProvingError::SerializationFailed => ProvingErrorView::SerializationFailed,
        }
    }
}

impl ProvingErrorView {
    /// The text shown for this failure.
    pub open spec fn message(self) -> Seq<char> {
        match self {
            ProvingErrorView::ProvingFailed(report) => "Proof generation failed: "@ + report,
            ProvingErrorView::JournalDecodingFailed => "Proof output could not be deserialized."@,
            ProvingErrorView::SerializationFailed => "Proof could not be serialized."@,
        }
    }
}

impl ProvingError {
    /// The text shown for this failure.
    pub fn message(&self) -> (text: String)
        ensures
            text@ == self@.message(),
    {
        match self {
            ProvingError::ProvingFailed(report) => {
                String::from_str("Proof generation failed: ").concat(report.as_str())
            },
            ProvingError::JournalDecodingFailed => {
                String::from_str("Proof output could not be deserialized.")
            },
            ProvingError::SerializationFailed => String::from_str("Proof could not be serialized."),
        }
    }
}

impl Clone for ProvingError {
    fn clone(&self) -> (copy: Self)
        ensures
            copy@ == self@,
    {
        match self {
            ProvingError::ProvingFailed(report) => ProvingError::ProvingFailed(report.clone()),
            ProvingError::JournalDecodingFailed => ProvingError::JournalDecodingFailed,
            ProvingError::SerializationFailed => ProvingError::SerializationFailed,
        }
    }
}

impl PartialEq for ProvingError {
    fn eq(&self, other: &Self) -> (same: bool) {
        match (self, other) {
            (ProvingError::ProvingFailed(a), ProvingError::ProvingFailed(b)) => *a == *b,
            (ProvingError::JournalDecodingFailed, ProvingError::JournalDecodingFailed) => true,
            (ProvingError::SerializationFailed, ProvingError::SerializationFailed) => true,
            _ => false,
        }
    }
}

impl PartialEqSpecImpl for ProvingError {
    open spec fn obeys_eq_spec() -> bool {
        true
    }

    open spec fn eq_spec(&self, other: &Self) -> bool {
        self@ == other@
    }
}

/// What a request handler reports instead of a result.
#[derive(Debug)]
pub enum AppError {
    /// A finished task holds no result.
    MissingResult,
    /// The proof job of the task failed.
    ProofGenerationFailed(Arc<ProvingError>),
    /// No task with this identifier was ever submitted.
    UnknownTask(TaskId),
    /// The task has not finished yet.
    TaskNotCompleted,
    /// The proof record of a claim cannot be read.
    ProofDecodingFailed,
    /// The output that a claim states is not the output that its proof record holds.
    NonMatchingEPDInfo,
    /// The proof record holds the claimed output, but its seal does not verify.
    InvalidProof,
    /// The request body is not what the program expects; the payload says why.
    InvalidRequestData(String),
}

/// An [`AppError`] with its texts as sequences of characters.
pub enum AppErrorView {
    MissingResult,
    ProofGenerationFailed(ProvingErrorView),
    UnknownTask(TaskId),
    TaskNotCompleted,
    ProofDecodingFailed,
    NonMatchingEPDInfo,
    InvalidProof,
    InvalidRequestData(Seq<char>),
}

impl View for AppError {
    type V = AppErrorView;

    open spec fn view(&self) -> AppErrorView {
        match self {
            AppError::MissingResult => AppErrorView::MissingResult,
            AppError::ProofGenerationFailed(cause) => AppErrorView::ProofGenerationFailed(cause@),
            AppError::UnknownTask(id) => AppErrorView::UnknownTask(*id),
            AppError::TaskNotCompleted => AppErrorView::TaskNotCompleted,
            AppError::ProofDecodingFailed => AppErrorView::ProofDecodingFailed,
            AppError::NonMatchingEPDInfo => AppErrorView::NonMatchingEPDInfo,
            AppError::InvalidProof => AppErrorView::InvalidProof,
            AppError::InvalidRequestData(reason) => AppErrorView::InvalidRequestData(reason@),
        }
    }
}

impl AppErrorView {
    /// The HTTP status under which this failure is reported.
    ///
    /// The three outcomes of a verification that found the claim wanting (a proof
    /// record that cannot be read, an output that does not match, a seal that does
    /// not verify) are reported under status 200: they are answers, not faults.
    pub open spec fn status_code(self) -> u16 {
        match self {
            AppErrorView::MissingResult => STATUS_INTERNAL_SERVER_ERROR,
            AppErrorView::ProofGenerationFailed(_) => STATUS_INTERNAL_SERVER_ERROR,
            AppErrorView::UnknownTask(_) => STATUS_NOT_FOUND,
            AppErrorView::TaskNotCompleted => STATUS_BAD_REQUEST,
            AppErrorView::ProofDecodingFailed => STATUS_OK,
            AppErrorView::NonMatchingEPDInfo => STATUS_OK,
            AppErrorView::InvalidProof => STATUS_OK,
            AppErrorView::InvalidRequestData(_) => STATUS_BAD_REQUEST,
        }
    }

    /// The text shown for this failure.
    pub open spec fn message(self) -> Seq<char> {
        match self {
            AppErrorView::MissingResult => "No Result available"@,
            AppErrorView::ProofGenerationFailed(cause) => cause.message(),
            AppErrorView::UnknownTask(id) => "Unknown Task: "@ + uuid_hyphenated(id),
            AppErrorView::TaskNotCompleted => "Task is not complete"@,
            AppErrorView::ProofDecodingFailed => "Unable to decode Zero Knowledge Proof"@,
            AppErrorView::NonMatchingEPDInfo => "EPD information does not match proof commitments!"@,
            AppErrorView::InvalidProof => "Proof could not be verified!"@,
            AppErrorView::InvalidRequestData(_) => "Invalid Request data!"@,
        }
    }

    /// Whether this failure is the answer of a verification rather than a fault.
    pub open spec fn is_verification_outcome(self) -> bool {
        self is ProofDecodingFailed || self is NonMatchingEPDInfo || self is InvalidProof
    }
}

impl AppError {
    /// The HTTP status under which this failure is reported.
    pub fn status_code(&self) -> (code: u16)
        ensures
            code == self@.status_code(),
    {
        match self {
            AppError::MissingResult => STATUS_INTERNAL_SERVER_ERROR,
            AppError::ProofGenerationFailed(_) => STATUS_INTERNAL_SERVER_ERROR,
            AppError::UnknownTask(_) => STATUS_NOT_FOUND,
            AppError::TaskNotCompleted => STATUS_BAD_REQUEST,
            AppError::ProofDecodingFailed => STATUS_OK,
            AppError::NonMatchingEPDInfo => STATUS_OK,
            AppError::InvalidProof => STATUS_OK,
            AppError::InvalidRequestData(_) => STATUS_BAD_REQUEST,
        }
    }

    /// The text shown for this failure.
    pub fn message(&self) -> (text: String)
        ensures
            text@ == self@.message(),
    {
        match self {
            AppError::MissingResult => String::from_str("No Result available"),
            AppError::ProofGenerationFailed(cause) => cause.message(),
            AppError::UnknownTask(id) => {
                let shown = task_id_text(*id);
                String::from_str("Unknown Task: ").concat(shown.as_str())
            },
            AppError::TaskNotCompleted => String::from_str("Task is not complete"),
            AppError::ProofDecodingFailed => {
                String::from_str("Unable to decode Zero Knowledge Proof")
            },
            AppError::NonMatchingEPDInfo => {
                String::from_str("EPD information does not match proof commitments!")
            },
            AppError::InvalidProof => String::from_str("Proof could not be verified!"),
            AppError::InvalidRequestData(_) => String::from_str("Invalid Request data!"),
        }
    }

    /// Whether this failure is the answer of a verification rather than a fault:
    /// exactly the failures reported under status 200.
    pub fn is_verification_outcome(&self) -> (yes: bool)
        ensures
            yes == self@.is_verification_outcome(),
            yes == (self@.status_code() == STATUS_OK),
    {
        match self {
            AppError::ProofDecodingFailed => true,
            AppError::NonMatchingEPDInfo => true,
            AppError::InvalidProof => true,
            _ => false,
        }
    }

    /// Wraps the failure of a proof job.
    pub fn from_proving(cause: ProvingError) -> (wrapped: AppError)
        ensures
            wrapped@ == AppErrorView::ProofGenerationFailed(cause@),
    {
        AppError::ProofGenerationFailed(Arc::new(cause))
    }
}

impl Clone for AppError {
    fn clone(&self) -> (copy: Self)
        ensures
            copy@ == self@,
    {
        match self {
            AppError::MissingResult => AppError::MissingResult,
            AppError::ProofGenerationFailed(cause) => {
                let inner: &ProvingError = &**cause;
                AppError::ProofGenerationFailed(Arc::new(inner.clone()))
            },
            AppError::UnknownTask(id) => AppError::UnknownTask(*id),
            AppError::TaskNotCompleted => AppError::TaskNotCompleted,
            AppError::ProofDecodingFailed => AppError::ProofDecodingFailed,
            AppError::NonMatchingEPDInfo => AppError::NonMatchingEPDInfo,
            AppError::InvalidProof => AppError::InvalidProof,
            AppError::InvalidRequestData(reason) => AppError::InvalidRequestData(reason.clone()),
        }
    }
}

impl PartialEq for AppError {
    fn eq(&self, other: &Self) -> (same: bool) {
        match (self, other) {
            (AppError::MissingResult, AppError::MissingResult) => true,
            (AppError::ProofGenerationFailed(a), AppError::ProofGenerationFailed(b)) => {
                let left: &ProvingError = &**a;
                let right: &ProvingError = &**b;
                *left == *right
            },
            (AppError::UnknownTask(a), AppError::UnknownTask(b)) => *a == *b,
            (AppError::TaskNotCompleted, AppError::TaskNotCompleted) => true,
            (AppError::ProofDecodingFailed, AppError::ProofDecodingFailed) => true,
            (AppError::NonMatchingEPDInfo, AppError::NonMatchingEPDInfo) => true,
            (AppError::InvalidProof, AppError::InvalidProof) => true,
            (AppError::InvalidRequestData(a), AppError::InvalidRequestData(b)) => *a == *b,
            _ => false,
        }
    }
}

impl PartialEqSpecImpl for AppError {
    open spec fn obeys_eq_spec() -> bool {
        true
    }

    open spec fn eq_spec(&self, other: &Self) -> bool {
        self@ == other@
    }
}

impl vstd::std_specs::convert::FromSpecImpl<ProvingError> for AppError {
    open spec fn obeys_from_spec() -> bool {
        true
    }

    open spec fn from_spec(cause: ProvingError) -> AppError {
        AppError::ProofGenerationFailed(Arc::new(cause))
    }
}

impl From<ProvingError> for AppError {
    fn from(cause: ProvingError) -> (wrapped: AppError) {
        AppError::ProofGenerationFailed(Arc::new(cause))
    }
}

} // verus!
