//! What is answered to a request: the status and the body, before anything is put
//! on the wire.

use vstd::prelude::*;

use crate::error::{AppError, AppErrorView, STATUS_ACCEPTED, STATUS_OK};
use crate::task_id::{task_id_text, uuid_hyphenated, TaskId};
use crate::tasks::TaskStatus;

verus! {

/// The answer to a verification.
#[derive(Debug)]
pub struct VerificationResponse {
    /// Whether the claim is accepted.
    pub verified: bool,
    /// Why it is not.
    pub error: Option<String>,
}

/// A [`VerificationResponse`] with its text as a sequence of characters.
pub struct VerificationResponseView {
    pub verified: bool,
    pub error: Option<Seq<char>>,
}

impl View for VerificationResponse {
    type V = VerificationResponseView;

    open spec fn view(&self) -> VerificationResponseView {
        VerificationResponseView {
            verified: self.verified,
            error: match self.error {
                Some(reason) => Some(reason@),
                None => None,
            },
        }
    }
}

/// The body of an answer.
#[derive(Debug)]
pub enum ResponseBody {
    /// The answer to a verification, sent as JSON.
    Verification(VerificationResponse),
    /// Plain text.
    Text(String),
}

/// A [`ResponseBody`] with its texts as sequences of characters.
pub enum ResponseBodyView {
    Verification(VerificationResponseView),
    Text(Seq<char>),
}

impl View for ResponseBody {
    type V = ResponseBodyView;

    open spec fn view(&self) -> ResponseBodyView {
        match self {
            ResponseBody::Verification(answer) => ResponseBodyView::Verification(answer@),
            ResponseBody::Text(text) => ResponseBodyView::Text(text@),
        }
    }
}

/// An answer: its HTTP status and its body.
#[derive(Debug)]
pub struct Answer {
    pub status: u16,
    pub body: ResponseBody,
}

/// The answer that reports a failure: a refused claim is answered under status 200
/// with `verified: false` and the reason; every other failure under its own status,
/// with its text.
pub open spec fn failure_answer(failure: AppErrorView) -> (u16, ResponseBodyView) {
    if failure.status_code() == STATUS_OK {
        (
            STATUS_OK,
            ResponseBodyView::Verification(
                VerificationResponseView { verified: false, error: Some(failure.message()) },
            ),
        )
    } else {
        (failure.status_code(), ResponseBodyView::Text(failure.message()))
    }
}

/// The answer that a verification ends in. A claim that was accepted is answered
/// under status 200 with `verified: true`, a failure as [`failure_answer`] says.
pub open spec fn verdict_answer(verdict: Result<(), AppError>) -> (u16, ResponseBodyView) {
    match verdict {
        Ok(()) => (
            STATUS_OK,
            ResponseBodyView::Verification(VerificationResponseView { verified: true, error: None }),
        ),
        Err(failure) => failure_answer(failure@),
    }
}

impl AppError {
    /// The answer that reports this failure.
    pub fn into_response(self) -> (answer: Answer)
        ensures
            (answer.status, answer.body@) == failure_answer(self@),
    {
        let status = self.status_code();
        if status == STATUS_OK {
            Answer {
                status,
                body: ResponseBody::Verification(
                    VerificationResponse { verified: false, error: Some(self.message()) },
                ),
            }
        } else {
            Answer { status, body: ResponseBody::Text(self.message()) }
        }
    }
}

/// The answer that a verification ends in.
pub fn post_verify_epd(verdict: Result<(), AppError>) -> (answer: Answer)
    ensures
        (answer.status, answer.body@) == verdict_answer(verdict),
        answer.body@ matches ResponseBodyView::Verification(told) && told.verified ==> verdict
            is Ok,
{
    match verdict {
        Ok(()) => Answer {
            status: STATUS_OK,
            body: ResponseBody::Verification(VerificationResponse { verified: true, error: None }),
        },
        Err(failure) => failure.into_response(),
    }
}

/// Where a task stands, as it is reported.
#[derive(Debug)]
pub struct EPDTaskStatus<R> {
    pub id: TaskId,
    pub state: TaskStatus<R>,
}

/// The report of a task, ready to be put on the wire.
#[derive(Debug)]
pub struct TaskReport {
    /// The HTTP status.
    pub status: u16,
    /// The identifier of the task, as UUID text.
    pub id: String,
    /// The name of the task's status.
    pub state: &'static str,
}

impl<R> EPDTaskStatus<R> {
    /// The report of a task that has just been submitted.
    pub fn submitted(id: TaskId) -> (report: Self)
        ensures
            report.id == id,
            report.state is Submitted,
    {
        EPDTaskStatus { id, state: TaskStatus::Submitted }
    }

    /// The report as it is answered: status 202 for a task that has only been
    /// submitted and 200 afterwards, with the identifier and the name of the status.
    pub fn into_response(self) -> (report: TaskReport)
        ensures
            report.status == if self.state is Submitted {
                STATUS_ACCEPTED
            } else {
                STATUS_OK
            },
            report.id@ == uuid_hyphenated(self.id),
            report.state@ == self.state.name(),
    {
        TaskReport {
            status: self.state.status_code(),
            id: task_id_text(self.id),
            state: self.state.state_name(),
        }
    }
}

} // verus!
