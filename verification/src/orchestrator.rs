//! Submission orchestrator: the per-request control flow as an explicit state
//! machine.
//!
//! A request is admitted (or denied) by the admission controller, then moves through the
//! machine one observed event at a time: the lookup's transport-level answer,
//! the decode of its success payload, and the storage insertion's result.
//! The driver outside the library performs the matching piece of I/O for each
//! non-terminal state and feeds the observation back through `step`; the
//! machine alone decides every branch.

use crate::admission::{enter_grants, free_after_enter, free_after_release};
use crate::model::{ManagementLookupResponse, PrintJob, PrintJobError};
use vstd::prelude::*;

verus! {

/// The status with which the lookup service authorizes a request.
pub const LOOKUP_OK: u16 = 200;

/// The status with which the lookup service reports an unknown resource.
pub const LOOKUP_NOT_FOUND: u16 = 404;

/// What the lookup call produced at the transport level.
#[derive(Clone, Debug, PartialEq, Eq)]
pub enum LookupReply {
    /// The call failed before any HTTP status was available; carries the
    /// transport detail for the logs.
    Failed(String),
    /// The service answered, with this HTTP status.
    Replied(u16),
}

/// A request's terminal outcome, ready to be answered.
#[derive(Clone, Debug, PartialEq, Eq)]
pub enum SubmissionOutcome {
    /// The job was authorized and persisted; answered with the created job.
    Accepted(PrintJob),
    /// Admission was denied; answered with a throttling notice.
    Throttled,
    /// The lookup reported no such resource; nothing was persisted.
    NotFound,
    /// The lookup answered with a status that is neither success nor
    /// not-found; nothing was persisted.
    Unexpected,
    /// A backend or storage failure, surfaced as a generic server failure.
    Failed(PrintJobError),
}

/// Where a request stands in the pipeline. Each non-terminal state names the
/// observation the machine is waiting for.
#[derive(Clone, Debug, PartialEq, Eq)]
pub enum SubmissionState {
    /// Admitted; the lookup call's answer is awaited.
    AwaitingLookup,
    /// The lookup answered with the success status; the payload decode is
    /// awaited.
    AwaitingDecode,
    /// The payload decoded; the storage insertion's result is awaited.
    AwaitingStorage,
    /// Terminal: the outcome to answer with.
    Responded(SubmissionOutcome),
}

/// One observation fed back into the machine.
#[derive(Debug)]
pub enum SubmissionEvent {
    /// The lookup call finished.
    LookupDone(LookupReply),
    /// The success payload was decoded, or failed to, with the decode detail.
    DecodeDone(Result<ManagementLookupResponse, String>),
    /// The storage insertion finished.
    StorageDone(Result<PrintJob, PrintJobError>),
}

impl SubmissionState {
    /// Which event the protocol can deliver in this state; a terminal state
    /// accepts none.
    pub open spec fn accepts(self, event: SubmissionEvent) -> bool {
        match self {
            SubmissionState::AwaitingLookup => event is LookupDone,
            SubmissionState::AwaitingDecode => event is DecodeDone,
            SubmissionState::AwaitingStorage => event is StorageDone,
            SubmissionState::Responded(_) => false,
        }
    }

    /// The transition table of the orchestrator.
    pub open spec fn spec_step(self, event: SubmissionEvent) -> SubmissionState
        recommends
            self.accepts(event),
    {
        match (self, event) {
            (
                SubmissionState::AwaitingLookup,
                SubmissionEvent::LookupDone(LookupReply::Failed(detail)),
            ) => SubmissionState::Responded(
                SubmissionOutcome::Failed(PrintJobError::BackendError(detail)),
            ),
            (
                SubmissionState::AwaitingLookup,
                SubmissionEvent::LookupDone(LookupReply::Replied(status)),
            ) => if status == LOOKUP_OK {
                SubmissionState::AwaitingDecode
            } else if status == LOOKUP_NOT_FOUND {
                SubmissionState::Responded(SubmissionOutcome::NotFound)
            } else {
                SubmissionState::Responded(SubmissionOutcome::Unexpected)
            },
            (SubmissionState::AwaitingDecode, SubmissionEvent::DecodeDone(Ok(_))) => {
                SubmissionState::AwaitingStorage
            },
            (SubmissionState::AwaitingDecode, SubmissionEvent::DecodeDone(Err(detail))) => {
                SubmissionState::Responded(
                    SubmissionOutcome::Failed(PrintJobError::BackendError(detail)),
                )
            },
            (SubmissionState::AwaitingStorage, SubmissionEvent::StorageDone(Ok(job))) => {
                SubmissionState::Responded(SubmissionOutcome::Accepted(job))
            },
            (SubmissionState::AwaitingStorage, SubmissionEvent::StorageDone(Err(e))) => {
                SubmissionState::Responded(SubmissionOutcome::Failed(e))
            },
            (s, _) => s,
        }
    }

    /// Enters the pipeline: an admitted request awaits the lookup; a denied
    /// one is answered with the throttling outcome at once, and no lookup is
    /// ever issued for it.
    pub fn begin(admitted: bool) -> (s: SubmissionState)
        ensures
            s == if admitted {
                SubmissionState::AwaitingLookup
            } else {
                SubmissionState::Responded(SubmissionOutcome::Throttled)
            },
    {
        if admitted {
            SubmissionState::AwaitingLookup
        } else {
            SubmissionState::Responded(SubmissionOutcome::Throttled)
        }
    }

    /// Advances the machine by one observed event, exactly as the transition
    /// table says.
    pub fn step(self, event: SubmissionEvent) -> (next: SubmissionState)
        requires
            self.accepts(event),
        ensures
            next == self.spec_step(event),
    {
        match (self, event) {
            (
                SubmissionState::AwaitingLookup,
                SubmissionEvent::LookupDone(LookupReply::Failed(detail)),
            ) => SubmissionState::Responded(
                SubmissionOutcome::Failed(PrintJobError::BackendError(detail)),
            ),
            (
                SubmissionState::AwaitingLookup,
                SubmissionEvent::LookupDone(LookupReply::Replied(status)),
            ) => {
                if status == LOOKUP_OK {
                    SubmissionState::AwaitingDecode
                } else if status == LOOKUP_NOT_FOUND {
                    SubmissionState::Responded(SubmissionOutcome::NotFound)
                } else {
                    SubmissionState::Responded(SubmissionOutcome::Unexpected)
                }
            },
            (SubmissionState::AwaitingDecode, SubmissionEvent::DecodeDone(Ok(_))) => {
                SubmissionState::AwaitingStorage
            },
            (SubmissionState::AwaitingDecode, SubmissionEvent::DecodeDone(Err(detail))) => {
                SubmissionState::Responded(
                    SubmissionOutcome::Failed(PrintJobError::BackendError(detail)),
                )
            },
            (SubmissionState::AwaitingStorage, SubmissionEvent::StorageDone(Ok(job))) => {
                SubmissionState::Responded(SubmissionOutcome::Accepted(job))
            },
            (SubmissionState::AwaitingStorage, SubmissionEvent::StorageDone(Err(e))) => {
                SubmissionState::Responded(SubmissionOutcome::Failed(e))
            },
            (s, _) => s,
        }
    }
}

impl SubmissionOutcome {
    /// The HTTP status each terminal outcome is answered with.
    pub open spec fn spec_status(self) -> u16 {
        match self {
            SubmissionOutcome::Accepted(_) => 200,
            SubmissionOutcome::Throttled => 429,
            SubmissionOutcome::NotFound => 404,
            SubmissionOutcome::Unexpected => 500,
            SubmissionOutcome::Failed(_) => 500,
        }
    }

    /// The HTTP status to answer with.
    pub fn status_code(&self) -> (r: u16)
        ensures
            r == self.spec_status(),
    {
        match self {
            SubmissionOutcome::Accepted(_) => 200,
            SubmissionOutcome::Throttled => 429,
            SubmissionOutcome::NotFound => 404,
            SubmissionOutcome::Unexpected => 500,
            SubmissionOutcome::Failed(_) => 500,
        }
    }
}

/// The liveness probe's unconditional success status.
pub fn health_probe_status() -> (r: u16)
    ensures
        r == 200,
{
    200
}

/// Persistence only after authorization (law): the machine reaches the state
/// that awaits storage only through a successful decode, and the state that
/// awaits the decode only through a lookup reply with the success status; on
/// a not-found or unexpected status, a transport failure or a decode failure,
/// the request is answered without any storage step.
pub proof fn lemma_storage_only_after_success(s: SubmissionState, e: SubmissionEvent)
    requires
        s.accepts(e),
    ensures
        s.spec_step(e) is AwaitingStorage ==> (s is AwaitingDecode && e matches
            SubmissionEvent::DecodeDone(Ok(_))),
        s.spec_step(e) is AwaitingDecode ==> (s is AwaitingLookup && (e matches
            SubmissionEvent::LookupDone(LookupReply::Replied(st)) && st == LOOKUP_OK)),
{
}

/// Permit release on every path (law): a denied attempt leaves the
/// controller's free count unchanged, and a granted permit is handed back when the request
/// reaches its terminal state, whichever of the terminal outcomes that is; so
/// handling one request never changes the number of available units.
pub proof fn lemma_permit_release_balance(available: int, terminal: SubmissionState)
    requires
        terminal is Responded,
    ensures
        enter_grants(available) ==> free_after_release(free_after_enter(available)) == available,
        !enter_grants(available) ==> free_after_enter(available) == available,
{
}

} // verus!
