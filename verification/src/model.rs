//! Entity layer: the job entity, its creation request, the validation rule,
//! the fallible row-to-entity mapping, and the shared error taxonomy.

use vstd::prelude::*;

verus! {

/// Largest `file_id` an inbound creation request may carry; the smallest is 0.
pub const MAX_FILE_ID: i32 = 1000;

/// Highest `state` code under which a stored row still maps to a valid job.
pub const MAX_JOB_STATE: i32 = 60;

/// An inbound request to create a print job.
#[derive(Clone, Copy, Debug, PartialEq, Eq, Structural)]
pub struct NewPrintJob {
    pub user_id: i32,
    pub file_id: i32,
}

/// A persisted print job, read back from storage.
#[derive(Clone, Copy, Debug, PartialEq, Eq, Structural)]
pub struct PrintJob {
    pub job_id: i32,
    pub user_id: i32,
    pub file_id: i32,
    pub state: i32,
}

/// The error taxonomy shared by storage, mapping and orchestration.
/// Every variant is terminal for the request that hit it; none is retried.
#[derive(Clone, Debug, PartialEq, Eq)]
pub enum PrintJobError {
    /// A stored row violates the job-state invariant: corrupt data, not caller error.
    UnparseablePrintJob(String),
    /// A pool, query or column-read failure, surfaced as one generic storage failure.
    DatabaseError(String),
    /// The external lookup was unreachable, malformed, or answered unexpectedly.
    BackendError(String),
}

/// Rejection of an inbound request whose fields lie outside their allowed range.
#[derive(Clone, Copy, Debug, PartialEq, Eq, Structural)]
pub struct ValidationError;

impl NewPrintJob {
    /// A creation request is valid when its file identifier lies in `[0, MAX_FILE_ID]`.
    pub open spec fn spec_valid(self) -> bool {
        0 <= self.file_id <= MAX_FILE_ID
    }

    /// Checks the field-range rule; fails exactly when `file_id` is out of range.
    pub fn validate(&self) -> (r: Result<(), ValidationError>)
        ensures
            r is Ok <==> self.spec_valid(),
    {
        if 0 <= self.file_id && self.file_id <= MAX_FILE_ID {
            Ok(())
        } else {
            Err(ValidationError)
        }
    }
}

/// A stored row as the driver hands it over: one cell per column, in column
/// order, `None` where the cell cannot be read as an integer.
#[derive(Clone, Debug)]
pub struct JobRow {
    pub cells: Vec<Option<i32>>,
}

/// A row is readable when it has the four job columns and each reads as an integer.
pub open spec fn row_readable(cells: Seq<Option<i32>>) -> bool {
    &&& cells.len() >= 4
    &&& cells[0] is Some
    &&& cells[1] is Some
    &&& cells[2] is Some
    &&& cells[3] is Some
}

/// The state column of a readable row respects the job-state invariant.
pub open spec fn row_state_ok(cells: Seq<Option<i32>>) -> bool
    recommends
        row_readable(cells),
{
    cells[3]->Some_0 <= MAX_JOB_STATE
}

/// The job a readable row stands for.
pub open spec fn mapped_job(cells: Seq<Option<i32>>) -> PrintJob
    recommends
        row_readable(cells),
{
    PrintJob {
        job_id: cells[0]->Some_0,
        user_id: cells[1]->Some_0,
        file_id: cells[2]->Some_0,
        state: cells[3]->Some_0,
    }
}

/// The four-column row a job is stored as.
pub open spec fn row_of_job(j: PrintJob) -> Seq<Option<i32>> {
    seq![Some(j.job_id), Some(j.user_id), Some(j.file_id), Some(j.state)]
}

impl PrintJob {
    /// Maps a stored row to a job. Succeeds exactly on readable rows whose
    /// state respects the invariant; an unreadable cell is a storage-level
    /// failure, a state above the bound marks the row as corrupt.
    pub fn try_from_row(row: &JobRow) -> (r: Result<PrintJob, PrintJobError>)
        ensures
            r is Ok <==> row_readable(row.cells@) && row_state_ok(row.cells@),
            r is Ok ==> r->Ok_0 == mapped_job(row.cells@),
            row_readable(row.cells@) && !row_state_ok(row.cells@)
                ==> r matches Err(PrintJobError::UnparseablePrintJob(_)),
            !row_readable(row.cells@) ==> r matches Err(PrintJobError::DatabaseError(_)),
    {
        if row.cells.len() < 4 {
            return Err(PrintJobError::DatabaseError("row is missing a job column".to_owned()));
        }
        let job_id: i32 = match row.cells[0] {
            Some(v) => v,
            None => {
                return Err(PrintJobError::DatabaseError("job id column unreadable".to_owned()));
            },
        };
        let user_id: i32 = match row.cells[1] {
            Some(v) => v,
            None => {
                return Err(PrintJobError::DatabaseError("user id column unreadable".to_owned()));
            },
        };
        let file_id: i32 = match row.cells[2] {
            Some(v) => v,
            None => {
                return Err(PrintJobError::DatabaseError("file id column unreadable".to_owned()));
            },
        };
        let state: i32 = match row.cells[3] {
            Some(v) => v,
            None => {
                return Err(PrintJobError::DatabaseError("state column unreadable".to_owned()));
            },
        };
        if state > MAX_JOB_STATE {
            return Err(PrintJobError::UnparseablePrintJob("job state out of range".to_owned()));
        }
        Ok(PrintJob { job_id, user_id, file_id, state })
    }
}

/// Row mapping round-trip (law): a job that respects the state invariant,
/// written out as its four-column row and mapped back, is recovered field for
/// field.
pub proof fn lemma_row_round_trip(j: PrintJob)
    requires
        j.state <= MAX_JOB_STATE,
    ensures
        row_readable(row_of_job(j)),
        row_state_ok(row_of_job(j)),
        mapped_job(row_of_job(j)) == j,
{
}

/// The answer the lookup service gives for an authorized creation request.
#[derive(Clone, Debug)]
pub struct ManagementLookupResponse {
    pub url: String,
    pub printer_id: i32,
    pub auth_result: i32,
}

} // verus!
