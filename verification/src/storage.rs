//! Storage layer: the typed completion of the two queries and the
//! connection-pool error type.
//!
//! The pool itself and the wire protocol live outside the library; they hand
//! over each query's answer as an optional row of cells, and the functions
//! here turn that answer into the storage operation's typed result.

use crate::model::{mapped_job, row_readable, row_state_ok, JobRow, NewPrintJob, PrintJob,
    PrintJobError};
use vstd::prelude::*;

verus! {

/// The state a freshly inserted job starts in.
pub const DEFAULT_START_STATE: i32 = 0;

/// A failure to establish the connection pool at startup; fatal for the process.
#[derive(Clone, Debug, PartialEq, Eq)]
pub enum DBError {
    ConnectionError(String),
}

impl DBError {
    /// The connection detail the error carries.
    pub fn to_string(&self) -> (r: String)
        ensures
            self matches DBError::ConnectionError(s) && r == s,
    {
        match self {
            DBError::ConnectionError(s) => s.clone(),
        }
    }
}

/// The three column values a creation request is inserted with: the job's
/// user, its file, and the fixed initial state.
pub fn insert_values(job: &NewPrintJob) -> (r: (i32, i32, i32))
    ensures
        r.0 == job.user_id,
        r.1 == job.file_id,
        r.2 == DEFAULT_START_STATE,
{
    (job.user_id, job.file_id, DEFAULT_START_STATE)
}

/// Completes a lookup by identifier: no row is a clean "not found", a row maps
/// through the entity conversion, and a mapping failure surfaces as the
/// storage error it is.
pub fn select_print_job_from_row(row: Option<JobRow>) -> (r: Result<
    Option<PrintJob>,
    PrintJobError,
>)
    ensures
        row is None ==> r matches Ok(None),
        row matches Some(jr) ==> ({
            &&& (r is Ok <==> row_readable(jr.cells@) && row_state_ok(jr.cells@))
            &&& row_readable(jr.cells@) && row_state_ok(jr.cells@) ==> (r matches Ok(Some(j))
                && j == mapped_job(jr.cells@))
            &&& row_readable(jr.cells@) && !row_state_ok(jr.cells@) ==> (r matches Err(
                PrintJobError::UnparseablePrintJob(_),
            ))
            &&& !row_readable(jr.cells@) ==> (r matches Err(PrintJobError::DatabaseError(_)))
        }),
{
    match row {
        None => Ok(None),
        Some(jr) => match PrintJob::try_from_row(&jr) {
            Ok(j) => Ok(Some(j)),
            Err(e) => Err(e),
        },
    }
}

/// Completes an insertion: the returned row maps to the created job; a missing
/// row means the insert failed and surfaces as a storage error.
pub fn create_print_job_from_row(row: Option<JobRow>) -> (r: Result<PrintJob, PrintJobError>)
    ensures
        row is None ==> r matches Err(PrintJobError::DatabaseError(_)),
        row matches Some(jr) ==> ({
            &&& (r is Ok <==> row_readable(jr.cells@) && row_state_ok(jr.cells@))
            &&& row_readable(jr.cells@) && row_state_ok(jr.cells@) ==> r is Ok && r->Ok_0
                == mapped_job(jr.cells@)
            &&& row_readable(jr.cells@) && !row_state_ok(jr.cells@) ==> (r matches Err(
                PrintJobError::UnparseablePrintJob(_),
            ))
            &&& !row_readable(jr.cells@) ==> (r matches Err(PrintJobError::DatabaseError(_)))
        }),
{
    match row {
        None => Err(PrintJobError::DatabaseError("insert returned no row".to_owned())),
        Some(jr) => PrintJob::try_from_row(&jr),
    }
}

} // verus!
