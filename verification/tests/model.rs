use print_jobs::model::{JobRow, NewPrintJob, PrintJob, PrintJobError};

fn row(cells: Vec<Option<i32>>) -> JobRow {
    JobRow { cells }
}

#[test]
fn validation_rejects_negative_file_id() {
    let job = NewPrintJob { user_id: 1, file_id: -1 };
    assert!(job.validate().is_err());
}

#[test]
fn validation_rejects_file_id_above_bound() {
    let job = NewPrintJob { user_id: 1, file_id: 1001 };
    assert!(job.validate().is_err());
}

#[test]
fn validation_accepts_boundary_file_ids() {
    let low = NewPrintJob { user_id: 1, file_id: 0 };
    let high = NewPrintJob { user_id: 1, file_id: 1000 };
    let middle = NewPrintJob { user_id: 7, file_id: 3 };
    assert!(low.validate().is_ok());
    assert!(high.validate().is_ok());
    assert!(middle.validate().is_ok());
}

#[test]
fn mapping_recovers_the_stored_job() {
    let stored = PrintJob { job_id: 11, user_id: 7, file_id: 3, state: 42 };
    let r = row(vec![
        Some(stored.job_id),
        Some(stored.user_id),
        Some(stored.file_id),
        Some(stored.state),
    ]);
    let fetched = PrintJob::try_from_row(&r).unwrap();
    assert_eq!(fetched, stored);
}

#[test]
fn mapping_accepts_state_at_the_bound() {
    let r = row(vec![Some(1), Some(2), Some(3), Some(60)]);
    let job = PrintJob::try_from_row(&r).unwrap();
    assert_eq!(job.state, 60);
}

#[test]
fn mapping_rejects_state_above_the_bound() {
    let r = row(vec![Some(1), Some(2), Some(3), Some(61)]);
    let e = PrintJob::try_from_row(&r).unwrap_err();
    assert!(matches!(e, PrintJobError::UnparseablePrintJob(_)));
}

#[test]
fn mapping_rejects_a_short_row() {
    let r = row(vec![Some(1), Some(2), Some(3)]);
    let e = PrintJob::try_from_row(&r).unwrap_err();
    assert!(matches!(e, PrintJobError::DatabaseError(_)));
}

#[test]
fn mapping_rejects_an_unreadable_cell() {
    let r = row(vec![Some(1), None, Some(3), Some(0)]);
    let e = PrintJob::try_from_row(&r).unwrap_err();
    assert!(matches!(e, PrintJobError::DatabaseError(_)));
}
