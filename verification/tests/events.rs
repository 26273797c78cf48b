use sqlite_vacuum::events::aggregate;
use sqlite_vacuum::events::RunTotals;
use sqlite_vacuum::events::StatusEvent;
use sqlite_vacuum::pool::worker_count;
use sqlite_vacuum::pool::worker_event;
use sqlite_vacuum::AppError;
use sqlite_vacuum::SQLiteFile;
use sqlite_vacuum::VacuumResult;

fn progress(path: &str, delta: i128) -> StatusEvent {
    StatusEvent::Progress {
        path: String::from(path),
        delta,
    }
}

fn classify_error(filename: &str) -> StatusEvent {
    StatusEvent::Error(AppError::io_error("permission denied", filename))
}

#[test]
fn totals_sum_progress_deltas_only() {
    let mut totals = RunTotals::new();
    totals.apply(&progress("a.db", 500));
    totals.apply(&classify_error("b.db"));
    totals.apply(&progress("c.db", -200));
    totals.apply(&StatusEvent::ErrorMsg(String::from("scan failed")));
    totals.apply(&progress("d.db", 1));
    assert_eq!(totals.total(), 301);
    assert_eq!(totals.count(), 5);
}

#[test]
fn totals_start_at_zero() {
    let totals = RunTotals::new();
    assert_eq!(totals.total(), 0);
    assert_eq!(totals.count(), 0);
}

#[test]
fn total_is_independent_of_completion_order() {
    // The same outcomes, as one worker would report them ...
    let one_worker = vec![
        progress("a.db", 500),
        progress("b.db", -100),
        classify_error("c.db"),
        progress("d.db", 250),
    ];
    // ... and interleaved as several workers might finish them.
    let many_workers = vec![
        progress("d.db", 250),
        classify_error("c.db"),
        progress("a.db", 500),
        progress("b.db", -100),
    ];
    let total_one = aggregate(&one_worker).total();
    let total_many = aggregate(&many_workers).total();
    assert_eq!(total_one, 650);
    assert_eq!(total_one, total_many);
}

#[test]
fn worker_event_reports_success_with_the_exact_delta() {
    let result = VacuumResult::new(SQLiteFile::new("root/a.db"), 2000, 1500);
    assert_eq!(result.delta(), 500);
    match worker_event(Ok(result)) {
        StatusEvent::Progress { path, delta } => {
            assert_eq!(path, "root/a.db");
            assert_eq!(delta, 500);
        }
        _ => panic!("expected a progress event"),
    }
}

#[test]
fn worker_event_reports_a_grown_file_as_negative() {
    let result = VacuumResult::new(SQLiteFile::new("grew.db"), 1000, 1250);
    match worker_event(Ok(result)) {
        StatusEvent::Progress { delta, .. } => assert_eq!(delta, -250),
        _ => panic!("expected a progress event"),
    }
}

#[test]
fn worker_event_passes_errors_through() {
    let err = AppError::db_open_error("file is not a database", "c.sqlite");
    match worker_event(Err(err)) {
        StatusEvent::Error(AppError::DatabaseOpen { source, filename }) => {
            assert_eq!(source, "file is not a database");
            assert_eq!(filename, "c.sqlite");
        }
        _ => panic!("expected a database-open error event"),
    }
}

#[test]
fn worker_count_is_at_least_one() {
    assert!(worker_count() >= 1);
}
