use sqlite_vacuum::AppError;

#[test]
fn not_directory_message() {
    let e = AppError::not_directory("data", "/tmp/data");
    assert_eq!(e.message(), "Not a directory `/tmp/data`");
}

#[test]
fn directory_access_message() {
    let e = AppError::directory_access("permission denied", "/root/secret");
    assert_eq!(
        e.message(),
        "Error accessing directory `/root/secret`: permission denied"
    );
}

#[test]
fn file_access_message() {
    let e = AppError::io_error("unexpected end of file", "a.db");
    assert_eq!(e.message(), "Error accessing file `a.db`: unexpected end of file");
}

#[test]
fn database_open_message() {
    let e = AppError::db_open_error("unable to open database file", "c.sqlite");
    assert_eq!(
        e.message(),
        "Error opening `c.sqlite`: unable to open database file"
    );
}

#[test]
fn vacuum_message() {
    let e = AppError::db_vacuum_error("database is locked", "busy.db");
    assert_eq!(e.message(), "Error vacuuming `busy.db`: database is locked");
}
