use blog_store::error::{affected, comment_insert_error, comment_update_error, from_storage};
use blog_store::error::{insert_error, purge_error, row_error, rows_or_empty, Error, Failure};
use diesel::result::DatabaseErrorKind;

#[test]
fn insert_failures_are_not_told_apart() {
    assert_eq!(insert_error(Failure::NotFound), Error::DatabaseError);
    assert_eq!(insert_error(Failure::ForeignKeyViolation), Error::DatabaseError);
    assert_eq!(insert_error(Failure::Other), Error::DatabaseError);
}

#[test]
fn comment_insert_tells_the_foreign_key_apart() {
    assert_eq!(comment_insert_error(Failure::ForeignKeyViolation), Error::ForeignKeyViolation);
    assert_eq!(comment_insert_error(Failure::NotFound), Error::DatabaseError);
    assert_eq!(comment_insert_error(Failure::Other), Error::DatabaseError);
}

#[test]
fn row_writes_tell_the_missing_row_apart() {
    assert_eq!(row_error(Failure::NotFound), Error::RecordNotFound);
    assert_eq!(row_error(Failure::ForeignKeyViolation), Error::DatabaseError);
    assert_eq!(row_error(Failure::Other), Error::DatabaseError);
}

#[test]
fn comment_update_tells_both_apart() {
    assert_eq!(comment_update_error(Failure::NotFound), Error::RecordNotFound);
    assert_eq!(comment_update_error(Failure::ForeignKeyViolation), Error::ForeignKeyViolation);
    assert_eq!(comment_update_error(Failure::Other), Error::DatabaseError);
}

#[test]
fn purge_never_reports_a_missing_record() {
    assert_eq!(purge_error(Failure::NotFound), Error::DatabaseError);
    assert_eq!(purge_error(Failure::ForeignKeyViolation), Error::DatabaseError);
    assert_eq!(purge_error(Failure::Other), Error::DatabaseError);
}

#[test]
fn no_row_changed_means_no_record() {
    assert_eq!(affected(Ok(0)), Err(Error::RecordNotFound));
    assert_eq!(affected(Ok(1)), Ok(1));
    assert_eq!(affected(Ok(3)), Ok(3));
    assert_eq!(affected(Err(Failure::NotFound)), Err(Error::RecordNotFound));
    assert_eq!(affected(Err(Failure::ForeignKeyViolation)), Err(Error::DatabaseError));
    assert_eq!(affected(Err(Failure::Other)), Err(Error::DatabaseError));
}

#[test]
fn failed_read_gives_no_rows() {
    assert_eq!(rows_or_empty(Ok(vec![1, 2, 3])), vec![1, 2, 3]);
    assert_eq!(rows_or_empty::<i32>(Ok(vec![])), Vec::<i32>::new());
    assert_eq!(rows_or_empty::<i32>(Err(Failure::Other)), Vec::<i32>::new());
    assert_eq!(rows_or_empty::<i32>(Err(Failure::NotFound)), Vec::<i32>::new());
}

#[test]
fn storage_errors_are_classified() {
    let ok: Result<i32, diesel::result::Error> = Ok(5);
    assert_eq!(from_storage(ok), Ok(5));
    let missing: Result<i32, diesel::result::Error> = Err(diesel::result::Error::NotFound);
    assert_eq!(from_storage(missing), Err(Failure::NotFound));
    let foreign: Result<i32, diesel::result::Error> = Err(diesel::result::Error::DatabaseError(
        DatabaseErrorKind::ForeignKeyViolation,
        Box::new(String::from("violates foreign key constraint")),
    ));
    assert_eq!(from_storage(foreign), Err(Failure::ForeignKeyViolation));
    let unique: Result<i32, diesel::result::Error> = Err(diesel::result::Error::DatabaseError(
        DatabaseErrorKind::UniqueViolation,
        Box::new(String::from("duplicate key")),
    ));
    assert_eq!(from_storage(unique), Err(Failure::Other));
    let closed: Result<i32, diesel::result::Error> = Err(diesel::result::Error::DatabaseError(
        DatabaseErrorKind::ClosedConnection,
        Box::new(String::from("server closed the connection")),
    ));
    assert_eq!(from_storage(closed), Err(Failure::Other));
    let rollback: Result<i32, diesel::result::Error> = Err(diesel::result::Error::RollbackTransaction);
    assert_eq!(from_storage(rollback), Err(Failure::Other));
}

#[test]
fn classified_errors_reach_the_taxonomy() {
    let missing: Result<i32, diesel::result::Error> = Err(diesel::result::Error::NotFound);
    assert_eq!(from_storage(missing).map_err(row_error), Err(Error::RecordNotFound));
    let foreign: Result<i32, diesel::result::Error> = Err(diesel::result::Error::DatabaseError(
        DatabaseErrorKind::ForeignKeyViolation,
        Box::new(String::from("violates foreign key constraint")),
    ));
    assert_eq!(from_storage(foreign).map_err(comment_insert_error), Err(Error::ForeignKeyViolation));
    let gone: Result<usize, diesel::result::Error> = Ok(0);
    assert_eq!(affected(from_storage(gone)), Err(Error::RecordNotFound));
}
