use employee_directory::entities::app_role::Role;
use employee_directory::entities::employee::Model;
use employee_directory::error::DirectoryError;
use employee_directory::error::DirectoryError::{
    ConnectionFailure, ConstraintViolation, NotFound, QueryFailure,
};
use employee_directory::storage::{
    classify, deleted_or_missing, found_or_missing, role_or_invalid, translate,
    users_extended_statement,
    BrokenRule, DbErrKind, Failure, Stage, USERS_EXTENDED_SQL,
};
use sea_orm::{ConnAcquireErr, DatabaseBackend, DbErr, RuntimeErr, Values};

#[test]
fn statement_reads_the_view_in_key_order() {
    let statement = users_extended_statement();
    assert_eq!(statement.sql, USERS_EXTENDED_SQL);
    assert_eq!(statement.db_backend, DatabaseBackend::Postgres);
    assert_eq!(statement.values, Some(Values(vec![])));
    assert!(statement.sql.ends_with("FROM users_extended ORDER BY user_id"));
    assert!(statement.sql.starts_with("SELECT user_id, email, role_name, employee_id, employee_name"));
}

#[test]
fn error_while_connecting_is_a_connection_failure() {
    let errors = [
        DbErr::Conn(RuntimeErr::Internal("refused".to_string())),
        DbErr::Custom("anything".to_string()),
        DbErr::RecordNotFound("x".to_string()),
        DbErr::ConnectionAcquire(ConnAcquireErr::Timeout),
    ];
    for error in errors.iter() {
        assert_eq!(translate(Stage::Connect, error).kind, DirectoryError::ConnectionFailure);
    }
    let failure = translate(Stage::Connect, &errors[0]);
    assert_eq!(failure.message, "DB connection failed: Connection Error: refused");
}

#[test]
fn lost_connection_is_a_connection_failure_at_every_step() {
    for stage in [Stage::Query, Stage::Insert, Stage::Update, Stage::Delete] {
        let lost = DbErr::Conn(RuntimeErr::Internal("reset".to_string()));
        assert_eq!(translate(stage, &lost).kind, DirectoryError::ConnectionFailure);
        let busy = DbErr::ConnectionAcquire(ConnAcquireErr::ConnectionClosed);
        assert_eq!(translate(stage, &busy).kind, DirectoryError::ConnectionFailure);
    }
}

#[test]
fn missing_record_is_not_found() {
    let failure = translate(Stage::Update, &DbErr::RecordNotFound("employee 9".to_string()));
    assert_eq!(
        failure,
        Failure {
            kind: DirectoryError::NotFound,
            message: "Update failed: RecordNotFound Error: employee 9".to_string(),
        }
    );
    let failure = translate(Stage::Update, &DbErr::RecordNotUpdated);
    assert_eq!(
        failure,
        Failure {
            kind: DirectoryError::NotFound,
            message: "Update failed: None of the records are updated".to_string(),
        }
    );
}

#[test]
fn insert_that_stored_nothing_is_a_constraint_violation() {
    let failure = translate(Stage::Insert, &DbErr::RecordNotInserted);
    assert_eq!(
        failure,
        Failure {
            kind: DirectoryError::ConstraintViolation,
            message: "Insert failed: None of the records are inserted".to_string(),
        }
    );
}

#[test]
fn other_errors_are_query_failures() {
    let errors = [
        DbErr::Exec(RuntimeErr::Internal("syntax".to_string())),
        DbErr::Query(RuntimeErr::Internal("syntax".to_string())),
        DbErr::Custom("x".to_string()),
        DbErr::Type("x".to_string()),
        DbErr::Json("x".to_string()),
        DbErr::Migration("x".to_string()),
        DbErr::AttrNotSet("id".to_string()),
        DbErr::ConvertFromU64("i8"),
        DbErr::UnpackInsertId,
        DbErr::UpdateGetPrimaryKey,
    ];
    for error in errors.iter() {
        assert_eq!(translate(Stage::Query, error).kind, DirectoryError::QueryFailure);
        assert_eq!(translate(Stage::Delete, error).kind, DirectoryError::QueryFailure);
    }
    assert_eq!(
        translate(Stage::Query, &errors[1]).message,
        "Query failed: Query Error: syntax"
    );
    assert_eq!(
        translate(Stage::Delete, &errors[0]).message,
        "Delete failed: Execution Error: syntax"
    );
}

#[test]
fn classification_by_kind_and_rule() {
    assert_eq!(classify(Stage::Insert, DbErrKind::Exec, Some(BrokenRule::Unique)), ConstraintViolation);
    assert_eq!(classify(Stage::Insert, DbErrKind::Query, Some(BrokenRule::ForeignKey)), ConstraintViolation);
    assert_eq!(classify(Stage::Update, DbErrKind::Exec, Some(BrokenRule::Other)), QueryFailure);
    assert_eq!(classify(Stage::Update, DbErrKind::Exec, None), QueryFailure);
    assert_eq!(classify(Stage::Update, DbErrKind::Other, None), QueryFailure);
    assert_eq!(classify(Stage::Update, DbErrKind::RecordNotUpdated, None), NotFound);
    assert_eq!(classify(Stage::Query, DbErrKind::RecordNotFound, None), NotFound);
    assert_eq!(classify(Stage::Insert, DbErrKind::RecordNotInserted, None), ConstraintViolation);
    assert_eq!(classify(Stage::Delete, DbErrKind::Conn, Some(BrokenRule::Unique)), ConnectionFailure);
    assert_eq!(classify(Stage::Delete, DbErrKind::ConnectionAcquire, None), ConnectionFailure);
    assert_eq!(classify(Stage::Connect, DbErrKind::Exec, Some(BrokenRule::Unique)), ConnectionFailure);
    assert_eq!(classify(Stage::Connect, DbErrKind::RecordNotFound, None), ConnectionFailure);
}

#[test]
fn messages_open_with_the_step() {
    assert_eq!(Stage::Connect.message("x"), "DB connection failed: x");
    assert_eq!(Stage::Query.message("x"), "Query failed: x");
    assert_eq!(Stage::Insert.message("x"), "Insert failed: x");
    assert_eq!(Stage::Update.message("x"), "Update failed: x");
    assert_eq!(Stage::Delete.message(""), "Delete failed: ");
}

#[test]
fn lookup_that_found_nothing_is_not_found() {
    let row = Model { id: 3, first_name: None, last_name: None, email: None };
    assert_eq!(found_or_missing(Some(row.clone())), Ok(row));
    assert_eq!(
        found_or_missing(None),
        Err(Failure { kind: DirectoryError::NotFound, message: "Employee not found".to_string() })
    );
}

#[test]
fn delete_that_removed_nothing_is_not_found() {
    assert_eq!(deleted_or_missing(1), Ok(()));
    assert_eq!(deleted_or_missing(u64::MAX), Ok(()));
    assert_eq!(
        deleted_or_missing(0),
        Err(Failure { kind: DirectoryError::NotFound, message: "Employee not found".to_string() })
    );
}

#[test]
fn only_an_unreachable_storage_is_worth_a_retry() {
    assert!(DirectoryError::ConnectionFailure.is_retryable());
    assert!(!DirectoryError::QueryFailure.is_retryable());
    assert!(!DirectoryError::NotFound.is_retryable());
    assert!(!DirectoryError::ConstraintViolation.is_retryable());
    assert!(!DirectoryError::InvalidRole.is_retryable());
}

#[test]
fn unknown_role_is_invalid_before_any_write() {
    assert_eq!(role_or_invalid("ROLE_HR"), Ok(Role::Hr));
    assert_eq!(
        role_or_invalid("ROLE_KING"),
        Err(Failure { kind: DirectoryError::InvalidRole, message: "Unknown role: ROLE_KING".to_string() })
    );
    assert_eq!(
        role_or_invalid(""),
        Err(Failure { kind: DirectoryError::InvalidRole, message: "Unknown role: ".to_string() })
    );
}
