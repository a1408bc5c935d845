//! The meeting point with the relational storage: the statement that
//! reads the joined view, and the translation of the storage's errors
//! into the directory's own failures.

use crate::entities::app_role::{role_of_name, Role};
use crate::entities::employee::Model as EmployeeModel;
use crate::error::DirectoryError;
use sea_orm::{DatabaseBackend, DbErr, SqlErr, Statement};
use vstd::prelude::*;
use vstd::string::StringExecFns;

verus! {

/// `sea_orm::DbErr`, the error of the storage. Its contents are not
/// visible to the proofs: a value of it is only carried through.
#[verifier::external_type_specification]
#[verifier::external_body]
pub struct ExDbErr(sea_orm::DbErr);

/// `sea_orm::Statement`, a statement ready to be sent to the storage.
/// Its contents are not visible to the proofs: a value of it is only
/// carried through.
#[verifier::external_type_specification]
#[verifier::external_body]
pub struct ExStatement(sea_orm::Statement);

/// The query behind the joined view. The order is part of the query, so
/// that the rows come back in ascending order of `user_id` whatever was
/// written before.
pub const USERS_EXTENDED_SQL: &'static str =
    "SELECT user_id, email, role_name, employee_id, employee_name FROM users_extended ORDER BY user_id";

/// The statement that `sea_orm::Statement::from_sql_and_values` builds
/// for the PostgreSQL backend from the text `sql` and no parameter values.
pub uninterp spec fn postgres_statement(sql: Seq<char>) -> Statement;

/// Calls `sea_orm::Statement::from_sql_and_values` with the PostgreSQL
/// backend, the given text and an empty list of values. The contract
/// claims only that the statement built is a function of the text alone.
#[verifier::external_body]
fn statement_from_sql(sql: &str) -> (statement: Statement)
    ensures
        statement == postgres_statement(sql@),
{
    Statement::from_sql_and_values(DatabaseBackend::Postgres, sql, [])
}

/// The statement that reads the joined view: [`USERS_EXTENDED_SQL`] for
/// the PostgreSQL backend, without parameters.
pub fn users_extended_statement() -> (statement: Statement)
    ensures
        statement == postgres_statement(USERS_EXTENDED_SQL@),
{
    statement_from_sql(USERS_EXTENDED_SQL)
}

/// The kinds of error of the storage that the directory tells apart:
/// the variants of `sea_orm::DbErr` that bear on which failure is
/// reported, and one kind for all the others.
#[derive(Clone, Copy, Debug, PartialEq, Eq, Structural)]
pub enum DbErrKind {
    /// No connection could be had from the pool.
    ConnectionAcquire,
    /// The connection itself failed.
    Conn,
    /// A statement did not execute.
    Exec,
    /// A query failed.
    Query,
    /// The record was not found.
    RecordNotFound,
    /// An insert stored no record.
    RecordNotInserted,
    /// An update matched no record.
    RecordNotUpdated,
    /// Any other variant.
    Other,
}

/// The rule of the schema that a refused statement would have broken.
#[derive(Clone, Copy, Debug, PartialEq, Eq, Structural)]
pub enum BrokenRule {
    /// A value would occur twice in a unique column.
    Unique,
    /// A reference would point at no row.
    ForeignKey,
    /// Some other rule that the storage tells apart.
    Other,
}

/// The step of an operation at which the storage reported an error.
#[derive(Clone, Copy, Debug, PartialEq, Eq, Structural)]
pub enum Stage {
    Connect,
    Query,
    Insert,
    Update,
    Delete,
}

/// The kind of an error of the storage: which variant of `sea_orm::DbErr`
/// the error is.
pub uninterp spec fn kind_of_error(error: DbErr) -> DbErrKind;

/// The rule that an error of the storage says was broken: what
/// `sea_orm::DbErr::sql_err` reads from the error.
pub uninterp spec fn rule_of_error(error: DbErr) -> Option<BrokenRule>;

/// Tells the variants of `sea_orm::DbErr` apart: one kind for each
/// variant that has a kind of its own, `Other` for the rest. The contract
/// claims only that the kind is a function of the error alone.
#[verifier::external_body]
fn db_err_kind(error: &DbErr) -> (kind: DbErrKind)
    ensures
        kind == kind_of_error(*error),
{
    match error {
        DbErr::ConnectionAcquire(_) => DbErrKind::ConnectionAcquire,
        DbErr::Conn(_) => DbErrKind::Conn,
        DbErr::Exec(_) => DbErrKind::Exec,
        DbErr::Query(_) => DbErrKind::Query,
        DbErr::RecordNotFound(_) => DbErrKind::RecordNotFound,
        DbErr::RecordNotInserted => DbErrKind::RecordNotInserted,
        DbErr::RecordNotUpdated => DbErrKind::RecordNotUpdated,
        _ => DbErrKind::Other,
    }
}

/// Calls `sea_orm::DbErr::sql_err`, which reads the code that the storage
/// put into the error, and tells the variants of the `SqlErr` it returns
/// apart. The contract claims only that the rule is a function of the
/// error alone.
#[verifier::external_body]
fn db_err_broken_rule(error: &DbErr) -> (rule: Option<BrokenRule>)
    ensures
        rule == rule_of_error(*error),
{
    match error.sql_err() {
        Some(SqlErr::UniqueConstraintViolation(_)) => Some(BrokenRule::Unique),
        Some(SqlErr::ForeignKeyConstraintViolation(_)) => Some(BrokenRule::ForeignKey),
        Some(_) => Some(BrokenRule::Other),
        None => None,
    }
}

/// The text under which `sea_orm::DbErr` displays itself. Nothing is
/// claimed of the result: the words may come from the storage or from
/// the machine.
#[verifier::external_body]
fn db_err_text(error: &DbErr) -> (text: String) {
    error.to_string()
}

/// The failure that an error of the storage amounts to.
///
/// An error while connecting is a `ConnectionFailure`, whatever its kind.
/// After that, an error of the connection or its pool is a
/// `ConnectionFailure`; a record that was not found or not updated is
/// `NotFound`; a broken unique or foreign-key rule, and an insert that
/// stored nothing, is a `ConstraintViolation`; everything else is a
/// `QueryFailure`.
pub open spec fn failure_of(stage: Stage, kind: DbErrKind, rule: Option<BrokenRule>) -> DirectoryError {
    if stage == Stage::Connect || kind == DbErrKind::ConnectionAcquire || kind == DbErrKind::Conn {
        DirectoryError::ConnectionFailure
    } else if kind == DbErrKind::RecordNotFound || kind == DbErrKind::RecordNotUpdated {
        DirectoryError::NotFound
    } else if rule == Some(BrokenRule::Unique) || rule == Some(BrokenRule::ForeignKey) || kind
        == DbErrKind::RecordNotInserted {
        DirectoryError::ConstraintViolation
    } else {
        DirectoryError::QueryFailure
    }
}

/// The failure that an error of the storage amounts to, from its kind
/// and the rule it broke.
pub fn classify(stage: Stage, kind: DbErrKind, rule: Option<BrokenRule>) -> (failure: DirectoryError)
    ensures
        failure == failure_of(stage, kind, rule),
{
    if stage == Stage::Connect {
        return DirectoryError::ConnectionFailure;
    }
    match kind {
        DbErrKind::ConnectionAcquire | DbErrKind::Conn => DirectoryError::ConnectionFailure,
        DbErrKind::RecordNotFound | DbErrKind::RecordNotUpdated => DirectoryError::NotFound,
        DbErrKind::RecordNotInserted => DirectoryError::ConstraintViolation,
        _ => match rule {
            Some(BrokenRule::Unique) | Some(BrokenRule::ForeignKey) => {
                DirectoryError::ConstraintViolation
            },
            _ => DirectoryError::QueryFailure,
        },
    }
}

impl Stage {
    /// The words that open the message of a failure at this step.
    pub open spec fn prefix(self) -> Seq<char> {
        match self {
            Stage::Connect => "DB connection failed: "@,
            Stage::Query => "Query failed: "@,
            Stage::Insert => "Insert failed: "@,
            Stage::Update => "Update failed: "@,
            Stage::Delete => "Delete failed: "@,
        }
    }

    /// The message of a failure at this step: the step's opening words,
    /// then the storage's own words.
    pub fn message(&self, detail: &str) -> (message: String)
        ensures
            message@ == self.prefix() + detail@,
    {
        let opening = match self {
            Stage::Connect => "DB connection failed: ",
            Stage::Query => "Query failed: ",
            Stage::Insert => "Insert failed: ",
            Stage::Update => "Update failed: ",
            Stage::Delete => "Delete failed: ",
        };
        opening.to_owned().concat(detail)
    }
}

/// A failure with the words that describe it to a person.
#[derive(Debug, PartialEq, Eq)]
pub struct Failure {
    pub kind: DirectoryError,
    pub message: String,
}

/// Translates an error of the storage, reported at the step `stage`,
/// into the directory's failure. The kind of failure is what
/// [`failure_of`] gives for the step, the kind of the error and the rule
/// it broke. The message opens with the step's words; what follows them
/// is the storage's own text, of which nothing is stated.
pub fn translate(stage: Stage, error: &DbErr) -> (failure: Failure)
    ensures
        failure.kind == failure_of(stage, kind_of_error(*error), rule_of_error(*error)),
        stage.prefix().is_prefix_of(failure.message@),
{
    let kind = classify(stage, db_err_kind(error), db_err_broken_rule(error));
    let detail = db_err_text(error);
    let message = stage.message(detail.as_str());
    Failure { kind, message }
}

/// What the storage's answer to a lookup by key amounts to: the row
/// where it found one, `NotFound` where it found none. An update goes
/// no further on `NotFound`, so that no row is written for a key that
/// does not exist.
pub fn found_or_missing(found: Option<EmployeeModel>) -> (outcome: Result<EmployeeModel, Failure>)
    ensures
        match found {
            Some(row) => outcome == Ok::<EmployeeModel, Failure>(row),
            None => outcome matches Err(failure) && failure.kind == DirectoryError::NotFound
                && failure.message@ == "Employee not found"@,
        },
{
    match found {
        Some(row) => Ok(row),
        None => Err(
            Failure { kind: DirectoryError::NotFound, message: "Employee not found".to_owned() },
        ),
    }
}

/// What the storage's answer to a delete by key amounts to: a delete
/// that removed no row is `NotFound`, any other is a success.
pub fn deleted_or_missing(rows_affected: u64) -> (outcome: Result<(), Failure>)
    ensures
        rows_affected > 0 ==> outcome is Ok,
        rows_affected == 0 ==> (outcome matches Err(failure) && failure.kind
            == DirectoryError::NotFound && failure.message@ == "Employee not found"@),
{
    if rows_affected == 0 {
        Err(Failure { kind: DirectoryError::NotFound, message: "Employee not found".to_owned() })
    } else {
        Ok(())
    }
}

/// Resolves a role name before anything is written: the role where the
/// name is one of the known set, `InvalidRole` with the name in its
/// message otherwise.
pub fn role_or_invalid(role_name: &str) -> (outcome: Result<Role, Failure>)
    ensures
        match role_of_name(role_name@) {
            Some(role) => outcome == Ok::<Role, Failure>(role),
            None => outcome matches Err(failure) && failure.kind == DirectoryError::InvalidRole
                && failure.message@ == "Unknown role: "@ + role_name@,
        },
{
    match Role::from_name(role_name) {
        Some(role) => Ok(role),
        None => Err(
            Failure {
                kind: DirectoryError::InvalidRole,
                message: "Unknown role: ".to_owned().concat(role_name),
            },
        ),
    }
}

} // verus!
