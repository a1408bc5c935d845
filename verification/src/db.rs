//! The records that cross the directory's boundary and the operations
//! that callers invoke on it.

use crate::entities::app_role::{role_of_name, Role};
use crate::entities::employee::EmployeeRow;
use crate::entities::employee::Model as EmployeeModel;
use crate::entities::users::Model as UserModel;
use crate::entities::users::UserRow;
use crate::error::DirectoryError;
use crate::store::{employee_rows, extended_rows, Directory};
use crate::tables::{ascending_by_user_id, Tables};
use crate::text::{copy_text, text_of};
use vstd::prelude::*;

verus! {

/// An employee as callers see it: a copy of the stored row.
#[derive(Debug, PartialEq, Eq)]
pub struct Employee {
    pub id: i32,
    pub first_name: Option<String>,
    pub last_name: Option<String>,
    pub email: Option<String>,
}

impl View for Employee {
    type V = EmployeeRow;

    open spec fn view(&self) -> EmployeeRow {
        EmployeeRow {
            id: self.id,
            first_name: text_of(self.first_name),
            last_name: text_of(self.last_name),
            email: text_of(self.email),
        }
    }
}

impl Clone for Employee {
    fn clone(&self) -> (copy: Self)
        ensures
            copy == *self,
    {
        Employee {
            id: self.id,
            first_name: copy_text(&self.first_name),
            last_name: copy_text(&self.last_name),
            email: copy_text(&self.email),
        }
    }
}

impl From<EmployeeModel> for Employee {
    /// The record that stands for a stored row: every column is carried
    /// over unchanged.
    fn from(m: EmployeeModel) -> (employee: Employee) {
        Employee { id: m.id, first_name: m.first_name, last_name: m.last_name, email: m.email }
    }
}

impl vstd::std_specs::convert::FromSpecImpl<EmployeeModel> for Employee {
    open spec fn obeys_from_spec() -> bool {
        true
    }

    open spec fn from_spec(m: EmployeeModel) -> Employee {
        Employee { id: m.id, first_name: m.first_name, last_name: m.last_name, email: m.email }
    }
}

/// A user as callers see it: its key, its email and the name of its role.
#[derive(Debug, PartialEq, Eq)]
pub struct User {
    pub id: i32,
    pub email: String,
    pub role_name: String,
}

/// The mathematical value of a [`User`].
pub struct UserView {
    pub id: i32,
    pub email: Seq<char>,
    pub role_name: Seq<char>,
}

impl View for User {
    type V = UserView;

    open spec fn view(&self) -> UserView {
        UserView { id: self.id, email: self.email@, role_name: self.role_name@ }
    }
}

impl Clone for User {
    fn clone(&self) -> (copy: Self)
        ensures
            copy == *self,
    {
        User { id: self.id, email: self.email.clone(), role_name: self.role_name.clone() }
    }
}

/// One row of the joined view of users, their roles and their employees.
/// It is computed on every read and never stored.
#[derive(Debug, PartialEq, Eq)]
pub struct UserExtended {
    pub user_id: i32,
    pub email: String,
    pub role_name: String,
    pub employee_id: Option<i32>,
    /// The linked employee's name; `None` where the user has no employee.
    pub employee_name: Option<String>,
}

/// The mathematical value of a [`UserExtended`].
pub struct UserExtendedRow {
    pub user_id: i32,
    pub email: Seq<char>,
    pub role_name: Seq<char>,
    pub employee_id: Option<i32>,
    pub employee_name: Option<Seq<char>>,
}

impl View for UserExtended {
    type V = UserExtendedRow;

    open spec fn view(&self) -> UserExtendedRow {
        UserExtendedRow {
            user_id: self.user_id,
            email: self.email@,
            role_name: self.role_name@,
            employee_id: self.employee_id,
            employee_name: text_of(self.employee_name),
        }
    }
}

impl Clone for UserExtended {
    fn clone(&self) -> (copy: Self)
        ensures
            copy == *self,
    {
        UserExtended {
            user_id: self.user_id,
            email: self.email.clone(),
            role_name: self.role_name.clone(),
            employee_id: self.employee_id,
            employee_name: copy_text(&self.employee_name),
        }
    }
}

/// The employees of a list as mathematical values.
pub open spec fn employee_views(list: Seq<Employee>) -> Seq<EmployeeRow> {
    Seq::new(list.len(), |i: int| list[i]@)
}

/// The mathematical value of what an employee operation hands to callers.
pub open spec fn employee_result(outcome: Result<Employee, DirectoryError>) -> Result<
    EmployeeRow,
    DirectoryError,
> {
    match outcome {
        Ok(employee) => Ok(employee@),
        Err(e) => Err(e),
    }
}

/// The mathematical value of what a user operation hands to callers.
pub open spec fn user_result(outcome: Result<User, DirectoryError>) -> Result<
    UserView,
    DirectoryError,
> {
    match outcome {
        Ok(user) => Ok(user@),
        Err(e) => Err(e),
    }
}

/// A stored user as callers see it, `role` being the role of the row.
pub open spec fn user_of_row(row: UserRow, role: Role) -> UserView {
    UserView { id: row.id, email: row.email, role_name: role.label() }
}

/// What creating a user returns. The role name is resolved first: an
/// unknown name is `InvalidRole`, whatever else holds. A new user has an
/// empty password hash, no time of creation and no employee.
pub open spec fn create_user_outcome(tables: Tables, email: Seq<char>, role_name: Seq<char>) -> Result<
    UserView,
    DirectoryError,
> {
    match role_of_name(role_name) {
        None => Err(DirectoryError::InvalidRole),
        Some(role) => match tables.insert_user_outcome(
            email,
            Seq::empty(),
            role.number(),
            None,
            None,
        ) {
            Ok(row) => Ok(user_of_row(row, role)),
            Err(e) => Err(e),
        },
    }
}

/// The tables after creating a user: nothing is written for an unknown
/// role name.
pub open spec fn after_create_user(tables: Tables, email: Seq<char>, role_name: Seq<char>) -> Tables {
    match role_of_name(role_name) {
        None => tables,
        Some(role) => tables.after_insert_user(email, Seq::empty(), role.number(), None, None),
    }
}

/// What updating a user returns. The role name is resolved first: an
/// unknown name is `InvalidRole`, even for a user that does not exist.
pub open spec fn update_user_outcome(
    tables: Tables,
    id: i32,
    email: Seq<char>,
    role_name: Seq<char>,
) -> Result<UserView, DirectoryError> {
    match role_of_name(role_name) {
        None => Err(DirectoryError::InvalidRole),
        Some(role) => match tables.update_user_outcome(id, email, role.number()) {
            Ok(row) => Ok(user_of_row(row, role)),
            Err(e) => Err(e),
        },
    }
}

/// The tables after updating a user: nothing is written for an unknown
/// role name.
pub open spec fn after_update_user(
    tables: Tables,
    id: i32,
    email: Seq<char>,
    role_name: Seq<char>,
) -> Tables {
    match role_of_name(role_name) {
        None => tables,
        Some(role) => tables.after_update_user(id, email, role.number()),
    }
}

/// Lists all employees, in ascending order of their key. An empty table
/// gives an empty list, which is a success like any other.
pub fn get_employees_server(db: &Directory) -> (outcome: Result<Vec<Employee>, DirectoryError>)
    ensures
        db@.wf(),
        outcome matches Ok(list) && list@.len() == db@.employees.len() && employee_views(list@)
            == db@.employees,
{
    let rows = db.find_employees();
    let mut list: Vec<Employee> = Vec::new();
    let mut i: usize = 0;
    while i < rows.len()
        invariant
            i <= rows.len(),
            list@.len() == i,
            forall|k: int| 0 <= k < i ==> (#[trigger] list@[k])@ == rows@[k]@,
        decreases rows.len() - i,
    {
        list.push(Employee::from(rows[i].clone()));
        i += 1;
    }
    assert(employee_views(list@) =~= employee_rows(rows@));
    Ok(list)
}

/// Creates an employee from the three fields as they were entered. Each
/// is stored as it is, an empty string too: none of them becomes null.
///
/// Fails with `ConstraintViolation` where another employee holds the
/// same email, and with `QueryFailure` where the table has no key left;
/// then nothing is written.
pub fn create_employee(
    db: &mut Directory,
    first_name: String,
    last_name: String,
    email: String,
) -> (outcome: Result<Employee, DirectoryError>)
    ensures
        old(db)@.wf(),
        final(db)@.wf(),
        final(db)@ == old(db)@.after_insert_employee(
            Some(first_name@),
            Some(last_name@),
            Some(email@),
        ),
        employee_result(outcome) == old(db)@.insert_employee_outcome(
            Some(first_name@),
            Some(last_name@),
            Some(email@),
        ),
{
    match db.insert_employee(Some(first_name), Some(last_name), Some(email)) {
        Ok(row) => Ok(Employee::from(row)),
        Err(e) => Err(e),
    }
}

/// Replaces the three fields of the employee `id` and returns the record
/// as it is stored afterwards.
///
/// Fails with `NotFound` where there is no such employee, and with
/// `ConstraintViolation` where another employee holds the new email;
/// then nothing is written, and in particular no row is created.
pub fn update_employee(
    db: &mut Directory,
    id: i32,
    first_name: String,
    last_name: String,
    email: String,
) -> (outcome: Result<Employee, DirectoryError>)
    ensures
        old(db)@.wf(),
        final(db)@.wf(),
        final(db)@ == old(db)@.after_update_employee(
            id,
            Some(first_name@),
            Some(last_name@),
            Some(email@),
        ),
        employee_result(outcome) == old(db)@.update_employee_outcome(
            id,
            Some(first_name@),
            Some(last_name@),
            Some(email@),
        ),
{
    match db.update_employee(id, Some(first_name), Some(last_name), Some(email)) {
        Ok(row) => Ok(Employee::from(row)),
        Err(e) => Err(e),
    }
}

/// Deletes the employee `id`. A user that pointed at it stays, with its
/// reference cleared.
///
/// Fails with `NotFound` where there is no such employee; then nothing
/// is written.
pub fn delete_employee(db: &mut Directory, id: i32) -> (outcome: Result<(), DirectoryError>)
    ensures
        old(db)@.wf(),
        final(db)@.wf(),
        final(db)@ == old(db)@.after_delete_employee(id),
        outcome == old(db)@.delete_employee_outcome(id),
{
    db.delete_employee(id)
}

/// Lists the joined view of users, roles and employees in ascending
/// order of `user_id`. Nothing is written.
pub fn get_users_extended_server(db: &Directory) -> (outcome: Result<
    Vec<UserExtended>,
    DirectoryError,
>)
    ensures
        db@.wf(),
        outcome matches Ok(rows) && rows@.len() == db@.users.len() && extended_rows(rows@)
            == db@.users_extended() && ascending_by_user_id(extended_rows(rows@)),
{
    Ok(db.users_extended())
}

/// The user record that stands for a stored row whose role is `role`:
/// the row's key and email, and the role's name.
pub fn user_from_row(row: UserModel, role: Role) -> (user: User)
    ensures
        user@ == user_of_row(row@, role),
{
    User { id: row.id, email: row.email, role_name: role.name() }
}

/// Creates a user with the given email and the role that `role_name`
/// names.
///
/// Fails with `InvalidRole` where the name is not one of the known roles,
/// before anything else is looked at; with `ConstraintViolation` where
/// another user holds the same email; and with `QueryFailure` where the
/// table has no key left. Whenever it fails, nothing is written.
pub fn create_user(db: &mut Directory, email: String, role_name: String) -> (outcome: Result<
    User,
    DirectoryError,
>)
    ensures
        old(db)@.wf(),
        final(db)@.wf(),
        final(db)@ == after_create_user(old(db)@, email@, role_name@),
        user_result(outcome) == create_user_outcome(old(db)@, email@, role_name@),
{
    let role = match Role::from_name(role_name.as_str()) {
        Some(role) => role,
        None => {
            proof {
                use_type_invariant(&*db);
            }
            return Err(DirectoryError::InvalidRole);
        },
    };
    match db.insert_user(email, String::new(), role.id(), None, None) {
        Ok(row) => Ok(user_from_row(row, role)),
        Err(e) => Err(e),
    }
}

/// Gives the user `id` a new email and the role that `role_name` names.
///
/// Fails with `InvalidRole` where the name is not one of the known roles,
/// before anything else is looked at; with `NotFound` where there is no
/// such user; and with `ConstraintViolation` where another user holds
/// the new email. Whenever it fails, nothing is written.
pub fn update_user(db: &mut Directory, id: i32, email: String, role_name: String) -> (outcome:
    Result<User, DirectoryError>)
    ensures
        old(db)@.wf(),
        final(db)@.wf(),
        final(db)@ == after_update_user(old(db)@, id, email@, role_name@),
        user_result(outcome) == update_user_outcome(old(db)@, id, email@, role_name@),
{
    let role = match Role::from_name(role_name.as_str()) {
        Some(role) => role,
        None => {
            proof {
                use_type_invariant(&*db);
            }
            return Err(DirectoryError::InvalidRole);
        },
    };
    match db.update_user(id, email, role.id()) {
        Ok(row) => Ok(user_from_row(row, role)),
        Err(e) => Err(e),
    }
}

} // verus!
