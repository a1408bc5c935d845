//! The `users` table.

use crate::entities::employee::ForeignKeyAction;
use vstd::prelude::*;

verus! {

/// One row of the `users` table.
#[derive(Debug, PartialEq, Eq)]
pub struct Model {
    /// Surrogate key, assigned by the table on insert.
    pub id: i32,
    /// Required and unique.
    pub email: String,
    /// Opaque to the directory: stored and handed back, never read.
    pub password_hash: String,
    /// Key of a row of `app_role`.
    pub role_id: i32,
    /// Seconds since the Unix epoch, where the time of creation is known.
    pub created_at: Option<i64>,
    /// Key of a row of `employee`; at most one user points at an employee.
    pub employee_id: Option<i32>,
}

/// The mathematical value of a `users` row.
pub struct UserRow {
    pub id: i32,
    pub email: Seq<char>,
    pub password_hash: Seq<char>,
    pub role_id: i32,
    pub created_at: Option<i64>,
    pub employee_id: Option<i32>,
}

impl View for Model {
    type V = UserRow;

    open spec fn view(&self) -> UserRow {
        UserRow {
            id: self.id,
            email: self.email@,
            password_hash: self.password_hash@,
            role_id: self.role_id,
            created_at: self.created_at,
            employee_id: self.employee_id,
        }
    }
}

impl Clone for Model {
    fn clone(&self) -> (copy: Self)
        ensures
            copy == *self,
    {
        Model {
            id: self.id,
            email: self.email.clone(),
            password_hash: self.password_hash.clone(),
            role_id: self.role_id,
            created_at: self.created_at,
            employee_id: self.employee_id,
        }
    }
}

/// The relations that start at the `users` table.
#[derive(Clone, Copy, Debug, PartialEq, Eq, Structural)]
pub enum Relation {
    /// `users.role_id` points at `app_role.id`.
    AppRole,
    /// `users.employee_id` points at `employee.id`.
    Employee,
}

impl Relation {
    /// What deleting the referenced row does to a user that points at it.
    pub open spec fn delete_rule(self) -> ForeignKeyAction {
        match self {
            Relation::AppRole => ForeignKeyAction::NoAction,
            Relation::Employee => ForeignKeyAction::SetNull,
        }
    }

    /// What deleting the referenced row does to a user that points at it:
    /// a deleted employee clears the reference and the user stays.
    pub fn on_delete(&self) -> (action: ForeignKeyAction)
        ensures
            action == self.delete_rule(),
    {
        match self {
            Relation::AppRole => ForeignKeyAction::NoAction,
            Relation::Employee => ForeignKeyAction::SetNull,
        }
    }
}

/// A user row after the row it pointed at was deleted under `rule`:
/// `SetNull` clears the reference, `NoAction` leaves the row as it is.
pub open spec fn released(user: UserRow, rule: ForeignKeyAction) -> UserRow {
    match rule {
        ForeignKeyAction::SetNull => UserRow { employee_id: None, ..user },
        ForeignKeyAction::NoAction => user,
    }
}

impl Model {
    /// This row after the employee it pointed at was deleted under
    /// `rule`; every column but the reference is kept.
    pub fn released(&self, rule: ForeignKeyAction) -> (row: Model)
        ensures
            row@ == released(self@, rule),
    {
        let mut row = self.clone();
        match rule {
            ForeignKeyAction::SetNull => {
                row.employee_id = None;
            },
            ForeignKeyAction::NoAction => {},
        }
        row
    }
}

} // verus!
