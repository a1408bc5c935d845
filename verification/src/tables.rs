//! The directory as a mathematical value: its two tables, the rules that
//! hold of them at all times, and what each operation of the storage
//! does to them.

use crate::db::UserExtendedRow;
use crate::entities::app_role::{role_name_of_id, role_of_id};
use crate::entities::employee::{full_name, EmployeeRow};
use crate::entities::users::{released, Relation, UserRow};
use crate::error::DirectoryError;
use vstd::prelude::*;

verus! {

/// The mathematical value of the directory: both tables, each in
/// ascending key order, and the highest key that each has handed out.
pub struct Tables {
    pub employees: Seq<EmployeeRow>,
    pub users: Seq<UserRow>,
    pub last_employee_id: i32,
    pub last_user_id: i32,
}

/// The rows with the one that has `row`'s key replaced by `row`.
pub open spec fn with_employee_replaced(rows: Seq<EmployeeRow>, row: EmployeeRow) -> Seq<
    EmployeeRow,
> {
    rows.map_values(
        |r: EmployeeRow|
            if r.id == row.id {
                row
            } else {
                r
            },
    )
}

/// The rows without the one that has the key `id`.
pub open spec fn without_employee(rows: Seq<EmployeeRow>, id: i32) -> Seq<EmployeeRow> {
    rows.filter(|r: EmployeeRow| r.id != id)
}

/// A user row after the employee `id` was deleted: a row that pointed at
/// that employee is changed as the relation between the two tables rules
/// for a delete, which is to clear the reference; any other row is kept.
pub open spec fn unlinked(user: UserRow, id: i32) -> UserRow {
    if user.employee_id == Some(id) {
        released(user, Relation::Employee.delete_rule())
    } else {
        user
    }
}

/// The user rows after the employee `id` was deleted.
pub open spec fn with_employee_unlinked(rows: Seq<UserRow>, id: i32) -> Seq<UserRow> {
    rows.map_values(|u: UserRow| unlinked(u, id))
}

/// The rows with the one that has `row`'s key replaced by `row`.
pub open spec fn with_user_replaced(rows: Seq<UserRow>, row: UserRow) -> Seq<UserRow> {
    rows.map_values(
        |r: UserRow|
            if r.id == row.id {
                row
            } else {
                r
            },
    )
}

impl Tables {
    /// The tables before anything was inserted.
    pub open spec fn empty() -> Tables {
        Tables {
            employees: Seq::empty(),
            users: Seq::empty(),
            last_employee_id: 0,
            last_user_id: 0,
        }
    }

    /// Whether `employee` holds a row with the key `id`.
    pub open spec fn has_employee(self, id: i32) -> bool {
        exists|i: int| 0 <= i < self.employees.len() && (#[trigger] self.employees[i]).id == id
    }

    /// Whether `users` holds a row with the key `id`.
    pub open spec fn has_user(self, id: i32) -> bool {
        exists|i: int| 0 <= i < self.users.len() && (#[trigger] self.users[i]).id == id
    }

    /// The `employee` row with the key `id`, where there is one.
    pub open spec fn employee(self, id: i32) -> EmployeeRow {
        let i = choose|i: int| 0 <= i < self.employees.len() && (#[trigger] self.employees[i]).id == id;
        self.employees[i]
    }

    /// The `users` row with the key `id`, where there is one.
    pub open spec fn user(self, id: i32) -> UserRow {
        let i = choose|i: int| 0 <= i < self.users.len() && (#[trigger] self.users[i]).id == id;
        self.users[i]
    }

    /// Whether storing `email` in an employee row would break the unique
    /// rule of that column: some row other than `own` holds the same email.
    /// A null email clashes with nothing.
    pub open spec fn employee_email_clash(self, own: Option<i32>, email: Option<Seq<char>>) -> bool {
        email is Some && exists|i: int|
            0 <= i < self.employees.len() && Some((#[trigger] self.employees[i]).id) != own
                && self.employees[i].email == email
    }

    /// Whether storing `email` in a user row would break the unique rule
    /// of that column: some row other than `own` holds the same email.
    pub open spec fn user_email_clash(self, own: Option<i32>, email: Seq<char>) -> bool {
        exists|i: int|
            0 <= i < self.users.len() && Some((#[trigger] self.users[i]).id) != own
                && self.users[i].email == email
    }

    /// Whether pointing a user at `employee_id` would break one of the
    /// rules of that column: the employee must exist, and no user other
    /// than `own` may already point at it. A null reference breaks neither.
    pub open spec fn employee_link_clash(self, own: Option<i32>, employee_id: Option<i32>) -> bool {
        employee_id matches Some(target) && (!self.has_employee(target) || exists|i: int|
            0 <= i < self.users.len() && Some((#[trigger] self.users[i]).id) != own
                && self.users[i].employee_id == employee_id)
    }

    /// The rules that hold of the tables at all times.
    pub open spec fn wf(self) -> bool {
        &&& 0 <= self.last_employee_id
        &&& 0 <= self.last_user_id
        &&& forall|i: int|
            0 <= i < self.employees.len() ==> 1 <= (#[trigger] self.employees[i]).id
                <= self.last_employee_id
        &&& forall|i: int, j: int|
            0 <= i < j < self.employees.len() ==> (#[trigger] self.employees[i]).id < (
            #[trigger] self.employees[j]).id
        &&& forall|i: int, j: int|
            0 <= i < j < self.employees.len() && (#[trigger] self.employees[i]).email is Some
                ==> self.employees[i].email != (#[trigger] self.employees[j]).email
        &&& forall|i: int|
            0 <= i < self.users.len() ==> 1 <= (#[trigger] self.users[i]).id <= self.last_user_id
        &&& forall|i: int, j: int|
            0 <= i < j < self.users.len() ==> (#[trigger] self.users[i]).id < (
            #[trigger] self.users[j]).id
        &&& forall|i: int, j: int|
            0 <= i < j < self.users.len() ==> (#[trigger] self.users[i]).email != (
            #[trigger] self.users[j]).email
        &&& forall|i: int|
            0 <= i < self.users.len() ==> role_of_id((#[trigger] self.users[i]).role_id) is Some
        &&& forall|i: int|
            0 <= i < self.users.len() ==> ((#[trigger] self.users[i]).employee_id matches Some(
                target,
            ) ==> self.has_employee(target))
        &&& forall|i: int, j: int|
            0 <= i < j < self.users.len() && (#[trigger] self.users[i]).employee_id is Some
                ==> self.users[i].employee_id != (#[trigger] self.users[j]).employee_id
    }

    /// What looking the employee `id` up returns: its row, or `NotFound`.
    pub open spec fn find_employee_outcome(self, id: i32) -> Result<EmployeeRow, DirectoryError> {
        if self.has_employee(id) {
            Ok(self.employee(id))
        } else {
            Err(DirectoryError::NotFound)
        }
    }

    /// What looking the user `id` up returns: its row, or `NotFound`.
    pub open spec fn find_user_outcome(self, id: i32) -> Result<UserRow, DirectoryError> {
        if self.has_user(id) {
            Ok(self.user(id))
        } else {
            Err(DirectoryError::NotFound)
        }
    }

    /// What inserting an employee returns: the new row, with the next key,
    /// unless the email is taken or the keys are used up.
    pub open spec fn insert_employee_outcome(
        self,
        first_name: Option<Seq<char>>,
        last_name: Option<Seq<char>>,
        email: Option<Seq<char>>,
    ) -> Result<EmployeeRow, DirectoryError> {
        if self.employee_email_clash(None, email) {
            Err(DirectoryError::ConstraintViolation)
        } else if self.last_employee_id == i32::MAX {
            Err(DirectoryError::QueryFailure)
        } else {
            Ok(
                EmployeeRow {
                    id: (self.last_employee_id + 1) as i32,
                    first_name,
                    last_name,
                    email,
                },
            )
        }
    }

    /// The tables after inserting an employee: the new row is appended
    /// and its key recorded; a refused insert changes nothing.
    pub open spec fn after_insert_employee(
        self,
        first_name: Option<Seq<char>>,
        last_name: Option<Seq<char>>,
        email: Option<Seq<char>>,
    ) -> Tables {
        match self.insert_employee_outcome(first_name, last_name, email) {
            Ok(row) => Tables {
                employees: self.employees.push(row),
                last_employee_id: row.id,
                ..self
            },
            Err(_) => self,
        }
    }
}

impl Tables {
    /// What updating the employee `id` returns: the row as it is stored
    /// afterwards, unless there is no such employee or another employee
    /// holds the new email.
    pub open spec fn update_employee_outcome(
        self,
        id: i32,
        first_name: Option<Seq<char>>,
        last_name: Option<Seq<char>>,
        email: Option<Seq<char>>,
    ) -> Result<EmployeeRow, DirectoryError> {
        if !self.has_employee(id) {
            Err(DirectoryError::NotFound)
        } else if self.employee_email_clash(Some(id), email) {
            Err(DirectoryError::ConstraintViolation)
        } else {
            Ok(EmployeeRow { id, first_name, last_name, email })
        }
    }

    /// The tables after updating the employee `id`: that row is replaced
    /// as a whole, no row is added, and a refused update changes nothing.
    pub open spec fn after_update_employee(
        self,
        id: i32,
        first_name: Option<Seq<char>>,
        last_name: Option<Seq<char>>,
        email: Option<Seq<char>>,
    ) -> Tables {
        match self.update_employee_outcome(id, first_name, last_name, email) {
            Ok(row) => Tables { employees: with_employee_replaced(self.employees, row), ..self },
            Err(_) => self,
        }
    }

    /// What deleting the employee `id` returns: success exactly when
    /// there is such an employee.
    pub open spec fn delete_employee_outcome(self, id: i32) -> Result<(), DirectoryError> {
        if self.has_employee(id) {
            Ok(())
        } else {
            Err(DirectoryError::NotFound)
        }
    }

    /// The tables after deleting the employee `id`: the row is gone, and
    /// every user that pointed at it stays, with its reference cleared.
    pub open spec fn after_delete_employee(self, id: i32) -> Tables {
        match self.delete_employee_outcome(id) {
            Ok(_) => Tables {
                employees: without_employee(self.employees, id),
                users: with_employee_unlinked(self.users, id),
                ..self
            },
            Err(_) => self,
        }
    }

    /// What inserting a user returns: the new row, with the next key,
    /// unless a rule of the table refuses it (an unknown role key, a taken
    /// email, a missing or already linked employee) or the keys are used up.
    pub open spec fn insert_user_outcome(
        self,
        email: Seq<char>,
        password_hash: Seq<char>,
        role_id: i32,
        created_at: Option<i64>,
        employee_id: Option<i32>,
    ) -> Result<UserRow, DirectoryError> {
        if role_of_id(role_id) is None || self.user_email_clash(None, email)
            || self.employee_link_clash(None, employee_id) {
            Err(DirectoryError::ConstraintViolation)
        } else if self.last_user_id == i32::MAX {
            Err(DirectoryError::QueryFailure)
        } else {
            Ok(
                UserRow {
                    id: (self.last_user_id + 1) as i32,
                    email,
                    password_hash,
                    role_id,
                    created_at,
                    employee_id,
                },
            )
        }
    }

    /// The tables after inserting a user: the new row is appended and its
    /// key recorded; a refused insert changes nothing.
    pub open spec fn after_insert_user(
        self,
        email: Seq<char>,
        password_hash: Seq<char>,
        role_id: i32,
        created_at: Option<i64>,
        employee_id: Option<i32>,
    ) -> Tables {
        match self.insert_user_outcome(email, password_hash, role_id, created_at, employee_id) {
            Ok(row) => Tables { users: self.users.push(row), last_user_id: row.id, ..self },
            Err(_) => self,
        }
    }

    /// What updating the user `id` returns: the row as it is stored
    /// afterwards, with the new email and role and everything else kept,
    /// unless there is no such user, the role key is unknown or another
    /// user holds the new email.
    pub open spec fn update_user_outcome(self, id: i32, email: Seq<char>, role_id: i32) -> Result<
        UserRow,
        DirectoryError,
    > {
        if !self.has_user(id) {
            Err(DirectoryError::NotFound)
        } else if role_of_id(role_id) is None || self.user_email_clash(Some(id), email) {
            Err(DirectoryError::ConstraintViolation)
        } else {
            Ok(UserRow { email, role_id, ..self.user(id) })
        }
    }

    /// The tables after updating the user `id`: that row is replaced, no
    /// row is added, and a refused update changes nothing.
    pub open spec fn after_update_user(self, id: i32, email: Seq<char>, role_id: i32) -> Tables {
        match self.update_user_outcome(id, email, role_id) {
            Ok(row) => Tables { users: with_user_replaced(self.users, row), ..self },
            Err(_) => self,
        }
    }

    /// One row of the joined view: the user, the name of its role, and
    /// the name of the employee it points at. A user that points at no
    /// employee has no employee name.
    pub open spec fn extended(self, user: UserRow) -> UserExtendedRow {
        UserExtendedRow {
            user_id: user.id,
            email: user.email,
            role_name: role_name_of_id(user.role_id),
            employee_id: user.employee_id,
            employee_name: match user.employee_id {
                Some(target) => if self.has_employee(target) {
                    Some(full_name(self.employee(target)))
                } else {
                    None
                },
                None => None,
            },
        }
    }

    /// The joined view: one row for every user, in ascending order of the
    /// user's key.
    pub open spec fn users_extended(self) -> Seq<UserExtendedRow> {
        self.users.map_values(|user: UserRow| self.extended(user))
    }
}

/// Whether the rows stand in strictly ascending order of `user_id`.
pub open spec fn ascending_by_user_id(rows: Seq<UserExtendedRow>) -> bool {
    forall|i: int, j: int|
        0 <= i < j < rows.len() ==> (#[trigger] rows[i]).user_id < (#[trigger] rows[j]).user_id
}

} // verus!
