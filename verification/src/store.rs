//! The tables of the directory held in memory, with the rules that the
//! relational storage enforces: generated keys, unique columns, and
//! references that are cleared when the row they point at goes away.

use crate::db::{UserExtended, UserExtendedRow};
use crate::entities::app_role::Role;
use crate::entities::employee::EmployeeRow;
use crate::entities::employee::Model as EmployeeModel;
use crate::entities::users::Model as UserModel;
use crate::entities::users::{Relation, UserRow};
use crate::error::DirectoryError;
use crate::preservation::{
    lemma_delete_employee_keeps_rules, lemma_employee_at, lemma_insert_employee_keeps_rules,
    lemma_insert_user_keeps_rules, lemma_update_employee_keeps_rules,
    lemma_update_user_keeps_rules, lemma_user_at, lemma_without_employee_removes,
};
use crate::tables::{
    ascending_by_user_id, unlinked, with_employee_replaced, with_employee_unlinked,
    with_user_replaced, Tables,
};
use crate::text::{same_text, text_of};
use vstd::prelude::*;

verus! {

/// The rows of `employee` as mathematical values.
pub open spec fn employee_rows(rows: Seq<EmployeeModel>) -> Seq<EmployeeRow> {
    Seq::new(rows.len(), |i: int| rows[i]@)
}

/// The rows of `users` as mathematical values.
pub open spec fn user_rows(rows: Seq<UserModel>) -> Seq<UserRow> {
    Seq::new(rows.len(), |i: int| rows[i]@)
}

/// The rows of the joined view as mathematical values.
pub open spec fn extended_rows(rows: Seq<UserExtended>) -> Seq<UserExtendedRow> {
    Seq::new(rows.len(), |i: int| rows[i]@)
}

/// The mathematical value of what an employee operation returned.
pub open spec fn employee_outcome(outcome: Result<EmployeeModel, DirectoryError>) -> Result<
    EmployeeRow,
    DirectoryError,
> {
    match outcome {
        Ok(row) => Ok(row@),
        Err(e) => Err(e),
    }
}

/// The mathematical value of what a user operation returned.
pub open spec fn user_outcome(outcome: Result<UserModel, DirectoryError>) -> Result<
    UserRow,
    DirectoryError,
> {
    match outcome {
        Ok(row) => Ok(row@),
        Err(e) => Err(e),
    }
}

/// The directory's tables, held in memory. Its value is a [`Tables`] that
/// keeps the rules at all times: no operation can leave it otherwise.
pub struct Directory {
    employees: Vec<EmployeeModel>,
    users: Vec<UserModel>,
    last_employee_id: i32,
    last_user_id: i32,
}

impl View for Directory {
    type V = Tables;

    closed spec fn view(&self) -> Tables {
        Tables {
            employees: employee_rows(self.employees@),
            users: user_rows(self.users@),
            last_employee_id: self.last_employee_id,
            last_user_id: self.last_user_id,
        }
    }
}

impl Directory {
    /// What holds of every directory: its tables keep the rules.
    #[verifier::type_invariant]
    pub open spec fn inv(self) -> bool {
        self@.wf()
    }

    /// A directory with empty tables; the first key of each table is 1.
    pub fn new() -> (directory: Directory)
        ensures
            directory@ == Tables::empty(),
            directory@.wf(),
    {
        let directory = Directory {
            employees: Vec::new(),
            users: Vec::new(),
            last_employee_id: 0,
            last_user_id: 0,
        };
        assert(directory@.employees =~= Seq::empty());
        assert(directory@.users =~= Seq::empty());
        directory
    }

    /// Moves the tables out and leaves empty ones behind.
    fn take(&mut self) -> (taken: Directory)
        ensures
            taken == *old(self),
    {
        let mut taken = Directory::new();
        core::mem::swap(self, &mut taken);
        taken
    }

    /// Where in the table the employee with the key `id` stands.
    fn employee_position(&self, id: i32) -> (at: Option<usize>)
        ensures
            match at {
                Some(i) => i < self.employees.len() && self.employees[i as int].id == id
                    && self@.has_employee(id),
                None => !self@.has_employee(id),
            },
    {
        let mut i: usize = 0;
        while i < self.employees.len()
            invariant
                i <= self.employees.len(),
                forall|k: int| 0 <= k < i ==> self.employees[k].id != id,
            decreases self.employees.len() - i,
        {
            if self.employees[i].id == id {
                assert(self@.employees[i as int] == self.employees[i as int]@);
                return Some(i);
            }
            i += 1;
        }
        assert forall|k: int| 0 <= k < self@.employees.len() implies (
        #[trigger] self@.employees[k]).id != id by {
            assert(self@.employees[k] == self.employees[k]@);
        }
        None
    }

    /// Where in the table the user with the key `id` stands.
    fn user_position(&self, id: i32) -> (at: Option<usize>)
        ensures
            match at {
                Some(i) => i < self.users.len() && self.users[i as int].id == id
                    && self@.has_user(id),
                None => !self@.has_user(id),
            },
    {
        let mut i: usize = 0;
        while i < self.users.len()
            invariant
                i <= self.users.len(),
                forall|k: int| 0 <= k < i ==> self.users[k].id != id,
            decreases self.users.len() - i,
        {
            if self.users[i].id == id {
                assert(self@.users[i as int] == self.users[i as int]@);
                return Some(i);
            }
            i += 1;
        }
        assert forall|k: int| 0 <= k < self@.users.len() implies (#[trigger] self@.users[k]).id
            != id by {
            assert(self@.users[k] == self.users[k]@);
        }
        None
    }

    /// Whether some employee other than `own` holds `email`.
    fn employee_email_taken(&self, own: Option<i32>, email: &Option<String>) -> (taken: bool)
        ensures
            taken == self@.employee_email_clash(own, text_of(*email)),
    {
        if email.is_none() {
            return false;
        }
        let mut i: usize = 0;
        while i < self.employees.len()
            invariant
                i <= self.employees.len(),
                email is Some,
                forall|k: int|
                    0 <= k < i ==> !(Some(self.employees[k].id) != own && text_of(
                        self.employees[k].email,
                    ) == text_of(*email)),
            decreases self.employees.len() - i,
        {
            let row = &self.employees[i];
            if !is_own(own, row.id) && same_text(&row.email, email) {
                assert(self@.employees[i as int] == self.employees[i as int]@);
                return true;
            }
            i += 1;
        }
        assert forall|k: int| 0 <= k < self@.employees.len() implies !(Some(
            (#[trigger] self@.employees[k]).id,
        ) != own && self@.employees[k].email == text_of(*email)) by {
            assert(self@.employees[k] == self.employees[k]@);
        }
        false
    }

    /// Whether some user other than `own` holds `email`.
    fn user_email_taken(&self, own: Option<i32>, email: &String) -> (taken: bool)
        ensures
            taken == self@.user_email_clash(own, email@),
    {
        let mut i: usize = 0;
        while i < self.users.len()
            invariant
                i <= self.users.len(),
                forall|k: int|
                    0 <= k < i ==> !(Some(self.users[k].id) != own && self.users[k].email@
                        == email@),
            decreases self.users.len() - i,
        {
            let row = &self.users[i];
            if !is_own(own, row.id) && row.email == *email {
                assert(self@.users[i as int] == self.users[i as int]@);
                return true;
            }
            i += 1;
        }
        assert forall|k: int| 0 <= k < self@.users.len() implies !(Some(
            (#[trigger] self@.users[k]).id,
        ) != own && self@.users[k].email == email@) by {
            assert(self@.users[k] == self.users[k]@);
        }
        false
    }

    /// Whether a user other than `own` may not point at `employee_id`:
    /// the employee is missing, or another user points at it already.
    fn employee_link_refused(&self, own: Option<i32>, employee_id: Option<i32>) -> (refused: bool)
        ensures
            refused == self@.employee_link_clash(own, employee_id),
    {
        let target: i32 = match employee_id {
            Some(target) => target,
            None => {
                return false;
            },
        };
        if self.employee_position(target).is_none() {
            return true;
        }
        let mut i: usize = 0;
        while i < self.users.len()
            invariant
                i <= self.users.len(),
                employee_id == Some(target),
                forall|k: int|
                    0 <= k < i ==> !(Some(self.users[k].id) != own && self.users[k].employee_id
                        == employee_id),
            decreases self.users.len() - i,
        {
            let row = &self.users[i];
            if !is_own(own, row.id) && is_own(row.employee_id, target) {
                assert(self@.users[i as int] == self.users[i as int]@);
                return true;
            }
            i += 1;
        }
        assert forall|k: int| 0 <= k < self@.users.len() implies !(Some(
            (#[trigger] self@.users[k]).id,
        ) != own && self@.users[k].employee_id == employee_id) by {
            assert(self@.users[k] == self.users[k]@);
        }
        false
    }

    /// All employees, in ascending order of their key. An empty table
    /// gives an empty list.
    pub fn find_employees(&self) -> (rows: Vec<EmployeeModel>)
        ensures
            self@.wf(),
            rows@.len() == self@.employees.len(),
            employee_rows(rows@) == self@.employees,
    {
        proof {
            use_type_invariant(self);
        }
        let mut rows: Vec<EmployeeModel> = Vec::new();
        let mut i: usize = 0;
        while i < self.employees.len()
            invariant
                i <= self.employees.len(),
                rows@.len() == i,
                forall|k: int| 0 <= k < i ==> rows@[k] == self.employees@[k],
            decreases self.employees.len() - i,
        {
            rows.push(self.employees[i].clone());
            i += 1;
        }
        assert(employee_rows(rows@) =~= self@.employees);
        rows
    }

    /// The employee with the key `id`, or `NotFound` where there is none.
    pub fn find_employee(&self, id: i32) -> (outcome: Result<EmployeeModel, DirectoryError>)
        ensures
            self@.wf(),
            employee_outcome(outcome) == self@.find_employee_outcome(id),
    {
        proof {
            use_type_invariant(self);
        }
        match self.employee_position(id) {
            Some(at) => {
                proof {
                    assert(self@.employees[at as int] == self.employees[at as int]@);
                    lemma_employee_at(self@, at as int);
                }
                Ok(self.employees[at].clone())
            },
            None => Err(DirectoryError::NotFound),
        }
    }

    /// The user with the key `id`, or `NotFound` where there is none.
    pub fn find_user(&self, id: i32) -> (outcome: Result<UserModel, DirectoryError>)
        ensures
            self@.wf(),
            user_outcome(outcome) == self@.find_user_outcome(id),
    {
        proof {
            use_type_invariant(self);
        }
        match self.user_position(id) {
            Some(at) => {
                proof {
                    assert(self@.users[at as int] == self.users[at as int]@);
                    lemma_user_at(self@, at as int);
                }
                Ok(self.users[at].clone())
            },
            None => Err(DirectoryError::NotFound),
        }
    }

    /// Inserts an employee. The table assigns the key: one more than the
    /// highest key it has ever handed out, so a key is never used twice,
    /// not even after a delete.
    ///
    /// Refused with `ConstraintViolation` where another employee already
    /// holds the same (non-null) email, and with `QueryFailure` where the
    /// keys are used up; a refused insert changes nothing.
    pub fn insert_employee(
        &mut self,
        first_name: Option<String>,
        last_name: Option<String>,
        email: Option<String>,
    ) -> (outcome: Result<EmployeeModel, DirectoryError>)
        ensures
            old(self)@.wf(),
            final(self)@.wf(),
            final(self)@ == old(self)@.after_insert_employee(
                text_of(first_name),
                text_of(last_name),
                text_of(email),
            ),
            employee_outcome(outcome) == old(self)@.insert_employee_outcome(
                text_of(first_name),
                text_of(last_name),
                text_of(email),
            ),
    {
        proof {
            use_type_invariant(&*self);
            lemma_insert_employee_keeps_rules(
                self@,
                text_of(first_name),
                text_of(last_name),
                text_of(email),
            );
        }
        if self.employee_email_taken(None, &email) {
            return Err(DirectoryError::ConstraintViolation);
        }
        if self.last_employee_id == i32::MAX {
            return Err(DirectoryError::QueryFailure);
        }
        let id: i32 = self.last_employee_id + 1;
        let row = EmployeeModel { id, first_name, last_name, email };
        let stored = row.clone();
        let Directory { employees, users, last_employee_id, last_user_id } = self.take();
        let mut employees = employees;
        assert(employee_rows(employees@.push(stored)) =~= employee_rows(employees@).push(row@));
        employees.push(stored);
        *self = Directory { employees, users, last_employee_id: id, last_user_id };
        Ok(row)
    }

    /// Replaces the three editable columns of the employee `id` as a
    /// whole and returns the row as it is stored afterwards.
    ///
    /// Refused with `NotFound` where there is no such employee (no row is
    /// created in its place), and with `ConstraintViolation` where another
    /// employee holds the new (non-null) email; a refused update changes
    /// nothing.
    pub fn update_employee(
        &mut self,
        id: i32,
        first_name: Option<String>,
        last_name: Option<String>,
        email: Option<String>,
    ) -> (outcome: Result<EmployeeModel, DirectoryError>)
        ensures
            old(self)@.wf(),
            final(self)@.wf(),
            final(self)@ == old(self)@.after_update_employee(
                id,
                text_of(first_name),
                text_of(last_name),
                text_of(email),
            ),
            employee_outcome(outcome) == old(self)@.update_employee_outcome(
                id,
                text_of(first_name),
                text_of(last_name),
                text_of(email),
            ),
    {
        proof {
            use_type_invariant(&*self);
            lemma_update_employee_keeps_rules(
                self@,
                id,
                text_of(first_name),
                text_of(last_name),
                text_of(email),
            );
        }
        let at: usize = match self.employee_position(id) {
            Some(at) => at,
            None => {
                return Err(DirectoryError::NotFound);
            },
        };
        if self.employee_email_taken(Some(id), &email) {
            return Err(DirectoryError::ConstraintViolation);
        }
        let row = self.employees[at].replaced(first_name, last_name, email);
        let stored = row.clone();
        let ghost before = self@;
        let Directory { employees, users, last_employee_id, last_user_id } = self.take();
        let mut employees = employees;
        proof {
            let replaced = with_employee_replaced(before.employees, row@);
            assert forall|k: int| 0 <= k < before.employees.len() implies #[trigger] replaced[k]
                == employee_rows(employees@.update(at as int, stored))[k] by {
                if k < at {
                    assert(before.employees[k].id < before.employees[at as int].id);
                } else if at < k {
                    assert(before.employees[at as int].id < before.employees[k].id);
                }
            }
            assert(employee_rows(employees@.update(at as int, stored)) =~= replaced);
        }
        employees.set(at, stored);
        *self = Directory { employees, users, last_employee_id, last_user_id };
        Ok(row)
    }

    /// Deletes the employee `id`. Every user that pointed at it stays in
    /// its table with the reference cleared; the row and the clearing
    /// happen as one step.
    ///
    /// Refused with `NotFound` where there is no such employee; a refused
    /// delete changes nothing.
    pub fn delete_employee(&mut self, id: i32) -> (outcome: Result<(), DirectoryError>)
        ensures
            old(self)@.wf(),
            final(self)@.wf(),
            final(self)@ == old(self)@.after_delete_employee(id),
            outcome == old(self)@.delete_employee_outcome(id),
    {
        proof {
            use_type_invariant(&*self);
            lemma_delete_employee_keeps_rules(self@, id);
        }
        let at: usize = match self.employee_position(id) {
            Some(at) => at,
            None => {
                return Err(DirectoryError::NotFound);
            },
        };
        let ghost before = self@;
        let Directory { employees, users, last_employee_id, last_user_id } = self.take();
        let mut employees = employees;
        let mut users = users;
        proof {
            assert forall|i: int, j: int| 0 <= i < j < before.employees.len() implies (
            #[trigger] before.employees[i]).id != (#[trigger] before.employees[j]).id by {}
            lemma_without_employee_removes(before.employees, at as int);
            assert(employee_rows(employees@.remove(at as int)) =~= before.employees.remove(
                at as int,
            ));
        }
        employees.remove(at);
        let rule = Relation::Employee.on_delete();
        let mut i: usize = 0;
        while i < users.len()
            invariant
                i <= users.len(),
                users.len() == before.users.len(),
                rule == Relation::Employee.delete_rule(),
                forall|k: int| 0 <= k < i ==> (#[trigger] users[k])@ == unlinked(before.users[k], id),
                forall|k: int| i <= k < users.len() ==> (#[trigger] users[k])@ == before.users[k],
            decreases users.len() - i,
        {
            if is_own(users[i].employee_id, id) {
                let row = users[i].released(rule);
                users.set(i, row);
            }
            i += 1;
        }
        assert(user_rows(users@) =~= with_employee_unlinked(before.users, id));
        *self = Directory { employees, users, last_employee_id, last_user_id };
        Ok(())
    }

    /// Inserts a user. The table assigns the key, as it does for employees.
    ///
    /// Refused with `ConstraintViolation` where `role_id` is not the key
    /// of a role, where another user holds the same email, where
    /// `employee_id` names an employee that does not exist or that another
    /// user points at already; and with `QueryFailure` where the keys are
    /// used up. A refused insert changes nothing.
    pub fn insert_user(
        &mut self,
        email: String,
        password_hash: String,
        role_id: i32,
        created_at: Option<i64>,
        employee_id: Option<i32>,
    ) -> (outcome: Result<UserModel, DirectoryError>)
        ensures
            old(self)@.wf(),
            final(self)@.wf(),
            final(self)@ == old(self)@.after_insert_user(
                email@,
                password_hash@,
                role_id,
                created_at,
                employee_id,
            ),
            user_outcome(outcome) == old(self)@.insert_user_outcome(
                email@,
                password_hash@,
                role_id,
                created_at,
                employee_id,
            ),
    {
        proof {
            use_type_invariant(&*self);
            lemma_insert_user_keeps_rules(
                self@,
                email@,
                password_hash@,
                role_id,
                created_at,
                employee_id,
            );
        }
        if Role::from_id(role_id).is_none() || self.user_email_taken(None, &email)
            || self.employee_link_refused(None, employee_id) {
            return Err(DirectoryError::ConstraintViolation);
        }
        if self.last_user_id == i32::MAX {
            return Err(DirectoryError::QueryFailure);
        }
        let id: i32 = self.last_user_id + 1;
        let row = UserModel { id, email, password_hash, role_id, created_at, employee_id };
        let stored = row.clone();
        let Directory { employees, users, last_employee_id, last_user_id } = self.take();
        let mut users = users;
        assert(user_rows(users@.push(stored)) =~= user_rows(users@).push(row@));
        users.push(stored);
        *self = Directory { employees, users, last_employee_id, last_user_id: id };
        Ok(row)
    }

    /// Gives the user `id` a new email and a new role and returns the row
    /// as it is stored afterwards; the other columns are kept.
    ///
    /// Refused with `NotFound` where there is no such user, and with
    /// `ConstraintViolation` where `role_id` is not the key of a role or
    /// another user holds the new email; a refused update changes nothing.
    pub fn update_user(&mut self, id: i32, email: String, role_id: i32) -> (outcome: Result<
        UserModel,
        DirectoryError,
    >)
        ensures
            old(self)@.wf(),
            final(self)@.wf(),
            final(self)@ == old(self)@.after_update_user(id, email@, role_id),
            user_outcome(outcome) == old(self)@.update_user_outcome(id, email@, role_id),
    {
        proof {
            use_type_invariant(&*self);
            lemma_update_user_keeps_rules(self@, id, email@, role_id);
        }
        let at: usize = match self.user_position(id) {
            Some(at) => at,
            None => {
                return Err(DirectoryError::NotFound);
            },
        };
        if Role::from_id(role_id).is_none() || self.user_email_taken(Some(id), &email) {
            return Err(DirectoryError::ConstraintViolation);
        }
        let current = &self.users[at];
        let row = UserModel {
            id: current.id,
            email,
            password_hash: current.password_hash.clone(),
            role_id,
            created_at: current.created_at,
            employee_id: current.employee_id,
        };
        let stored = row.clone();
        let ghost before = self@;
        proof {
            assert(before.users[at as int] == self.users[at as int]@);
            lemma_user_at(before, at as int);
        }
        let Directory { employees, users, last_employee_id, last_user_id } = self.take();
        let mut users = users;
        proof {
            let replaced = with_user_replaced(before.users, row@);
            assert forall|k: int| 0 <= k < before.users.len() implies #[trigger] replaced[k]
                == user_rows(users@.update(at as int, stored))[k] by {
                if k < at {
                    assert(before.users[k].id < before.users[at as int].id);
                } else if at < k {
                    assert(before.users[at as int].id < before.users[k].id);
                }
            }
            assert(user_rows(users@.update(at as int, stored)) =~= replaced);
        }
        users.set(at, stored);
        *self = Directory { employees, users, last_employee_id, last_user_id };
        Ok(row)
    }

    /// The joined view: one row for every user, with the name of its role
    /// and of the employee it points at, in ascending order of `user_id`.
    /// A user without an employee is listed with no employee name. The
    /// tables are only read.
    pub fn users_extended(&self) -> (rows: Vec<UserExtended>)
        ensures
            self@.wf(),
            rows@.len() == self@.users.len(),
            extended_rows(rows@) == self@.users_extended(),
            ascending_by_user_id(extended_rows(rows@)),
    {
        proof {
            use_type_invariant(self);
        }
        let mut rows: Vec<UserExtended> = Vec::new();
        let mut i: usize = 0;
        while i < self.users.len()
            invariant
                i <= self.users.len(),
                rows@.len() == i,
                self@.wf(),
                forall|k: int| 0 <= k < i ==> (#[trigger] rows@[k])@ == self@.extended(self@.users[k]),
            decreases self.users.len() - i,
        {
            let user = &self.users[i];
            assert(self@.users[i as int] == user@);
            let role_name = match Role::from_id(user.role_id) {
                Some(role) => role.name(),
                None => String::new(),
            };
            let employee_name = match user.employee_id {
                Some(target) => match self.employee_position(target) {
                    Some(at) => {
                        proof {
                            assert(self@.employees[at as int] == self.employees[at as int]@);
                            lemma_employee_at(self@, at as int);
                        }
                        Some(self.employees[at].full_name())
                    },
                    None => None,
                },
                None => None,
            };
            rows.push(
                UserExtended {
                    user_id: user.id,
                    email: user.email.clone(),
                    role_name,
                    employee_id: user.employee_id,
                    employee_name,
                },
            );
            i += 1;
        }
        assert(extended_rows(rows@) =~= self@.users_extended());
        assert forall|a: int, b: int| 0 <= a < b < rows@.len() implies (#[trigger] extended_rows(
            rows@,
        )[a]).user_id < (#[trigger] extended_rows(rows@)[b]).user_id by {
            assert(self@.users[a].id < self@.users[b].id);
        }
        rows
    }
}

/// Whether `own` names the key `id`.
fn is_own(own: Option<i32>, id: i32) -> (same: bool)
    ensures
        same == (own == Some(id)),
{
    match own {
        Some(k) => k == id,
        None => false,
    }
}

} // verus!
