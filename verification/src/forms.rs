//! The two editing forms: what they show when they open, and the one
//! operation that saving each of them amounts to.

use crate::db::{
    after_create_user, after_update_user, create_employee, create_user, create_user_outcome,
    employee_result, update_employee, update_user, update_user_outcome, user_result, Employee,
    User, UserView,
};
use crate::entities::app_role::Role;
use crate::entities::employee::EmployeeRow;
use crate::error::DirectoryError;
use crate::store::Directory;
use crate::tables::Tables;
use crate::text::{or_empty, text_of, text_or_empty};
use vstd::prelude::*;

verus! {

/// What the employee form was opened for.
#[derive(Debug, PartialEq, Eq)]
pub enum ModalMode {
    /// A new employee is being entered.
    Create,
    /// The given employee is being edited.
    Edit(Employee),
}

impl Clone for ModalMode {
    fn clone(&self) -> (copy: Self)
        ensures
            copy == *self,
    {
        match self {
            ModalMode::Create => ModalMode::Create,
            ModalMode::Edit(employee) => ModalMode::Edit(employee.clone()),
        }
    }
}

/// What saving the employee form asks of the directory.
#[derive(Debug, PartialEq, Eq)]
pub enum EmployeeRequest {
    /// Create an employee with these fields.
    Create { first_name: String, last_name: String, email: String },
    /// Replace the fields of the employee `id` by these.
    Update { id: i32, first_name: String, last_name: String, email: String },
}

impl EmployeeRequest {
    /// What carrying the request out returns: the outcome of an insert
    /// for `Create`, of an update of the named employee for `Update`.
    pub open spec fn outcome(self, tables: Tables) -> Result<EmployeeRow, DirectoryError> {
        match self {
            EmployeeRequest::Create { first_name, last_name, email } => {
                tables.insert_employee_outcome(Some(first_name@), Some(last_name@), Some(email@))
            },
            EmployeeRequest::Update { id, first_name, last_name, email } => {
                tables.update_employee_outcome(
                    id,
                    Some(first_name@),
                    Some(last_name@),
                    Some(email@),
                )
            },
        }
    }

    /// The tables after carrying the request out.
    pub open spec fn after(self, tables: Tables) -> Tables {
        match self {
            EmployeeRequest::Create { first_name, last_name, email } => {
                tables.after_insert_employee(Some(first_name@), Some(last_name@), Some(email@))
            },
            EmployeeRequest::Update { id, first_name, last_name, email } => {
                tables.after_update_employee(id, Some(first_name@), Some(last_name@), Some(email@))
            },
        }
    }
}

impl ModalMode {
    /// The request that saving the form with these fields makes: a
    /// `Create` where the form was opened for a new employee, an `Update`
    /// of the edited employee otherwise, by the key it had when the form
    /// was opened.
    pub fn request(&self, first_name: String, last_name: String, email: String) -> (request:
        EmployeeRequest)
        ensures
            request == match *self {
                ModalMode::Create => EmployeeRequest::Create { first_name, last_name, email },
                ModalMode::Edit(employee) => EmployeeRequest::Update {
                    id: employee.id,
                    first_name,
                    last_name,
                    email,
                },
            },
    {
        match self {
            ModalMode::Create => EmployeeRequest::Create { first_name, last_name, email },
            ModalMode::Edit(employee) => EmployeeRequest::Update {
                id: employee.id,
                first_name,
                last_name,
                email,
            },
        }
    }

    /// The first name that the form shows when it opens: empty for a new
    /// employee, the stored one otherwise, a missing one shown as empty.
    pub fn initial_first_name(&self) -> (value: String)
        ensures
            value@ == match *self {
                ModalMode::Create => Seq::<char>::empty(),
                ModalMode::Edit(employee) => or_empty(text_of(employee.first_name)),
            },
    {
        match self {
            ModalMode::Create => String::new(),
            ModalMode::Edit(employee) => text_or_empty(&employee.first_name),
        }
    }

    /// The last name that the form shows when it opens: empty for a new
    /// employee, the stored one otherwise, a missing one shown as empty.
    pub fn initial_last_name(&self) -> (value: String)
        ensures
            value@ == match *self {
                ModalMode::Create => Seq::<char>::empty(),
                ModalMode::Edit(employee) => or_empty(text_of(employee.last_name)),
            },
    {
        match self {
            ModalMode::Create => String::new(),
            ModalMode::Edit(employee) => text_or_empty(&employee.last_name),
        }
    }

    /// The email that the form shows when it opens: empty for a new
    /// employee, the stored one otherwise, a missing one shown as empty.
    pub fn initial_email(&self) -> (value: String)
        ensures
            value@ == match *self {
                ModalMode::Create => Seq::<char>::empty(),
                ModalMode::Edit(employee) => or_empty(text_of(employee.email)),
            },
    {
        match self {
            ModalMode::Create => String::new(),
            ModalMode::Edit(employee) => text_or_empty(&employee.email),
        }
    }

    /// The heading of the form.
    pub fn title(&self) -> (title: &'static str)
        ensures
            title@ == match *self {
                ModalMode::Create => "Add New Employee"@,
                ModalMode::Edit(_) => "Edit Employee"@,
            },
    {
        match self {
            ModalMode::Create => "Add New Employee",
            ModalMode::Edit(_) => "Edit Employee",
        }
    }

    /// The label of the button that saves the form.
    pub fn button_text(&self) -> (label: &'static str)
        ensures
            label@ == match *self {
                ModalMode::Create => "Create"@,
                ModalMode::Edit(_) => "Update"@,
            },
    {
        match self {
            ModalMode::Create => "Create",
            ModalMode::Edit(_) => "Update",
        }
    }
}

/// Carries out what the employee form asked for: the one entry point
/// for both creating and updating an employee. The failures are those of
/// the operation that runs.
pub fn save_employee(db: &mut Directory, request: EmployeeRequest) -> (outcome: Result<
    Employee,
    DirectoryError,
>)
    ensures
        old(db)@.wf(),
        final(db)@.wf(),
        final(db)@ == request.after(old(db)@),
        employee_result(outcome) == request.outcome(old(db)@),
{
    match request {
        EmployeeRequest::Create { first_name, last_name, email } => create_employee(
            db,
            first_name,
            last_name,
            email,
        ),
        EmployeeRequest::Update { id, first_name, last_name, email } => update_employee(
            db,
            id,
            first_name,
            last_name,
            email,
        ),
    }
}

/// What the user form was opened for.
#[derive(Debug, PartialEq, Eq)]
pub enum UserModalMode {
    /// A new user is being entered.
    Create,
    /// The given user is being edited.
    Edit(User),
}

impl Clone for UserModalMode {
    fn clone(&self) -> (copy: Self)
        ensures
            copy == *self,
    {
        match self {
            UserModalMode::Create => UserModalMode::Create,
            UserModalMode::Edit(user) => UserModalMode::Edit(user.clone()),
        }
    }
}

/// What saving the user form asks of the directory.
#[derive(Debug, PartialEq, Eq)]
pub enum UserRequest {
    /// Create a user with this email and role.
    Create { email: String, role_name: String },
    /// Give the user `id` this email and role.
    Update { id: i32, email: String, role_name: String },
}

impl UserRequest {
    /// What carrying the request out returns: the outcome of creating a
    /// user for `Create`, of updating the named user for `Update`.
    pub open spec fn outcome(self, tables: Tables) -> Result<UserView, DirectoryError> {
        match self {
            UserRequest::Create { email, role_name } => create_user_outcome(
                tables,
                email@,
                role_name@,
            ),
            UserRequest::Update { id, email, role_name } => update_user_outcome(
                tables,
                id,
                email@,
                role_name@,
            ),
        }
    }

    /// The tables after carrying the request out.
    pub open spec fn after(self, tables: Tables) -> Tables {
        match self {
            UserRequest::Create { email, role_name } => after_create_user(
                tables,
                email@,
                role_name@,
            ),
            UserRequest::Update { id, email, role_name } => after_update_user(
                tables,
                id,
                email@,
                role_name@,
            ),
        }
    }
}

impl UserModalMode {
    /// The request that saving the form with these fields makes: a
    /// `Create` where the form was opened for a new user, an `Update` of
    /// the edited user otherwise, by the key it had when the form was
    /// opened.
    pub fn request(&self, email: String, role_name: String) -> (request: UserRequest)
        ensures
            request == match *self {
                UserModalMode::Create => UserRequest::Create { email, role_name },
                UserModalMode::Edit(user) => UserRequest::Update { id: user.id, email, role_name },
            },
    {
        match self {
            UserModalMode::Create => UserRequest::Create { email, role_name },
            UserModalMode::Edit(user) => UserRequest::Update { id: user.id, email, role_name },
        }
    }

    /// The email that the form shows when it opens: empty for a new user,
    /// the stored one otherwise.
    pub fn initial_email(&self) -> (value: String)
        ensures
            value@ == match *self {
                UserModalMode::Create => Seq::<char>::empty(),
                UserModalMode::Edit(user) => user.email@,
            },
    {
        match self {
            UserModalMode::Create => String::new(),
            UserModalMode::Edit(user) => user.email.clone(),
        }
    }

    /// The role that the form shows when it opens: the plain employee
    /// role for a new user, the stored one otherwise.
    pub fn initial_role(&self) -> (value: String)
        ensures
            value@ == match *self {
                UserModalMode::Create => Role::Employee.label(),
                UserModalMode::Edit(user) => user.role_name@,
            },
    {
        match self {
            UserModalMode::Create => Role::Employee.name(),
            UserModalMode::Edit(user) => user.role_name.clone(),
        }
    }

    /// The heading of the form.
    pub fn title(&self) -> (title: &'static str)
        ensures
            title@ == match *self {
                UserModalMode::Create => "Create User"@,
                UserModalMode::Edit(_) => "Edit User"@,
            },
    {
        match self {
            UserModalMode::Create => "Create User",
            UserModalMode::Edit(_) => "Edit User",
        }
    }
}

/// Carries out what the user form asked for: the one entry point for
/// both creating and updating a user. The outcome is handed back as it
/// is, a failure too.
pub fn save_user(db: &mut Directory, request: UserRequest) -> (outcome: Result<User, DirectoryError>)
    ensures
        old(db)@.wf(),
        final(db)@.wf(),
        final(db)@ == request.after(old(db)@),
        user_result(outcome) == request.outcome(old(db)@),
{
    match request {
        UserRequest::Create { email, role_name } => create_user(db, email, role_name),
        UserRequest::Update { id, email, role_name } => update_user(db, id, email, role_name),
    }
}

} // verus!
