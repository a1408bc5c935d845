//! What holds of the directory whatever its tables hold: statements that
//! relate several operations, each proved from the definitions in
//! [`crate::tables`] and [`crate::db`].

use crate::db::{after_create_user, after_update_user, create_user_outcome, UserView};
use crate::entities::app_role::{lemma_role_name_known, role_of_name, Role};
use crate::entities::employee::EmployeeRow;
use crate::entities::users::UserRow;
use crate::error::DirectoryError;
use crate::preservation::{
    lemma_delete_employee_keeps_rules, lemma_deleted_employee_is_gone, lemma_employee_at,
    lemma_insert_employee_keeps_rules, lemma_insert_user_keeps_rules,
    lemma_update_employee_keeps_rules, lemma_update_user_keeps_rules,
};
use crate::tables::{ascending_by_user_id, with_employee_replaced, Tables};
use vstd::prelude::*;

verus! {

/// One write to the directory, as a value.
#[allow(inconsistent_fields)]
pub enum Write {
    InsertEmployee {
        first_name: Option<Seq<char>>,
        last_name: Option<Seq<char>>,
        email: Option<Seq<char>>,
    },
    UpdateEmployee {
        id: i32,
        first_name: Option<Seq<char>>,
        last_name: Option<Seq<char>>,
        email: Option<Seq<char>>,
    },
    DeleteEmployee { id: i32 },
    InsertUser {
        email: Seq<char>,
        password_hash: Seq<char>,
        role_id: i32,
        created_at: Option<i64>,
        employee_id: Option<i32>,
    },
    CreateUser { email: Seq<char>, role_name: Seq<char> },
    UpdateUser { id: i32, email: Seq<char>, role_name: Seq<char> },
}

/// The tables after one write, accepted or refused.
pub open spec fn after_write(tables: Tables, write: Write) -> Tables {
    match write {
        Write::InsertEmployee { first_name, last_name, email } => tables.after_insert_employee(
            first_name,
            last_name,
            email,
        ),
        Write::UpdateEmployee { id, first_name, last_name, email } => tables.after_update_employee(
            id,
            first_name,
            last_name,
            email,
        ),
        Write::DeleteEmployee { id } => tables.after_delete_employee(id),
        Write::InsertUser {
            email,
            password_hash,
            role_id,
            created_at,
            employee_id,
        } => tables.after_insert_user(email, password_hash, role_id, created_at, employee_id),
        Write::CreateUser { email, role_name } => after_create_user(tables, email, role_name),
        Write::UpdateUser { id, email, role_name } => after_update_user(
            tables,
            id,
            email,
            role_name,
        ),
    }
}

/// The tables after a run of writes, applied one after the other. Each
/// write is one step, so every interleaving of concurrent writes is such
/// a run.
pub open spec fn after_writes(tables: Tables, writes: Seq<Write>) -> Tables
    decreases writes.len(),
{
    if writes.len() == 0 {
        tables
    } else {
        after_write(after_writes(tables, writes.drop_last()), writes.last())
    }
}

/// Every write keeps the rules of the tables.
pub proof fn law_write_keeps_rules(tables: Tables, write: Write)
    requires
        tables.wf(),
    ensures
        after_write(tables, write).wf(),
{
    match write {
        Write::InsertEmployee { first_name, last_name, email } => {
            lemma_insert_employee_keeps_rules(tables, first_name, last_name, email);
        },
        Write::UpdateEmployee { id, first_name, last_name, email } => {
            lemma_update_employee_keeps_rules(tables, id, first_name, last_name, email);
        },
        Write::DeleteEmployee { id } => {
            lemma_delete_employee_keeps_rules(tables, id);
        },
        Write::InsertUser { email, password_hash, role_id, created_at, employee_id } => {
            lemma_insert_user_keeps_rules(
                tables,
                email,
                password_hash,
                role_id,
                created_at,
                employee_id,
            );
        },
        Write::CreateUser { email, role_name } => {
            if let Some(role) = role_of_name(role_name) {
                lemma_insert_user_keeps_rules(
                    tables,
                    email,
                    Seq::empty(),
                    role.number(),
                    None,
                    None,
                );
            }
        },
        Write::UpdateUser { id, email, role_name } => {
            if let Some(role) = role_of_name(role_name) {
                lemma_update_user_keeps_rules(tables, id, email, role.number());
            }
        },
    }
}

/// Every run of writes keeps the rules of the tables.
pub proof fn law_writes_keep_rules(tables: Tables, writes: Seq<Write>)
    requires
        tables.wf(),
    ensures
        after_writes(tables, writes).wf(),
    decreases writes.len(),
{
    if writes.len() > 0 {
        law_writes_keep_rules(tables, writes.drop_last());
        law_write_keeps_rules(after_writes(tables, writes.drop_last()), writes.last());
    }
}

/// A created employee gets a key that is new: no employee holds it before
/// the insert, the table has never handed it out, and afterwards exactly
/// one row of the table holds it, the new one.
pub proof fn law_created_employee_key_is_new(
    tables: Tables,
    first_name: Option<Seq<char>>,
    last_name: Option<Seq<char>>,
    email: Option<Seq<char>>,
)
    requires
        tables.wf(),
        tables.insert_employee_outcome(first_name, last_name, email) is Ok,
    ensures
        ({
            let row = tables.insert_employee_outcome(first_name, last_name, email)->Ok_0;
            let after = tables.after_insert_employee(first_name, last_name, email);
            &&& !tables.has_employee(row.id)
            &&& row.id > tables.last_employee_id
            &&& after.has_employee(row.id)
            &&& after.employee(row.id) == row
            &&& forall|i: int, j: int|
                0 <= i < after.employees.len() && 0 <= j < after.employees.len() && (
                #[trigger] after.employees[i]).id == (#[trigger] after.employees[j]).id ==> i
                    == j
        }),
{
    let row = tables.insert_employee_outcome(first_name, last_name, email)->Ok_0;
    let after = tables.after_insert_employee(first_name, last_name, email);
    lemma_insert_employee_keeps_rules(tables, first_name, last_name, email);
    let n = tables.employees.len() as int;
    assert(after.employees[n] == row);
    lemma_employee_at(after, n);
    assert forall|i: int, j: int|
        0 <= i < after.employees.len() && 0 <= j < after.employees.len() && (
        #[trigger] after.employees[i]).id == (#[trigger] after.employees[j]).id implies i
        == j by {
        if i < j {
            assert(after.employees[i].id < after.employees[j].id);
        } else if j < i {
            assert(after.employees[j].id < after.employees[i].id);
        }
    }
}

/// Updating an employee that does not exist is `NotFound`, whatever the
/// new fields are, and leaves the tables as they were: no row is created
/// in its place.
pub proof fn law_update_of_missing_employee(
    tables: Tables,
    id: i32,
    first_name: Option<Seq<char>>,
    last_name: Option<Seq<char>>,
    email: Option<Seq<char>>,
)
    requires
        !tables.has_employee(id),
    ensures
        tables.update_employee_outcome(id, first_name, last_name, email) == Err::<
            EmployeeRow,
            DirectoryError,
        >(DirectoryError::NotFound),
        tables.after_update_employee(id, first_name, last_name, email) == tables,
{
}

/// Deleting an employee that a user points at succeeds, removes the
/// employee and keeps the user: the user's row is the same but for the
/// reference, which is cleared, and the joined view still lists the user,
/// at the same place, with no employee and no employee name. Every other
/// user row is left as it was.
pub proof fn law_delete_clears_reference(tables: Tables, at: int, id: i32)
    requires
        tables.wf(),
        0 <= at < tables.users.len(),
        tables.users[at].employee_id == Some(id),
    ensures
        tables.delete_employee_outcome(id) == Ok::<(), DirectoryError>(()),
        ({
            let after = tables.after_delete_employee(id);
            let view = after.users_extended();
            &&& !after.has_employee(id)
            &&& after.users.len() == tables.users.len()
            &&& after.users[at] == UserRow { employee_id: None, ..tables.users[at] }
            &&& after.has_user(tables.users[at].id)
            &&& view.len() == tables.users.len()
            &&& view[at].user_id == tables.users[at].id
            &&& view[at].employee_id is None
            &&& view[at].employee_name is None
            &&& forall|other: int|
                0 <= other < tables.users.len() && other != at ==> #[trigger] after.users[other]
                    == tables.users[other]
        }),
{
    let after = tables.after_delete_employee(id);
    assert(tables.has_employee(id));
    lemma_deleted_employee_is_gone(tables, id);
    assert(after.users[at].id == tables.users[at].id);
    assert forall|other: int|
        0 <= other < tables.users.len() && other != at implies #[trigger] after.users[other]
        == tables.users[other] by {
        if other < at {
            assert(tables.users[other].employee_id != tables.users[at].employee_id);
        } else {
            assert(tables.users[at].employee_id != tables.users[other].employee_id);
        }
    }
}

/// The joined view lists the users in strictly ascending order of
/// `user_id`, in every state that a run of writes can reach.
pub proof fn law_view_is_ascending(tables: Tables, writes: Seq<Write>)
    requires
        tables.wf(),
    ensures
        ascending_by_user_id(after_writes(tables, writes).users_extended()),
        after_writes(tables, writes).users_extended().len() == after_writes(
            tables,
            writes,
        ).users.len(),
{
    law_writes_keep_rules(tables, writes);
    let reached = after_writes(tables, writes);
    let view = reached.users_extended();
    assert forall|i: int, j: int| 0 <= i < j < view.len() implies (#[trigger] view[i]).user_id < (
    #[trigger] view[j]).user_id by {
        assert(reached.users[i].id < reached.users[j].id);
    }
}

/// Of two employees created one after the other with the same email, the
/// second is refused with `ConstraintViolation` and changes nothing,
/// whatever the names are.
pub proof fn law_same_email_is_refused(
    tables: Tables,
    first: (Option<Seq<char>>, Option<Seq<char>>),
    second: (Option<Seq<char>>, Option<Seq<char>>),
    email: Seq<char>,
)
    requires
        tables.wf(),
        tables.insert_employee_outcome(first.0, first.1, Some(email)) is Ok,
    ensures
        ({
            let after = tables.after_insert_employee(first.0, first.1, Some(email));
            &&& after.insert_employee_outcome(second.0, second.1, Some(email)) == Err::<
                EmployeeRow,
                DirectoryError,
            >(DirectoryError::ConstraintViolation)
            &&& after.after_insert_employee(second.0, second.1, Some(email)) == after
        }),
{
    let after = tables.after_insert_employee(first.0, first.1, Some(email));
    let n = tables.employees.len() as int;
    assert(after.employees[n].email == Some(email));
    assert(Some(after.employees[n].id) != None::<i32>);
    assert(after.employee_email_clash(None, Some(email)));
}

/// An employee without an email collides with nothing: creating or
/// updating one is never a `ConstraintViolation`, however many employees
/// without an email there are already.
pub proof fn law_null_email_never_collides(
    tables: Tables,
    id: i32,
    first_name: Option<Seq<char>>,
    last_name: Option<Seq<char>>,
)
    ensures
        tables.insert_employee_outcome(first_name, last_name, None) != Err::<
            EmployeeRow,
            DirectoryError,
        >(DirectoryError::ConstraintViolation),
        tables.last_employee_id < i32::MAX ==> tables.insert_employee_outcome(
            first_name,
            last_name,
            None,
        ) is Ok,
        tables.update_employee_outcome(id, first_name, last_name, None) != Err::<
            EmployeeRow,
            DirectoryError,
        >(DirectoryError::ConstraintViolation),
{
}

/// Creating a user under a name that is none of the five role names is
/// `InvalidRole` and writes nothing, whatever the tables hold.
pub proof fn law_unknown_role_writes_nothing(tables: Tables, email: Seq<char>, role_name: Seq<char>)
    requires
        role_name != Role::Admin.label(),
        role_name != Role::Manager.label(),
        role_name != Role::Hr.label(),
        role_name != Role::It.label(),
        role_name != Role::Employee.label(),
    ensures
        create_user_outcome(tables, email, role_name) == Err::<UserView, DirectoryError>(
            DirectoryError::InvalidRole,
        ),
        after_create_user(tables, email, role_name) == tables,
{
    lemma_role_name_known(role_name);
}

/// Updating an employee a second time with the same fields returns what
/// the first update returned and leaves the tables as the first left
/// them.
pub proof fn law_update_employee_is_idempotent(
    tables: Tables,
    id: i32,
    first_name: Option<Seq<char>>,
    last_name: Option<Seq<char>>,
    email: Option<Seq<char>>,
)
    requires
        tables.wf(),
    ensures
        ({
            let once = tables.after_update_employee(id, first_name, last_name, email);
            &&& once.after_update_employee(id, first_name, last_name, email) == once
            &&& once.update_employee_outcome(id, first_name, last_name, email)
                == tables.update_employee_outcome(id, first_name, last_name, email)
        }),
{
    let once = tables.after_update_employee(id, first_name, last_name, email);
    if let Ok(row) = tables.update_employee_outcome(id, first_name, last_name, email) {
        let at = choose|k: int|
            0 <= k < tables.employees.len() && (#[trigger] tables.employees[k]).id == id;
        assert(once.employees[at].id == id);
        assert(once.has_employee(id));
        if once.employee_email_clash(Some(id), email) {
            let other = choose|k: int|
                0 <= k < once.employees.len() && Some((#[trigger] once.employees[k]).id) != Some(id)
                    && once.employees[k].email == email;
            assert(once.employees[other] == tables.employees[other]);
            assert(Some(tables.employees[other].id) != Some(id));
            assert(tables.employee_email_clash(Some(id), email));
        }
        assert(with_employee_replaced(once.employees, row) =~= once.employees);
    }
}

/// Deleting an employee a second time finds nothing to delete and leaves
/// the tables as the first delete left them.
pub proof fn law_delete_employee_is_idempotent(tables: Tables, id: i32)
    requires
        tables.wf(),
    ensures
        ({
            let once = tables.after_delete_employee(id);
            &&& once.delete_employee_outcome(id) == Err::<(), DirectoryError>(
                DirectoryError::NotFound,
            )
            &&& once.after_delete_employee(id) == once
        }),
{
    if tables.has_employee(id) {
        lemma_deleted_employee_is_gone(tables, id);
    }
}

} // verus!
