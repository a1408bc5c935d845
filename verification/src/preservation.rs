//! Every operation of the storage keeps the rules of the tables: whatever
//! sequence of writes has run, keys are still unique and ascending,
//! unique columns still hold no value twice, and every reference still
//! points at a row that exists.

use crate::entities::employee::EmployeeRow;
use crate::tables::{unlinked, without_employee, Tables};
use vstd::prelude::*;

verus! {

/// Filtering keeps every row when no row has the key.
proof fn lemma_without_absent_employee(rows: Seq<EmployeeRow>, id: i32)
    requires
        forall|i: int| 0 <= i < rows.len() ==> (#[trigger] rows[i]).id != id,
    ensures
        without_employee(rows, id) == rows,
    decreases rows.len(),
{
    reveal(Seq::filter);
    if rows.len() > 0 {
        lemma_without_absent_employee(rows.drop_last(), id);
        assert(rows.drop_last().push(rows.last()) =~= rows);
    } else {
        assert(without_employee(rows, id) =~= rows);
    }
}

/// Where keys are distinct, filtering a key out removes exactly the row
/// that holds it.
pub proof fn lemma_without_employee_removes(rows: Seq<EmployeeRow>, at: int)
    requires
        0 <= at < rows.len(),
        forall|i: int, j: int|
            0 <= i < j < rows.len() ==> (#[trigger] rows[i]).id != (#[trigger] rows[j]).id,
    ensures
        without_employee(rows, rows[at].id) == rows.remove(at),
    decreases rows.len(),
{
    reveal(Seq::filter);
    let id = rows[at].id;
    let front = rows.drop_last();
    if at == rows.len() - 1 {
        assert forall|i: int| 0 <= i < front.len() implies (#[trigger] front[i]).id != id by {
            assert(front[i] == rows[i]);
        }
        lemma_without_absent_employee(front, id);
        assert(rows.remove(at) =~= front);
    } else {
        assert forall|i: int, j: int| 0 <= i < j < front.len() implies (#[trigger] front[i]).id != (
        #[trigger] front[j]).id by {
            assert(front[i] == rows[i] && front[j] == rows[j]);
        }
        assert(front[at] == rows[at]);
        lemma_without_employee_removes(front, at);
        assert(rows.last().id != id);
        assert(front.remove(at).push(rows.last()) =~= rows.remove(at));
    }
}

/// In tables that keep the rules, a deleted employee is gone: no row of
/// the table holds its key afterwards.
pub proof fn lemma_deleted_employee_is_gone(tables: Tables, id: i32)
    requires
        tables.wf(),
        tables.has_employee(id),
    ensures
        !tables.after_delete_employee(id).has_employee(id),
{
    let after = tables.after_delete_employee(id);
    let gone = choose|k: int|
        0 <= k < tables.employees.len() && (#[trigger] tables.employees[k]).id == id;
    lemma_without_employee_removes(tables.employees, gone);
    assert forall|i: int| 0 <= i < after.employees.len() implies (
    #[trigger] after.employees[i]).id != id by {
        let k = if i < gone { i } else { i + 1 };
        assert(after.employees[i] == tables.employees[k]);
        if k < gone {
            assert(tables.employees[k].id < tables.employees[gone].id);
        } else {
            assert(tables.employees[gone].id < tables.employees[k].id);
        }
    }
}

/// In tables that keep the rules, the row found under a key is the one
/// row that holds it.
pub proof fn lemma_employee_at(tables: Tables, at: int)
    requires
        tables.wf(),
        0 <= at < tables.employees.len(),
    ensures
        tables.has_employee(tables.employees[at].id),
        tables.employee(tables.employees[at].id) == tables.employees[at],
{
    let id = tables.employees[at].id;
    let found = choose|i: int|
        0 <= i < tables.employees.len() && (#[trigger] tables.employees[i]).id == id;
    if found < at {
        assert(tables.employees[found].id < tables.employees[at].id);
    } else if at < found {
        assert(tables.employees[at].id < tables.employees[found].id);
    }
}

/// In tables that keep the rules, the row found under a key is the one
/// row that holds it.
pub proof fn lemma_user_at(tables: Tables, at: int)
    requires
        tables.wf(),
        0 <= at < tables.users.len(),
    ensures
        tables.has_user(tables.users[at].id),
        tables.user(tables.users[at].id) == tables.users[at],
{
    let id = tables.users[at].id;
    let found = choose|i: int| 0 <= i < tables.users.len() && (#[trigger] tables.users[i]).id == id;
    if found < at {
        assert(tables.users[found].id < tables.users[at].id);
    } else if at < found {
        assert(tables.users[at].id < tables.users[found].id);
    }
}

/// Inserting an employee, accepted or refused, keeps the rules.
pub proof fn lemma_insert_employee_keeps_rules(
    tables: Tables,
    first_name: Option<Seq<char>>,
    last_name: Option<Seq<char>>,
    email: Option<Seq<char>>,
)
    requires
        tables.wf(),
    ensures
        tables.after_insert_employee(first_name, last_name, email).wf(),
{
    let after = tables.after_insert_employee(first_name, last_name, email);
    if let Ok(row) = tables.insert_employee_outcome(first_name, last_name, email) {
        let n = tables.employees.len() as int;
        assert forall|i: int| 0 <= i < after.employees.len() implies 1 <= (
        #[trigger] after.employees[i]).id <= after.last_employee_id by {
            if i < n {
                assert(after.employees[i] == tables.employees[i]);
            }
        }
        assert forall|i: int, j: int| 0 <= i < j < after.employees.len() implies (
        #[trigger] after.employees[i]).id < (#[trigger] after.employees[j]).id by {
            assert(after.employees[i] == tables.employees[i]);
            if j < n {
                assert(after.employees[j] == tables.employees[j]);
            }
        }
        assert forall|i: int, j: int|
            0 <= i < j < after.employees.len() && (#[trigger] after.employees[i]).email is Some implies after.employees[i].email
            != (#[trigger] after.employees[j]).email by {
            assert(after.employees[i] == tables.employees[i]);
            if j < n {
                assert(after.employees[j] == tables.employees[j]);
            } else if tables.employees[i].email == email {
                assert(Some(tables.employees[i].id) != None::<i32>);
                assert(tables.employee_email_clash(None, email));
            }
        }
        assert forall|i: int| 0 <= i < after.users.len() implies ((
        #[trigger] after.users[i]).employee_id matches Some(target) ==> after.has_employee(
            target,
        )) by {
            if let Some(target) = after.users[i].employee_id {
                assert(tables.has_employee(target));
                let at = choose|k: int|
                    0 <= k < tables.employees.len() && (#[trigger] tables.employees[k]).id
                        == target;
                assert(after.employees[at].id == target);
            }
        }
    }
}

/// Updating an employee, accepted or refused, keeps the rules.
pub proof fn lemma_update_employee_keeps_rules(
    tables: Tables,
    id: i32,
    first_name: Option<Seq<char>>,
    last_name: Option<Seq<char>>,
    email: Option<Seq<char>>,
)
    requires
        tables.wf(),
    ensures
        tables.after_update_employee(id, first_name, last_name, email).wf(),
{
    let after = tables.after_update_employee(id, first_name, last_name, email);
    if let Ok(row) = tables.update_employee_outcome(id, first_name, last_name, email) {
        assert forall|i: int| 0 <= i < after.employees.len() implies (
        #[trigger] after.employees[i]).id == tables.employees[i].id by {}
        assert forall|i: int, j: int|
            0 <= i < j < after.employees.len() && (#[trigger] after.employees[i]).email is Some implies after.employees[i].email
            != (#[trigger] after.employees[j]).email by {
            let a = tables.employees[i];
            let b = tables.employees[j];
            assert(a.id < b.id);
            if a.id == id {
                if b.email == email {
                    assert(Some(b.id) != Some(id));
                    assert(tables.employee_email_clash(Some(id), email));
                }
            } else if b.id == id {
                if a.email == email {
                    assert(Some(a.id) != Some(id));
                    assert(tables.employee_email_clash(Some(id), email));
                }
            }
        }
        assert forall|i: int| 0 <= i < after.users.len() implies ((
        #[trigger] after.users[i]).employee_id matches Some(target) ==> after.has_employee(
            target,
        )) by {
            if let Some(target) = after.users[i].employee_id {
                assert(tables.has_employee(target));
                let at = choose|k: int|
                    0 <= k < tables.employees.len() && (#[trigger] tables.employees[k]).id
                        == target;
                assert(after.employees[at].id == target);
            }
        }
    }
}

/// Deleting an employee, accepted or refused, keeps the rules: no user
/// is left pointing at the row that went away.
pub proof fn lemma_delete_employee_keeps_rules(tables: Tables, id: i32)
    requires
        tables.wf(),
    ensures
        tables.after_delete_employee(id).wf(),
{
    let after = tables.after_delete_employee(id);
    if tables.has_employee(id) {
        let at = choose|k: int|
            0 <= k < tables.employees.len() && (#[trigger] tables.employees[k]).id == id;
        lemma_without_employee_removes(tables.employees, at);
        assert(after.employees == tables.employees.remove(at));
        assert forall|i: int| 0 <= i < after.employees.len() implies (
        #[trigger] after.employees[i]) == tables.employees[if i < at {
            i
        } else {
            i + 1
        }] by {}
        assert forall|i: int| 0 <= i < after.employees.len() implies 1 <= (
        #[trigger] after.employees[i]).id <= after.last_employee_id by {
            let k = if i < at { i } else { i + 1 };
            assert(after.employees[i] == tables.employees[k]);
        }
        assert forall|i: int, j: int| 0 <= i < j < after.employees.len() implies (
        #[trigger] after.employees[i]).id < (#[trigger] after.employees[j]).id by {
            let a = if i < at { i } else { i + 1 };
            let b = if j < at { j } else { j + 1 };
            assert(after.employees[i] == tables.employees[a]);
            assert(after.employees[j] == tables.employees[b]);
        }
        assert forall|i: int, j: int|
            0 <= i < j < after.employees.len() && (#[trigger] after.employees[i]).email is Some implies after.employees[i].email
            != (#[trigger] after.employees[j]).email by {
            let a = if i < at { i } else { i + 1 };
            let b = if j < at { j } else { j + 1 };
            assert(after.employees[i] == tables.employees[a]);
            assert(after.employees[j] == tables.employees[b]);
        }
        assert forall|i: int| 0 <= i < after.users.len() implies (#[trigger] after.users[i])
            == unlinked(tables.users[i], id) by {}
        assert forall|i: int| 0 <= i < after.users.len() implies ((
        #[trigger] after.users[i]).employee_id matches Some(target) ==> after.has_employee(
            target,
        )) by {
            if let Some(target) = after.users[i].employee_id {
                assert(tables.users[i].employee_id == Some(target));
                assert(target != id);
                assert(tables.has_employee(target));
                let k = choose|k: int|
                    0 <= k < tables.employees.len() && (#[trigger] tables.employees[k]).id
                        == target;
                let moved = if k < at { k } else { k - 1 };
                assert(after.employees[moved] == tables.employees[k]);
            }
        }
        assert forall|i: int, j: int|
            0 <= i < j < after.users.len() && (#[trigger] after.users[i]).employee_id is Some implies after.users[i].employee_id
            != (#[trigger] after.users[j]).employee_id by {
            assert(after.users[i] == unlinked(tables.users[i], id));
            assert(after.users[j] == unlinked(tables.users[j], id));
        }
    }
}

/// Inserting a user, accepted or refused, keeps the rules.
pub proof fn lemma_insert_user_keeps_rules(
    tables: Tables,
    email: Seq<char>,
    password_hash: Seq<char>,
    role_id: i32,
    created_at: Option<i64>,
    employee_id: Option<i32>,
)
    requires
        tables.wf(),
    ensures
        tables.after_insert_user(email, password_hash, role_id, created_at, employee_id).wf(),
{
    let after = tables.after_insert_user(email, password_hash, role_id, created_at, employee_id);
    if let Ok(row) = tables.insert_user_outcome(
        email,
        password_hash,
        role_id,
        created_at,
        employee_id,
    ) {
        let n = tables.users.len() as int;
        assert forall|i: int| 0 <= i < n implies (#[trigger] after.users[i])
            == tables.users[i] by {}
        assert(after.users[n] == row);
        assert forall|i: int, j: int| 0 <= i < j < after.users.len() implies (
        #[trigger] after.users[i]).id < (#[trigger] after.users[j]).id by {
            assert(after.users[i] == tables.users[i]);
            if j < n {
                assert(after.users[j] == tables.users[j]);
            }
        }
        assert forall|i: int, j: int| 0 <= i < j < after.users.len() implies (
        #[trigger] after.users[i]).email != (#[trigger] after.users[j]).email by {
            assert(after.users[i] == tables.users[i]);
            if j < n {
                assert(after.users[j] == tables.users[j]);
            } else if tables.users[i].email == email {
                assert(Some(tables.users[i].id) != None::<i32>);
                assert(tables.user_email_clash(None, email));
            }
        }
        assert forall|i: int| 0 <= i < after.users.len() implies 1 <= (
        #[trigger] after.users[i]).id <= after.last_user_id by {
            if i < n {
                assert(after.users[i] == tables.users[i]);
            }
        }
        assert forall|i: int, j: int|
            0 <= i < j < after.users.len() && (#[trigger] after.users[i]).employee_id is Some implies after.users[i].employee_id
            != (#[trigger] after.users[j]).employee_id by {
            assert(after.users[i] == tables.users[i]);
            if j < n {
                assert(after.users[j] == tables.users[j]);
            } else if tables.users[i].employee_id == employee_id {
                assert(Some(tables.users[i].id) != None::<i32>);
                assert(tables.employee_link_clash(None, employee_id));
            }
        }
    }
}

/// Updating a user, accepted or refused, keeps the rules.
pub proof fn lemma_update_user_keeps_rules(
    tables: Tables,
    id: i32,
    email: Seq<char>,
    role_id: i32,
)
    requires
        tables.wf(),
    ensures
        tables.after_update_user(id, email, role_id).wf(),
{
    let after = tables.after_update_user(id, email, role_id);
    if let Ok(row) = tables.update_user_outcome(id, email, role_id) {
        let at = choose|k: int| 0 <= k < tables.users.len() && (#[trigger] tables.users[k]).id == id;
        lemma_user_at(tables, at);
        assert(row.employee_id == tables.users[at].employee_id);
        assert forall|i: int| 0 <= i < after.users.len() implies (#[trigger] after.users[i]).id
            == tables.users[i].id && after.users[i].employee_id
            == tables.users[i].employee_id by {
            if tables.users[i].id == id {
                if i < at {
                    assert(tables.users[i].id < tables.users[at].id);
                } else if at < i {
                    assert(tables.users[at].id < tables.users[i].id);
                }
            }
        }
        assert forall|i: int, j: int| 0 <= i < j < after.users.len() implies (
        #[trigger] after.users[i]).email != (#[trigger] after.users[j]).email by {
            let a = tables.users[i];
            let b = tables.users[j];
            assert(a.id < b.id);
            if a.id == id {
                if b.email == email {
                    assert(Some(b.id) != Some(id));
                    assert(tables.user_email_clash(Some(id), email));
                }
            } else if b.id == id {
                if a.email == email {
                    assert(Some(a.id) != Some(id));
                    assert(tables.user_email_clash(Some(id), email));
                }
            }
        }
        assert forall|i: int, j: int|
            0 <= i < j < after.users.len() && (#[trigger] after.users[i]).employee_id is Some implies after.users[i].employee_id
            != (#[trigger] after.users[j]).employee_id by {
            assert(after.users[i].employee_id == tables.users[i].employee_id);
            assert(after.users[j].employee_id == tables.users[j].employee_id);
        }
    }
}

} // verus!
