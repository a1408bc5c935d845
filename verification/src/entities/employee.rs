//! The `employee` table.

use crate::text::{copy_text, or_empty, text_of, text_or_empty};
use vstd::string::StringExecFns;
use vstd::prelude::*;

verus! {

/// One row of the `employee` table.
#[derive(Debug, PartialEq, Eq)]
pub struct Model {
    /// Surrogate key, assigned by the table on insert.
    pub id: i32,
    pub first_name: Option<String>,
    pub last_name: Option<String>,
    /// Unique among the rows where it is present.
    pub email: Option<String>,
}

/// The mathematical value of an `employee` row.
pub struct EmployeeRow {
    pub id: i32,
    pub first_name: Option<Seq<char>>,
    pub last_name: Option<Seq<char>>,
    pub email: Option<Seq<char>>,
}

impl View for Model {
    type V = EmployeeRow;

    open spec fn view(&self) -> EmployeeRow {
        EmployeeRow {
            id: self.id,
            first_name: text_of(self.first_name),
            last_name: text_of(self.last_name),
            email: text_of(self.email),
        }
    }
}

impl Clone for Model {
    fn clone(&self) -> (copy: Self)
        ensures
            copy == *self,
    {
        Model {
            id: self.id,
            first_name: copy_text(&self.first_name),
            last_name: copy_text(&self.last_name),
            email: copy_text(&self.email),
        }
    }
}

/// The name under which the joined view shows an employee: first and last
/// name with one space between them, a missing part read as empty.
pub open spec fn full_name(employee: EmployeeRow) -> Seq<char> {
    or_empty(employee.first_name).push(' ') + or_empty(employee.last_name)
}

impl Model {
    /// The name under which the joined view shows this employee.
    pub fn full_name(&self) -> (name: String)
        ensures
            name@ == full_name(self@),
    {
        let mut name = text_or_empty(&self.first_name);
        let last = text_or_empty(&self.last_name);
        proof {
            reveal_strlit(" ");
            assert(" "@ =~= seq![' ']);
        }
        name.append(" ");
        name.append(last.as_str());
        assert(name@ =~= full_name(self@));
        name
    }

    /// The row that an update leaves behind: the key is kept and the three
    /// editable columns are replaced as a whole.
    pub fn replaced(
        &self,
        first_name: Option<String>,
        last_name: Option<String>,
        email: Option<String>,
    ) -> (row: Model)
        ensures
            row == (Model { id: self.id, first_name, last_name, email }),
    {
        Model { id: self.id, first_name, last_name, email }
    }
}

/// What happens to a referencing row when the row it points at is deleted
/// or its key changes.
#[derive(Clone, Copy, Debug, PartialEq, Eq, Structural)]
pub enum ForeignKeyAction {
    /// The referencing row is left as it is.
    NoAction,
    /// The reference is cleared; the referencing row stays.
    SetNull,
}

/// The relations that start at the `employee` table.
#[derive(Clone, Copy, Debug, PartialEq, Eq, Structural)]
pub enum Relation {
    /// At most one user points at an employee, through `users.employee_id`.
    User,
}

} // verus!
