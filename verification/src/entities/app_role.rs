//! The `app_role` table: a fixed, read-only set of roles.

use vstd::prelude::*;

verus! {

/// One of the known roles. The table is seeded with exactly these rows
/// and nothing in the directory adds, changes or removes one.
#[derive(Clone, Copy, Debug, PartialEq, Eq, Structural)]
pub enum Role {
    Admin,
    Manager,
    Hr,
    It,
    Employee,
}

impl Role {
    /// The key of the role's row.
    pub open spec fn number(self) -> i32 {
        match self {
            Role::Admin => 1,
            Role::Manager => 2,
            Role::Hr => 3,
            Role::It => 4,
            Role::Employee => 5,
        }
    }

    /// The name of the role, as the `name` column holds it.
    pub open spec fn label(self) -> Seq<char> {
        match self {
            Role::Admin => "ROLE_ADMIN"@,
            Role::Manager => "ROLE_MANAGER"@,
            Role::Hr => "ROLE_HR"@,
            Role::It => "ROLE_IT"@,
            Role::Employee => "ROLE_EMPLOYEE"@,
        }
    }

    /// The key of the role's row.
    pub fn id(&self) -> (id: i32)
        ensures
            id == self.number(),
    {
        match self {
            Role::Admin => 1,
            Role::Manager => 2,
            Role::Hr => 3,
            Role::It => 4,
            Role::Employee => 5,
        }
    }

    /// The name of the role.
    pub fn name(&self) -> (name: String)
        ensures
            name@ == self.label(),
    {
        match self {
            Role::Admin => "ROLE_ADMIN".to_owned(),
            Role::Manager => "ROLE_MANAGER".to_owned(),
            Role::Hr => "ROLE_HR".to_owned(),
            Role::It => "ROLE_IT".to_owned(),
            Role::Employee => "ROLE_EMPLOYEE".to_owned(),
        }
    }

    /// The role whose row has the key `id`, if there is one.
    pub fn from_id(id: i32) -> (role: Option<Role>)
        ensures
            role == role_of_id(id),
    {
        if id == 1 {
            Some(Role::Admin)
        } else if id == 2 {
            Some(Role::Manager)
        } else if id == 3 {
            Some(Role::Hr)
        } else if id == 4 {
            Some(Role::It)
        } else if id == 5 {
            Some(Role::Employee)
        } else {
            None
        }
    }

    /// Resolves a role name. A name outside the known set resolves to
    /// nothing; the comparison is exact, with no trimming or case folding.
    pub fn from_name(name: &str) -> (role: Option<Role>)
        ensures
            role == role_of_name(name@),
    {
        let wanted = name.to_owned();
        if wanted == Role::Admin.name() {
            Some(Role::Admin)
        } else if wanted == Role::Manager.name() {
            Some(Role::Manager)
        } else if wanted == Role::Hr.name() {
            Some(Role::Hr)
        } else if wanted == Role::It.name() {
            Some(Role::It)
        } else if wanted == Role::Employee.name() {
            Some(Role::Employee)
        } else {
            None
        }
    }
}

/// The role stored under a key, if the key is one of the table's.
pub open spec fn role_of_id(id: i32) -> Option<Role> {
    if id == 1 {
        Some(Role::Admin)
    } else if id == 2 {
        Some(Role::Manager)
    } else if id == 3 {
        Some(Role::Hr)
    } else if id == 4 {
        Some(Role::It)
    } else if id == 5 {
        Some(Role::Employee)
    } else {
        None
    }
}

/// The role that a name denotes, if the name is one of the known set.
pub open spec fn role_of_name(name: Seq<char>) -> Option<Role> {
    if name == Role::Admin.label() {
        Some(Role::Admin)
    } else if name == Role::Manager.label() {
        Some(Role::Manager)
    } else if name == Role::Hr.label() {
        Some(Role::Hr)
    } else if name == Role::It.label() {
        Some(Role::It)
    } else if name == Role::Employee.label() {
        Some(Role::Employee)
    } else {
        None
    }
}

/// The name stored under a key; the empty text for a key that the table
/// does not hold.
pub open spec fn role_name_of_id(id: i32) -> Seq<char> {
    match role_of_id(id) {
        Some(role) => role.label(),
        None => Seq::empty(),
    }
}

/// Keys and names both identify a role: looking a role up by its own key
/// or by its own name gives that role back, and a name resolves exactly
/// when it is the name of some role.
pub proof fn lemma_role_lookup(role: Role)
    ensures
        role_of_id(role.number()) == Some(role),
        role_of_name(role.label()) == Some(role),
{
    reveal_strlit("ROLE_ADMIN");
    reveal_strlit("ROLE_MANAGER");
    reveal_strlit("ROLE_HR");
    reveal_strlit("ROLE_IT");
    reveal_strlit("ROLE_EMPLOYEE");
    assert("ROLE_ADMIN"@.len() == 10);
    assert("ROLE_MANAGER"@.len() == 12);
    assert("ROLE_HR"@.len() == 7);
    assert("ROLE_IT"@.len() == 7);
    assert("ROLE_EMPLOYEE"@.len() == 13);
    assert("ROLE_HR"@[5] == 'H');
    assert("ROLE_IT"@[5] == 'I');
}

/// A name resolves exactly when it is the name of some role.
pub proof fn lemma_role_name_known(name: Seq<char>)
    ensures
        role_of_name(name) is Some <==> exists|role: Role| name == #[trigger] role.label(),
        role_of_name(name) matches Some(role) ==> role.label() == name,
{
    if role_of_name(name) is None {
        assert forall|role: Role| name != #[trigger] role.label() by {
            match role {
                Role::Admin => {},
                Role::Manager => {},
                Role::Hr => {},
                Role::It => {},
                Role::Employee => {},
            }
        }
    } else {
        let role = role_of_name(name)->Some_0;
        assert(name == role.label());
    }
}

} // verus!
