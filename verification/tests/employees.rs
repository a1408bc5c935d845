use employee_directory::db::{
    create_employee, delete_employee, get_employees_server, update_employee, Employee,
};
use employee_directory::entities::employee::Model;
use employee_directory::error::DirectoryError;
use employee_directory::store::Directory;
use employee_directory::text::{copy_text, same_text, text_or_empty};

fn text(s: &str) -> String {
    s.to_string()
}

#[test]
fn empty_directory_lists_no_employee() {
    let db = Directory::new();
    assert_eq!(get_employees_server(&db), Ok(vec![]));
    assert_eq!(db.find_employees(), vec![]);
    assert_eq!(db.find_employee(1), Err(DirectoryError::NotFound));
}

#[test]
fn created_employees_get_keys_one_two_three() {
    let mut db = Directory::new();
    let a = create_employee(&mut db, text("Ada"), text("Lovelace"), text("ada@x.io")).unwrap();
    let b = create_employee(&mut db, text("Alan"), text("Turing"), text("alan@x.io")).unwrap();
    let c = create_employee(&mut db, text("Grace"), text("Hopper"), text("grace@x.io")).unwrap();
    assert_eq!((a.id, b.id, c.id), (1, 2, 3));
    let listed = get_employees_server(&db).unwrap();
    assert_eq!(listed, vec![a, b, c]);
}

#[test]
fn created_employee_is_returned_as_stored() {
    let mut db = Directory::new();
    let made = create_employee(&mut db, text("Ada"), text("Lovelace"), text("ada@x.io")).unwrap();
    assert_eq!(
        made,
        Employee {
            id: 1,
            first_name: Some(text("Ada")),
            last_name: Some(text("Lovelace")),
            email: Some(text("ada@x.io")),
        }
    );
    assert_eq!(
        db.find_employee(1),
        Ok(Model {
            id: 1,
            first_name: Some(text("Ada")),
            last_name: Some(text("Lovelace")),
            email: Some(text("ada@x.io")),
        })
    );
}

#[test]
fn empty_fields_are_stored_as_they_are() {
    let mut db = Directory::new();
    let made = create_employee(&mut db, text(""), text(""), text("")).unwrap();
    assert_eq!(made.first_name, Some(text("")));
    assert_eq!(made.last_name, Some(text("")));
    assert_eq!(made.email, Some(text("")));
    // The empty email is a value like any other: a second one collides.
    assert_eq!(
        create_employee(&mut db, text("x"), text("y"), text("")),
        Err(DirectoryError::ConstraintViolation)
    );
}

#[test]
fn key_of_a_deleted_employee_is_not_used_again() {
    let mut db = Directory::new();
    create_employee(&mut db, text("Ada"), text("Lovelace"), text("ada@x.io")).unwrap();
    delete_employee(&mut db, 1).unwrap();
    let next = create_employee(&mut db, text("Ada"), text("Lovelace"), text("ada@x.io")).unwrap();
    assert_eq!(next.id, 2);
    assert_eq!(db.find_employee(1), Err(DirectoryError::NotFound));
}

#[test]
fn refused_create_uses_up_no_key() {
    let mut db = Directory::new();
    create_employee(&mut db, text("Ada"), text("Lovelace"), text("ada@x.io")).unwrap();
    assert_eq!(
        create_employee(&mut db, text("Other"), text("Person"), text("ada@x.io")),
        Err(DirectoryError::ConstraintViolation)
    );
    let next = create_employee(&mut db, text("Alan"), text("Turing"), text("alan@x.io")).unwrap();
    assert_eq!(next.id, 2);
    assert_eq!(db.find_employees().len(), 2);
}

#[test]
fn second_employee_with_same_email_is_refused() {
    let mut db = Directory::new();
    create_employee(&mut db, text("Ada"), text("Lovelace"), text("ada@x.io")).unwrap();
    let before = db.find_employees();
    assert_eq!(
        create_employee(&mut db, text("Augusta"), text("King"), text("ada@x.io")),
        Err(DirectoryError::ConstraintViolation)
    );
    assert_eq!(db.find_employees(), before);
}

#[test]
fn emails_are_compared_exactly() {
    let mut db = Directory::new();
    create_employee(&mut db, text("Ada"), text("Lovelace"), text("ada@x.io")).unwrap();
    assert!(create_employee(&mut db, text("Ada"), text("Lovelace"), text("ADA@x.io")).is_ok());
    assert!(create_employee(&mut db, text("Ada"), text("Lovelace"), text("ada@x.io ")).is_ok());
}

#[test]
fn employees_without_email_never_collide() {
    let mut db = Directory::new();
    let a = db.insert_employee(Some(text("A")), None, None).unwrap();
    let b = db.insert_employee(Some(text("B")), None, None).unwrap();
    let c = db.insert_employee(None, None, None).unwrap();
    assert_eq!((a.id, b.id, c.id), (1, 2, 3));
    assert_eq!(a.email, None);
    assert_eq!(db.find_employees().len(), 3);
    // Nor does clearing an email by an update.
    let d = db.insert_employee(None, None, Some(text("d@x.io"))).unwrap();
    assert_eq!(db.update_employee(d.id, None, None, None).unwrap().email, None);
}

#[test]
fn update_replaces_the_three_fields_and_keeps_the_key() {
    let mut db = Directory::new();
    create_employee(&mut db, text("Ada"), text("Lovelace"), text("ada@x.io")).unwrap();
    create_employee(&mut db, text("Alan"), text("Turing"), text("alan@x.io")).unwrap();
    let changed = update_employee(&mut db, 1, text("Augusta"), text("King"), text("king@x.io")).unwrap();
    assert_eq!(
        changed,
        Employee {
            id: 1,
            first_name: Some(text("Augusta")),
            last_name: Some(text("King")),
            email: Some(text("king@x.io")),
        }
    );
    let listed = get_employees_server(&db).unwrap();
    assert_eq!(listed.len(), 2);
    assert_eq!(listed[0], changed);
    assert_eq!(listed[1].first_name, Some(text("Alan")));
}

#[test]
fn update_may_keep_its_own_email() {
    let mut db = Directory::new();
    create_employee(&mut db, text("Ada"), text("Lovelace"), text("ada@x.io")).unwrap();
    let changed = update_employee(&mut db, 1, text("Ada"), text("King"), text("ada@x.io")).unwrap();
    assert_eq!(changed.last_name, Some(text("King")));
}

#[test]
fn update_to_an_email_of_another_employee_is_refused() {
    let mut db = Directory::new();
    create_employee(&mut db, text("Ada"), text("Lovelace"), text("ada@x.io")).unwrap();
    create_employee(&mut db, text("Alan"), text("Turing"), text("alan@x.io")).unwrap();
    let before = db.find_employees();
    assert_eq!(
        update_employee(&mut db, 2, text("Alan"), text("Turing"), text("ada@x.io")),
        Err(DirectoryError::ConstraintViolation)
    );
    assert_eq!(db.find_employees(), before);
}

#[test]
fn update_of_a_missing_employee_creates_no_row() {
    let mut db = Directory::new();
    assert_eq!(
        update_employee(&mut db, 1, text("Ada"), text("Lovelace"), text("ada@x.io")),
        Err(DirectoryError::NotFound)
    );
    assert_eq!(db.find_employees(), vec![]);
    create_employee(&mut db, text("Ada"), text("Lovelace"), text("ada@x.io")).unwrap();
    for id in [0, -1, 2, i32::MAX, i32::MIN] {
        assert_eq!(
            update_employee(&mut db, id, text("x"), text("y"), text("z")),
            Err(DirectoryError::NotFound)
        );
    }
    assert_eq!(db.find_employees().len(), 1);
}

#[test]
fn update_is_idempotent() {
    let mut db = Directory::new();
    create_employee(&mut db, text("Ada"), text("Lovelace"), text("ada@x.io")).unwrap();
    let once = update_employee(&mut db, 1, text("A"), text("B"), text("c@x.io")).unwrap();
    let state = db.find_employees();
    let twice = update_employee(&mut db, 1, text("A"), text("B"), text("c@x.io")).unwrap();
    assert_eq!(once, twice);
    assert_eq!(db.find_employees(), state);
}

#[test]
fn delete_removes_only_the_named_employee() {
    let mut db = Directory::new();
    create_employee(&mut db, text("Ada"), text("Lovelace"), text("ada@x.io")).unwrap();
    create_employee(&mut db, text("Alan"), text("Turing"), text("alan@x.io")).unwrap();
    create_employee(&mut db, text("Grace"), text("Hopper"), text("grace@x.io")).unwrap();
    assert_eq!(delete_employee(&mut db, 2), Ok(()));
    let ids: Vec<i32> = db.find_employees().iter().map(|e| e.id).collect();
    assert_eq!(ids, vec![1, 3]);
}

#[test]
fn delete_of_a_missing_employee_is_not_found() {
    let mut db = Directory::new();
    assert_eq!(delete_employee(&mut db, 1), Err(DirectoryError::NotFound));
    create_employee(&mut db, text("Ada"), text("Lovelace"), text("ada@x.io")).unwrap();
    assert_eq!(delete_employee(&mut db, 2), Err(DirectoryError::NotFound));
    assert_eq!(delete_employee(&mut db, 1), Ok(()));
    assert_eq!(delete_employee(&mut db, 1), Err(DirectoryError::NotFound));
    assert_eq!(db.find_employees(), vec![]);
}

#[test]
fn email_of_a_deleted_employee_is_free_again() {
    let mut db = Directory::new();
    create_employee(&mut db, text("Ada"), text("Lovelace"), text("ada@x.io")).unwrap();
    delete_employee(&mut db, 1).unwrap();
    assert!(create_employee(&mut db, text("Ada"), text("Lovelace"), text("ada@x.io")).is_ok());
}

#[test]
fn employee_record_copies_the_row() {
    let row = Model { id: 7, first_name: Some(text("Ada")), last_name: None, email: Some(text("a@x.io")) };
    let record = Employee::from(row.clone());
    assert_eq!(record.id, 7);
    assert_eq!(record.first_name, row.first_name);
    assert_eq!(record.last_name, None);
    assert_eq!(record.email, row.email);
}

#[test]
fn full_name_joins_the_parts_with_one_space() {
    let both = Model { id: 1, first_name: Some(text("Ada")), last_name: Some(text("Lovelace")), email: None };
    assert_eq!(both.full_name(), "Ada Lovelace");
    let first = Model { id: 1, first_name: Some(text("Ada")), last_name: None, email: None };
    assert_eq!(first.full_name(), "Ada ");
    let last = Model { id: 1, first_name: None, last_name: Some(text("Lovelace")), email: None };
    assert_eq!(last.full_name(), " Lovelace");
    let none = Model { id: 1, first_name: None, last_name: None, email: None };
    assert_eq!(none.full_name(), " ");
}

#[test]
fn replaced_row_keeps_the_key() {
    let row = Model { id: 4, first_name: Some(text("Ada")), last_name: None, email: None };
    let next = row.replaced(None, Some(text("King")), Some(text("k@x.io")));
    assert_eq!(
        next,
        Model { id: 4, first_name: None, last_name: Some(text("King")), email: Some(text("k@x.io")) }
    );
}

#[test]
fn lookup_by_key_finds_the_row_or_reports_not_found() {
    let mut db = Directory::new();
    create_employee(&mut db, text("Ada"), text("Lovelace"), text("ada@x.io")).unwrap();
    create_employee(&mut db, text("Alan"), text("Turing"), text("alan@x.io")).unwrap();
    assert_eq!(db.find_employee(2).unwrap().first_name, Some(text("Alan")));
    assert_eq!(db.find_employee(1).unwrap().first_name, Some(text("Ada")));
    assert_eq!(db.find_employee(3), Err(DirectoryError::NotFound));
    assert_eq!(db.find_employee(0), Err(DirectoryError::NotFound));
    assert_eq!(db.find_user(1), Err(DirectoryError::NotFound));
}

#[test]
fn nullable_texts_compare_by_value() {
    assert!(same_text(&None, &None));
    assert!(same_text(&Some(text("a")), &Some(text("a"))));
    assert!(!same_text(&Some(text("a")), &Some(text("b"))));
    assert!(!same_text(&Some(text("")), &None));
    assert!(!same_text(&None, &Some(text(""))));
    assert_eq!(copy_text(&Some(text("a"))), Some(text("a")));
    assert_eq!(copy_text(&None), None);
    assert_eq!(text_or_empty(&Some(text("a"))), "a");
    assert_eq!(text_or_empty(&None), "");
}
