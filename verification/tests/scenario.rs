use employee_directory::db::{create_employee, delete_employee, update_employee};
use employee_directory::error::DirectoryError;
use employee_directory::store::Directory;

#[test]
fn create_twice_delete_then_update() {
    let mut db = Directory::new();
    let ada = create_employee(&mut db, "Ada".to_string(), "Lovelace".to_string(), "ada@x.io".to_string())
        .unwrap();
    assert_eq!(ada.id, 1);
    assert_eq!(ada.first_name, Some("Ada".to_string()));
    assert_eq!(ada.last_name, Some("Lovelace".to_string()));
    assert_eq!(ada.email, Some("ada@x.io".to_string()));

    let again = create_employee(&mut db, "Ada".to_string(), "Lovelace".to_string(), "ada@x.io".to_string());
    assert_eq!(again, Err(DirectoryError::ConstraintViolation));

    assert_eq!(delete_employee(&mut db, 1), Ok(()));

    let late = update_employee(&mut db, 1, "Ada".to_string(), "King".to_string(), "ada@x.io".to_string());
    assert_eq!(late, Err(DirectoryError::NotFound));
}
