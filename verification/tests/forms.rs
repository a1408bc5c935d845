use employee_directory::db::{create_employee, create_user, Employee, User};
use employee_directory::error::DirectoryError;
use employee_directory::forms::{
    save_employee, save_user, EmployeeRequest, ModalMode, UserModalMode, UserRequest,
};
use employee_directory::session::{AuthState, Route};
use employee_directory::store::Directory;

fn text(s: &str) -> String {
    s.to_string()
}

#[test]
fn new_employee_form_opens_empty() {
    let mode = ModalMode::Create;
    assert_eq!(mode.initial_first_name(), "");
    assert_eq!(mode.initial_last_name(), "");
    assert_eq!(mode.initial_email(), "");
    assert_eq!(mode.title(), "Add New Employee");
    assert_eq!(mode.button_text(), "Create");
}

#[test]
fn edit_employee_form_opens_with_the_stored_fields() {
    let mode = ModalMode::Edit(Employee {
        id: 4,
        first_name: Some(text("Ada")),
        last_name: None,
        email: Some(text("ada@x.io")),
    });
    assert_eq!(mode.initial_first_name(), "Ada");
    assert_eq!(mode.initial_last_name(), "");
    assert_eq!(mode.initial_email(), "ada@x.io");
    assert_eq!(mode.title(), "Edit Employee");
    assert_eq!(mode.button_text(), "Update");
    assert_eq!(mode.clone(), mode);
}

#[test]
fn new_employee_form_asks_for_a_create() {
    let request = ModalMode::Create.request(text("Ada"), text("Lovelace"), text("ada@x.io"));
    assert_eq!(
        request,
        EmployeeRequest::Create {
            first_name: text("Ada"),
            last_name: text("Lovelace"),
            email: text("ada@x.io"),
        }
    );
}

#[test]
fn edit_employee_form_asks_for_an_update_by_key() {
    let mode = ModalMode::Edit(Employee { id: 4, first_name: None, last_name: None, email: None });
    let request = mode.request(text("Ada"), text(""), text("ada@x.io"));
    assert_eq!(
        request,
        EmployeeRequest::Update {
            id: 4,
            first_name: text("Ada"),
            last_name: text(""),
            email: text("ada@x.io"),
        }
    );
}

#[test]
fn saving_a_new_employee_creates_it() {
    let mut db = Directory::new();
    let request = ModalMode::Create.request(text("Ada"), text("Lovelace"), text("ada@x.io"));
    assert_eq!(save_employee(&mut db, request).unwrap().id, 1);
    let again = ModalMode::Create.request(text("Ada"), text("Lovelace"), text("ada@x.io"));
    assert_eq!(save_employee(&mut db, again), Err(DirectoryError::ConstraintViolation));
}

#[test]
fn saving_an_edited_employee_updates_it_by_key() {
    let mut db = Directory::new();
    let ada = create_employee(&mut db, text("Ada"), text("Lovelace"), text("ada@x.io")).unwrap();
    let mode = ModalMode::Edit(ada);
    let saved = save_employee(&mut db, mode.request(text("Ada"), text("King"), text("king@x.io")))
        .unwrap();
    assert_eq!(saved.id, 1);
    assert_eq!(saved.last_name, Some(text("King")));
    assert_eq!(db.find_employees().len(), 1);
    db.delete_employee(1).unwrap();
    assert_eq!(
        save_employee(&mut db, mode.request(text("Ada"), text("King"), text("king@x.io"))),
        Err(DirectoryError::NotFound)
    );
    assert_eq!(db.find_employees().len(), 0);
}

#[test]
fn new_user_form_opens_with_the_plain_role() {
    let mode = UserModalMode::Create;
    assert_eq!(mode.initial_email(), "");
    assert_eq!(mode.initial_role(), "ROLE_EMPLOYEE");
    assert_eq!(mode.title(), "Create User");
}

#[test]
fn edit_user_form_opens_with_the_stored_fields() {
    let mode = UserModalMode::Edit(User { id: 2, email: text("u@x.io"), role_name: text("ROLE_HR") });
    assert_eq!(mode.initial_email(), "u@x.io");
    assert_eq!(mode.initial_role(), "ROLE_HR");
    assert_eq!(mode.title(), "Edit User");
    assert_eq!(mode.clone(), mode);
}

#[test]
fn user_form_asks_for_create_or_update() {
    assert_eq!(
        UserModalMode::Create.request(text("u@x.io"), text("ROLE_IT")),
        UserRequest::Create { email: text("u@x.io"), role_name: text("ROLE_IT") }
    );
    let mode = UserModalMode::Edit(User { id: 2, email: text("u@x.io"), role_name: text("ROLE_HR") });
    assert_eq!(
        mode.request(text("v@x.io"), text("ROLE_IT")),
        UserRequest::Update { id: 2, email: text("v@x.io"), role_name: text("ROLE_IT") }
    );
}

#[test]
fn saving_the_user_form_hands_the_outcome_back() {
    let mut db = Directory::new();
    let create = UserModalMode::Create;
    let made = save_user(&mut db, create.request(text("u@x.io"), text("ROLE_EMPLOYEE"))).unwrap();
    assert_eq!(made, User { id: 1, email: text("u@x.io"), role_name: text("ROLE_EMPLOYEE") });
    assert_eq!(
        save_user(&mut db, create.request(text("v@x.io"), text("ROLE_BOSS"))),
        Err(DirectoryError::InvalidRole)
    );
    let mode = UserModalMode::Edit(made);
    let changed = save_user(&mut db, mode.request(text("w@x.io"), text("ROLE_ADMIN"))).unwrap();
    assert_eq!(changed, User { id: 1, email: text("w@x.io"), role_name: text("ROLE_ADMIN") });
    let gone = UserModalMode::Edit(User { id: 9, email: text("x"), role_name: text("ROLE_IT") });
    assert_eq!(
        save_user(&mut db, gone.request(text("z@x.io"), text("ROLE_IT"))),
        Err(DirectoryError::NotFound)
    );
    create_user(&mut db, text("z@x.io"), text("ROLE_IT")).unwrap();
    assert_eq!(
        save_user(&mut db, mode.request(text("z@x.io"), text("ROLE_IT"))),
        Err(DirectoryError::ConstraintViolation)
    );
}

#[test]
fn session_starts_logged_out() {
    let state = AuthState::new();
    assert!(!state.is_logged_in());
    assert!(!state.logged_in);
    assert_eq!(AuthState::default(), state);
    assert!(!state.offers_logout());
}

#[test]
fn login_and_logout_flip_the_flag() {
    let mut state = AuthState::new();
    state.log_in();
    assert!(state.is_logged_in());
    state.log_in();
    assert!(state.is_logged_in());
    state.log_out();
    assert!(!state.is_logged_in());
    state.log_out();
    assert!(!state.is_logged_in());
}

#[test]
fn protected_pages_are_offered_only_after_login() {
    let mut state = AuthState::new();
    assert!(state.offers(Route::Home));
    assert!(state.offers(Route::Login));
    assert!(!state.offers(Route::Employees));
    assert!(!state.offers(Route::Users));
    state.log_in();
    for route in [Route::Home, Route::Login, Route::Employees, Route::Users] {
        assert!(state.offers(route));
    }
    assert!(state.offers_logout());
}

#[test]
fn pages_and_their_paths() {
    assert_eq!(Route::Home.path(), "/");
    assert_eq!(Route::Employees.path(), "/employees");
    assert_eq!(Route::Users.path(), "/users");
    assert_eq!(Route::Login.path(), "/login");
    assert!(!Route::Home.requires_login());
    assert!(!Route::Login.requires_login());
    assert!(Route::Employees.requires_login());
    assert!(Route::Users.requires_login());
}
