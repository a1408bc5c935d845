//! The session gate: one flag that says whether the caller has logged
//! in, and the pages that the flag opens.

use vstd::prelude::*;

verus! {

/// The pages of the application.
#[derive(Clone, Copy, Debug, PartialEq, Eq, Structural)]
pub enum Route {
    Home,
    Employees,
    Users,
    Login,
}

impl Route {
    /// Whether the page manages employees or users and is therefore
    /// offered only to a caller who has logged in.
    pub open spec fn protected(self) -> bool {
        self == Route::Employees || self == Route::Users
    }

    /// The path under which the page is served.
    pub fn path(&self) -> (path: &'static str)
        ensures
            path@ == match *self {
                Route::Home => "/"@,
                Route::Employees => "/employees"@,
                Route::Users => "/users"@,
                Route::Login => "/login"@,
            },
    {
        match self {
            Route::Home => "/",
            Route::Employees => "/employees",
            Route::Users => "/users",
            Route::Login => "/login",
        }
    }

    /// Whether the page is offered only to a caller who has logged in.
    pub fn requires_login(&self) -> (needed: bool)
        ensures
            needed == self.protected(),
    {
        match self {
            Route::Employees | Route::Users => true,
            Route::Home | Route::Login => false,
        }
    }
}

/// Whether the caller of this session has logged in.
///
/// The flag decides what is offered to the caller. It guards no
/// operation of the directory: those run for whoever calls them.
#[derive(Clone, Copy, Debug, PartialEq, Eq, Structural)]
pub struct AuthState {
    pub logged_in: bool,
}

impl AuthState {
    /// The state of a fresh session: not logged in.
    pub fn new() -> (state: AuthState)
        ensures
            !state.logged_in,
    {
        AuthState { logged_in: false }
    }

    /// Records a successful login.
    pub fn log_in(&mut self)
        ensures
            final(self).logged_in,
    {
        self.logged_in = true;
    }

    /// Records a logout.
    pub fn log_out(&mut self)
        ensures
            !final(self).logged_in,
    {
        self.logged_in = false;
    }

    /// Whether the caller has logged in.
    pub fn is_logged_in(&self) -> (yes: bool)
        ensures
            yes == self.logged_in,
    {
        self.logged_in
    }

    /// Whether the page is offered to the caller: an open page always, a
    /// protected one only after login.
    pub fn offers(&self, route: Route) -> (offered: bool)
        ensures
            offered == (self.logged_in || !route.protected()),
    {
        self.logged_in || !route.requires_login()
    }

    /// Whether the caller is offered a way to log out: only once logged in.
    pub fn offers_logout(&self) -> (offered: bool)
        ensures
            offered == self.logged_in,
    {
        self.logged_in
    }
}

impl Default for AuthState {
    fn default() -> (state: AuthState)
        ensures
            !state.logged_in,
    {
        AuthState::new()
    }
}

} // verus!
