//! The login page.

use vstd::prelude::*;
use vstd::string::*;

use crate::frontend::routes::Route;

verus! {

/// The credentials that the login page sends.
pub struct LoginRequest {
    pub username: String,
    pub password: String,
}

/// The address of the login route of the API.
pub fn login_url(api_base: &str) -> (r: String)
    ensures
        r@ == api_base@ + "/login"@,
{
    let mut r = String::from_str(api_base);
    r.append("/login");
    r
}

/// What a submitted login form sends: nothing unless both the username and
/// the password are filled in.
pub fn login_submission(username: String, password: String) -> (r: Option<LoginRequest>)
    ensures
        (username@.len() == 0 || password@.len() == 0) ==> r is None,
        (username@.len() > 0 && password@.len() > 0) ==> (r matches Some(req) && req.username
            == username && req.password == password),
{
    if username.as_str().is_empty() || password.as_str().is_empty() {
        None
    } else {
        Some(LoginRequest { username, password })
    }
}

/// The outcome of a login request, given the status of its answer: success
/// for 200, the error "Login failed" for any other.
pub fn login_result(status: u16) -> (r: Result<(), String>)
    ensures
        status == 200 ==> r is Ok,
        status != 200 ==> (r matches Err(e) && e@ == "Login failed"@),
{
    if status == 200 {
        Ok(())
    } else {
        Err(String::from_str("Login failed"))
    }
}

/// What the login page does once the request is answered.
pub enum LoginUpdate {
    Navigate(Route),
    ShowError,
}

/// After a successful login the page goes to the chat of "test"; after a
/// failed one it shows its error.
pub fn login_update(outcome: Result<(), String>) -> (u: LoginUpdate)
    ensures
        outcome is Ok ==> (u matches LoginUpdate::Navigate(Route::Chat { id }) && id@ == "test"@),
        outcome is Err ==> u is ShowError,
{
    match outcome {
        Ok(()) => LoginUpdate::Navigate(Route::Chat { id: String::from_str("test") }),
        Err(_) => LoginUpdate::ShowError,
    }
}

/// The error that the login page shows.
pub fn login_error_text() -> (r: &'static str)
    ensures
        r@ == "Incorrect username or password"@,
{
    "Incorrect username or password"
}

} // verus!
