//! The signup page.

use vstd::prelude::*;
use vstd::string::*;

use crate::frontend::routes::Route;
use crate::text::{decimal, push_decimal};

verus! {

/// What the signup page sends.
pub struct SignupRequest {
    pub username: String,
    pub password: String,
    pub token: String,
}

/// The address of the signup route of the API.
pub fn signup_url(api_base: &str) -> (r: String)
    ensures
        r@ == api_base@ + "/signup"@,
{
    let mut r = String::from_str(api_base);
    r.append("/signup");
    r
}

/// What a submitted signup form sends, or the error it shows: every field
/// but the confirmation must be filled in, then the password must equal its
/// confirmation.
pub fn validate_signup(username: String, password: String, confirm_password: String, token: String) -> (r:
    Result<SignupRequest, String>)
    ensures
        (username@.len() == 0 || password@.len() == 0 || token@.len() == 0) ==> (r matches Err(e)
            && e@ == "Please fill in all fields"@),
        (username@.len() > 0 && password@.len() > 0 && token@.len() > 0 && password@
            != confirm_password@) ==> (r matches Err(e) && e@ == "Passwords do not match"@),
        (username@.len() > 0 && password@.len() > 0 && token@.len() > 0 && password@
            == confirm_password@) ==> (r matches Ok(req) && req.username == username && req.password
            == password && req.token == token),
{
    if username.as_str().is_empty() || password.as_str().is_empty() || token.as_str().is_empty() {
        return Err(String::from_str("Please fill in all fields"));
    }
    if password != confirm_password {
        return Err(String::from_str("Passwords do not match"));
    }
    Ok(SignupRequest { username, password, token })
}

/// The outcome of a signup request, given the status of its answer: success
/// for 200, "Username already exists" for 409, and "Signup failed with status
/// code" followed by the status for any other.
pub fn signup_result(status: u16) -> (r: Result<(), String>)
    ensures
        status == 200 ==> r is Ok,
        status == 409 ==> (r matches Err(e) && e@ == "Username already exists"@),
        status != 200 && status != 409 ==> (r matches Err(e) && e@
            == "Signup failed with status code "@ + decimal(status as nat)),
{
    if status == 200 {
        Ok(())
    } else if status == 409 {
        Err(String::from_str("Username already exists"))
    } else {
        let mut e = String::from_str("Signup failed with status code ");
        push_decimal(&mut e, status as u64);
        Err(e)
    }
}

/// What the signup page does once the request is answered.
pub enum SignupUpdate {
    Navigate(Route),
    ShowError(String),
}

/// After a successful signup the page goes to the chat of "test"; after a
/// failed one it shows the error.
pub fn signup_update(outcome: Result<(), String>) -> (u: SignupUpdate)
    ensures
        outcome is Ok ==> (u matches SignupUpdate::Navigate(Route::Chat { id }) && id@ == "test"@),
        outcome matches Err(e) ==> u == SignupUpdate::ShowError(e),
{
    match outcome {
        Ok(()) => SignupUpdate::Navigate(Route::Chat { id: String::from_str("test") }),
        Err(e) => SignupUpdate::ShowError(e),
    }
}

} // verus!
