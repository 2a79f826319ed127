//! The navigation bar.

use vstd::prelude::*;
use vstd::string::*;

use crate::frontend::routes::Route;

verus! {

/// The brand that the bar shows.
pub fn brand() -> (r: &'static str)
    ensures
        r@ == "ZXQ5.Dev"@,
{
    "ZXQ5.Dev"
}

/// The pages that the account menu offers, in order: login and signup.
pub fn account_choices() -> (r: Vec<Route>)
    ensures
        r@ == seq![Route::Login, Route::Signup],
{
    let mut r: Vec<Route> = Vec::new();
    r.push(Route::Login);
    r.push(Route::Signup);
    assert(r@ =~= seq![Route::Login, Route::Signup]);
    r
}

} // verus!
