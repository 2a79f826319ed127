//! The meme license route.

use vstd::prelude::*;
use vstd::string::*;

verus! {

/// The text of `username`'s meme license.
pub fn get_meme_license(username: String) -> (r: String)
    ensures
        r@ == "Meme license for "@ + username@,
{
    let mut r = String::from_str("Meme license for ");
    r.append(username.as_str());
    r
}

} // verus!
