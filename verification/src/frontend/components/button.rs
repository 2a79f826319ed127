//! The button component.

use vstd::prelude::*;
use vstd::string::*;

verus! {

/// The class of a button: the given one, or "button".
pub fn button_class(class: Option<String>) -> (r: String)
    ensures
        match class {
            Some(c) => r == c,
            None => r@ == "button"@,
        },
{
    match class {
        Some(c) => c,
        None => String::from_str("button"),
    }
}

} // verus!
