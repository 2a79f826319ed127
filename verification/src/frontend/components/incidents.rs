//! The incidents page.

use vstd::prelude::*;
use vstd::string::*;

verus! {

/// The title of the boat incident.
pub open spec fn boats_title() -> Seq<char> {
    "The Boat Incident."@
}

/// The account of the boat incident.
pub open spec fn boats_text() -> Seq<char> {
    "the boat incident involved many boats being dropped on panic attack's tower. he then proceedeed to accidentally blow himself up along with all his stuff using a tnt cannon."@
}

/// The title and account of an incident: those of the boat incident for
/// "boats", empty ones for any other.
pub fn incident_content(incident: &String) -> (r: (String, String))
    ensures
        incident@ == "boats"@ ==> r.0@ == boats_title() && r.1@ == boats_text(),
        incident@ != "boats"@ ==> r.0@ == Seq::<char>::empty() && r.1@ == Seq::<char>::empty(),
{
    let boats = String::from_str("boats");
    if *incident == boats {
        (
            String::from_str("The Boat Incident."),
            String::from_str(
                "the boat incident involved many boats being dropped on panic attack's tower. he then proceedeed to accidentally blow himself up along with all his stuff using a tnt cannon.",
            ),
        )
    } else {
        (String::new(), String::new())
    }
}

} // verus!
