//! The list of servers in the side bar.

use vstd::prelude::*;

pub use crate::backend::servers::Server;

verus! {

/// The servers that the list shows once fetched: those the API returned, or
/// none when the request failed.
pub fn fetched_servers(fetched: Option<Vec<Server>>) -> (r: Vec<Server>)
    ensures
        match fetched {
            Some(v) => r == v,
            None => r@.len() == 0,
        },
{
    match fetched {
        Some(v) => v,
        None => Vec::new(),
    }
}

/// The list after a server is selected: that server alone.
pub fn select_server(server: Server) -> (r: Vec<Server>)
    ensures
        r@ == seq![server],
{
    let mut r: Vec<Server> = Vec::new();
    r.push(server);
    assert(r@ =~= seq![server]);
    r
}

} // verus!
