//! The list of chat servers that the client offers.

use vstd::prelude::*;
use vstd::string::*;

use crate::text::{decimal, lemma_decimal_injective, lemma_decimal_len, push_decimal};

verus! {

/// A chat server: its identifier and its name.
#[derive(Debug)]
pub struct Server {
    pub id: String,
    pub name: String,
}

/// How many servers the list holds.
pub const SERVER_COUNT: u64 = 7;

/// The name of the `i`-th server: "Test Server", then "Test Server2" and on.
pub open spec fn server_name(i: nat) -> Seq<char> {
    if i == 0 {
        "Test Server"@
    } else {
        "Test Server"@ + decimal(i + 1)
    }
}

/// The servers are numbered "0" to "6"; the first is called "Test Server"
/// and the `i`-th after it "Test Server" followed by `i + 1`, so that no two
/// servers share an identifier or a name.
pub proof fn lemma_server_names(i: nat, j: nat)
    ensures
        server_name(0) == "Test Server"@,
        i > 0 ==> server_name(i) == "Test Server"@ + decimal(i + 1),
        i != j ==> decimal(i) != decimal(j),
        i != j ==> server_name(i) != server_name(j),
{
    let p = "Test Server"@;
    if i != j {
        if decimal(i) == decimal(j) {
            lemma_decimal_injective(i, j);
        }
        if server_name(i) == server_name(j) {
            if i > 0 && j > 0 {
                assert((p + decimal(i + 1)).subrange(p.len() as int, server_name(i).len() as int)
                    =~= decimal(i + 1));
                assert((p + decimal(j + 1)).subrange(p.len() as int, server_name(j).len() as int)
                    =~= decimal(j + 1));
                lemma_decimal_injective(i + 1, j + 1);
            } else if i > 0 {
                lemma_decimal_len(i + 1);
                assert(server_name(i).len() > p.len());
            } else {
                lemma_decimal_len(j + 1);
                assert(server_name(j).len() > p.len());
            }
        }
    }
}

/// The list of servers: seven test servers, numbered from "0".
pub fn servers() -> (r: Vec<Server>)
    ensures
        r@.len() == SERVER_COUNT,
        forall|i: int|
            0 <= i < r@.len() ==> (#[trigger] r@[i]).id@ == decimal(i as nat) && r@[i].name@
                == server_name(i as nat),
        r@[0].id@ == "0"@,
        r@[0].name@ == "Test Server"@,
        forall|i: int| 0 < i < r@.len() ==> (#[trigger] r@[i]).name@ == "Test Server"@ + decimal((i + 1) as nat),
        forall|i: int, j: int|
            0 <= i < r@.len() && 0 <= j < r@.len() && i != j ==> (#[trigger] r@[i]).id@ != (
            #[trigger] r@[j]).id@ && r@[i].name@ != r@[j].name@,
{
    let mut r: Vec<Server> = Vec::new();
    let mut i: u64 = 0;
    while i < SERVER_COUNT
        invariant
            i <= SERVER_COUNT,
            r@.len() == i,
            forall|k: int|
                0 <= k < r@.len() ==> (#[trigger] r@[k]).id@ == decimal(k as nat) && r@[k].name@
                    == server_name(k as nat),
        decreases SERVER_COUNT - i,
    {
        let mut id = String::new();
        push_decimal(&mut id, i);
        let mut name = String::from_str("Test Server");
        if i > 0 {
            push_decimal(&mut name, i + 1);
        }
        assert(id@ =~= decimal(i as nat));
        assert(name@ =~= server_name(i as nat));
        r.push(Server { id, name });
        i = i + 1;
    }
    proof {
        reveal_strlit("0");
        assert(decimal(0) == seq!['0']);
        assert forall|a: int, b: int|
            0 <= a < r@.len() && 0 <= b < r@.len() && a != b implies (#[trigger] r@[a]).id@ != (
            #[trigger] r@[b]).id@ && r@[a].name@ != r@[b].name@ by {
            lemma_server_names(a as nat, b as nat);
        }
        assert forall|a: int| 0 < a < r@.len() implies (#[trigger] r@[a]).name@ == "Test Server"@
            + decimal((a + 1) as nat) by {
            lemma_server_names(a as nat, a as nat);
        }
    }
    r
}

} // verus!
