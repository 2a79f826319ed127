//! The real-time messenger: which connection receives the messages of which
//! channel, and the messages that the chat carries.

use vstd::prelude::*;
use vstd::string::*;

use crate::backend::record::RecordId;
use crate::backend::user::User;
use crate::text::{lemma_unbracket, strip_leading, strip_trailing, trim_delimiters};

verus! {

/// A user as the messenger knows them: the view of their record identifier.
pub type UserKey = (Seq<char>, Seq<char>);

/// Room for this many undelivered messages is kept for each connection.
pub const CONNECTION_BUFFER: usize = 100;

/// A chat message as it travels between the server and the clients.
#[derive(Debug)]
pub struct RealTimeMessage {
    pub message_id: i32,
    pub user_id: String,
    pub display_name: String,
    pub created_at: i64,
    pub content: String,
}

impl Clone for RealTimeMessage {
    fn clone(&self) -> (r: Self)
        ensures
            r == *self,
    {
        RealTimeMessage {
            message_id: self.message_id,
            user_id: self.user_id.clone(),
            display_name: self.display_name.clone(),
            created_at: self.created_at,
            content: self.content.clone(),
        }
    }
}

/// Whether no user occurs twice among the entries of one channel.
pub open spec fn keys_distinct<S>(ms: Seq<(UserKey, S)>) -> bool {
    forall|i: int, j: int|
        0 <= i < ms.len() && 0 <= j < ms.len() && i != j ==> #[trigger] ms[i].0 != #[trigger] ms[j].0
}

/// Whether user `u` has an entry in `ms`.
pub open spec fn has_key<S>(ms: Seq<(UserKey, S)>, u: UserKey) -> bool {
    exists|i: int| 0 <= i < ms.len() && #[trigger] ms[i].0 == u
}

/// The position of user `u`'s entry in `ms` (meaningful when `has_key(ms, u)`).
pub open spec fn key_index<S>(ms: Seq<(UserKey, S)>, u: UserKey) -> int {
    choose|i: int| 0 <= i < ms.len() && #[trigger] ms[i].0 == u
}

/// The entries of a channel after `u` joins it with `s`: an existing entry of
/// `u` has its sender replaced in place, otherwise the entry is added last.
pub open spec fn upsert<S>(ms: Seq<(UserKey, S)>, u: UserKey, s: S) -> Seq<(UserKey, S)> {
    if has_key(ms, u) {
        ms.update(key_index(ms, u), (u, s))
    } else {
        ms.push((u, s))
    }
}

/// The entries of a channel without those of user `u`, in their order.
pub open spec fn without_key<S>(ms: Seq<(UserKey, S)>, u: UserKey) -> Seq<(UserKey, S)>
    decreases ms.len(),
{
    if ms.len() == 0 {
        ms
    } else if ms.last().0 == u {
        without_key(ms.drop_last(), u)
    } else {
        without_key(ms.drop_last(), u).push(ms.last())
    }
}

/// The channel table after user `u` joins channel `c` with sender `s`; an
/// unknown channel is created with `u` as its only member.
pub open spec fn registered<S>(
    m: Map<i32, Seq<(UserKey, S)>>,
    c: i32,
    u: UserKey,
    s: S,
) -> Map<i32, Seq<(UserKey, S)>> {
    if m.contains_key(c) {
        m.insert(c, upsert(m[c], u, s))
    } else {
        m.insert(c, seq![(u, s)])
    }
}

/// The channel table after user `u` leaves every channel; the channels stay.
pub open spec fn deregistered<S>(m: Map<i32, Seq<(UserKey, S)>>, u: UserKey) -> Map<
    i32,
    Seq<(UserKey, S)>,
> {
    m.map_values(|ms: Seq<(UserKey, S)>| without_key(ms, u))
}

/// The sender through which user `u` receives the messages of channel `c`.
pub open spec fn sender_of<S>(m: Map<i32, Seq<(UserKey, S)>>, c: i32, u: UserKey) -> Option<S> {
    if m.contains_key(c) && has_key(m[c], u) {
        Some(m[c][key_index(m[c], u)].1)
    } else {
        None
    }
}

/// Whether no channel of the table holds a user twice.
pub open spec fn model_wf<S>(m: Map<i32, Seq<(UserKey, S)>>) -> bool {
    forall|c: i32| #[trigger] m.contains_key(c) ==> keys_distinct(m[c])
}

/// The senders of a channel's entries, in the entries' order.
pub open spec fn senders<S>(ms: Seq<(UserKey, S)>) -> Seq<S> {
    ms.map_values(|p: (UserKey, S)| p.1)
}

struct Member<S> {
    user_id: RecordId,
    sender: S,
}

struct Channel<S> {
    id: i32,
    members: Vec<Member<S>>,
}

spec fn member_entries<S>(ms: Seq<Member<S>>) -> Seq<(UserKey, S)> {
    ms.map_values(|m: Member<S>| (m.user_id@, m.sender))
}

/// The channels of the chat and, for each, the users connected to it with the
/// sender that delivers to their connection.
pub struct MessengerServer<S> {
    channels: Vec<Channel<S>>,
    model: Ghost<Map<i32, Seq<(UserKey, S)>>>,
}

impl<S> View for MessengerServer<S> {
    type V = Map<i32, Seq<(UserKey, S)>>;

    closed spec fn view(&self) -> Map<i32, Seq<(UserKey, S)>> {
        self.model@
    }
}

proof fn lemma_without_key_absent<S>(ms: Seq<(UserKey, S)>, u: UserKey)
    requires
        !has_key(ms, u),
    ensures
        without_key(ms, u) == ms,
    decreases ms.len(),
{
    if ms.len() > 0 {
        assert(ms[ms.len() - 1].0 != u);
        assert(!has_key(ms.drop_last(), u)) by {
            if has_key(ms.drop_last(), u) {
                let i = key_index(ms.drop_last(), u);
                assert(ms[i].0 == u);
            }
        }
        lemma_without_key_absent(ms.drop_last(), u);
        assert(ms.drop_last().push(ms.last()) =~= ms);
    }
}

proof fn lemma_without_key_at<S>(ms: Seq<(UserKey, S)>, u: UserKey, i: int)
    requires
        keys_distinct(ms),
        0 <= i < ms.len(),
        ms[i].0 == u,
    ensures
        without_key(ms, u) == ms.remove(i),
    decreases ms.len(),
{
    let n = ms.len();
    if i == n - 1 {
        assert(!has_key(ms.drop_last(), u)) by {
            if has_key(ms.drop_last(), u) {
                let k = key_index(ms.drop_last(), u);
                assert(ms[k].0 == ms[i].0);
            }
        }
        lemma_without_key_absent(ms.drop_last(), u);
        assert(ms.drop_last() =~= ms.remove(i));
    } else {
        assert(ms[n - 1].0 != u);
        let d = ms.drop_last();
        assert(keys_distinct(d)) by {
            assert forall|a: int, b: int| 0 <= a < d.len() && 0 <= b < d.len() && a != b implies
                #[trigger] d[a].0 != #[trigger] d[b].0 by {
                assert(d[a] == ms[a] && d[b] == ms[b]);
            }
        }
        assert(d[i] == ms[i]);
        lemma_without_key_at(d, u, i);
        assert(d.remove(i).push(ms.last()) =~= ms.remove(i));
    }
}

proof fn lemma_remove_keeps_distinct<S>(ms: Seq<(UserKey, S)>, i: int)
    requires
        keys_distinct(ms),
        0 <= i < ms.len(),
    ensures
        keys_distinct(ms.remove(i)),
{
    let r = ms.remove(i);
    assert forall|a: int, b: int| 0 <= a < r.len() && 0 <= b < r.len() && a != b implies
        #[trigger] r[a].0 != #[trigger] r[b].0 by {
        let a2 = if a < i { a } else { a + 1 };
        let b2 = if b < i { b } else { b + 1 };
        assert(r[a] == ms[a2] && r[b] == ms[b2]);
    }
}

/// Removing a user from a channel's entries leaves no entry of that user,
/// keeps every other user's entry as it was, and keeps users distinct.
pub proof fn lemma_without_key<S>(ms: Seq<(UserKey, S)>, u: UserKey)
    requires
        keys_distinct(ms),
    ensures
        keys_distinct(without_key(ms, u)),
        !has_key(without_key(ms, u), u),
        forall|v: UserKey|
            v != u ==> (has_key(#[trigger] without_key(ms, u), v) == has_key(ms, v)),
        forall|v: UserKey|
            v != u && has_key(ms, v) ==> (#[trigger] without_key(ms, u))[key_index(
                without_key(ms, u),
                v,
            )].1 == ms[key_index(ms, v)].1,
{
    let w = without_key(ms, u);
    if has_key(ms, u) {
        let i = key_index(ms, u);
        lemma_without_key_at(ms, u, i);
        lemma_remove_keeps_distinct(ms, i);
        assert(!has_key(w, u)) by {
            if has_key(w, u) {
                let k = key_index(w, u);
                let k2 = if k < i { k } else { k + 1 };
                assert(w[k] == ms[k2]);
            }
        }
        assert forall|v: UserKey| v != u implies (has_key(#[trigger] without_key(ms, u), v)
            == has_key(ms, v)) by {
            if has_key(ms, v) {
                let j = key_index(ms, v);
                assert(j != i);
                let j2 = if j < i { j } else { j - 1 };
                assert(w[j2] == ms[j]);
            }
            if has_key(w, v) {
                let k = key_index(w, v);
                let k2 = if k < i { k } else { k + 1 };
                assert(w[k] == ms[k2]);
            }
        }
        assert forall|v: UserKey| v != u && has_key(ms, v) implies (#[trigger] without_key(
            ms,
            u,
        ))[key_index(without_key(ms, u), v)].1 == ms[key_index(ms, v)].1 by {
            let j = key_index(ms, v);
            let j2 = if j < i { j } else { j - 1 };
            assert(w[j2] == ms[j]);
            let k = key_index(w, v);
            let k2 = if k < i { k } else { k + 1 };
            assert(w[k] == ms[k2]);
        }
    } else {
        lemma_without_key_absent(ms, u);
    }
}

/// Joining a channel leaves that channel's users distinct, gives the joining
/// user the new sender, and keeps every other user's entry as it was.
pub proof fn lemma_upsert<S>(ms: Seq<(UserKey, S)>, u: UserKey, s: S)
    requires
        keys_distinct(ms),
    ensures
        keys_distinct(upsert(ms, u, s)),
        has_key(upsert(ms, u, s), u),
        upsert(ms, u, s)[key_index(upsert(ms, u, s), u)].1 == s,
        forall|v: UserKey| v != u ==> (has_key(#[trigger] upsert(ms, u, s), v) == has_key(ms, v)),
        forall|v: UserKey|
            v != u && has_key(ms, v) ==> (#[trigger] upsert(ms, u, s))[key_index(
                upsert(ms, u, s),
                v,
            )].1 == ms[key_index(ms, v)].1,
{
    let r = upsert(ms, u, s);
    if has_key(ms, u) {
        let i = key_index(ms, u);
        assert(r[i].0 == u);
        assert forall|a: int, b: int| 0 <= a < r.len() && 0 <= b < r.len() && a != b implies
            #[trigger] r[a].0 != #[trigger] r[b].0 by {
            assert(r[a].0 == ms[a].0 && r[b].0 == ms[b].0);
        }
        let k = key_index(r, u);
        assert(k == i);
    } else {
        let n = ms.len() as int;
        assert(r[n].0 == u);
        assert forall|a: int, b: int| 0 <= a < r.len() && 0 <= b < r.len() && a != b implies
            #[trigger] r[a].0 != #[trigger] r[b].0 by {
            if a < n && b < n {
                assert(r[a] == ms[a] && r[b] == ms[b]);
            } else if a < n {
                assert(r[a] == ms[a]);
            } else if b < n {
                assert(r[b] == ms[b]);
            }
        }
        let k = key_index(r, u);
        assert(k == n);
    }
    assert forall|v: UserKey| v != u implies (has_key(#[trigger] upsert(ms, u, s), v) == has_key(
        ms,
        v,
    )) by {
        if has_key(ms, v) {
            let j = key_index(ms, v);
            assert(r[j] == ms[j]);
        }
        if has_key(r, v) {
            let k = key_index(r, v);
            assert(k < ms.len());
            assert(r[k] == ms[k]);
        }
    }
    assert forall|v: UserKey| v != u && has_key(ms, v) implies (#[trigger] upsert(ms, u, s))[key_index(
        upsert(ms, u, s),
        v,
    )].1 == ms[key_index(ms, v)].1 by {
        let j = key_index(ms, v);
        let k = key_index(r, v);
        assert(r[j] == ms[j]);
        assert(k < ms.len());
        assert(r[k] == ms[k]);
    }
}

/// After user `u` joins channel `c` with sender `s`, the messages of `c`
/// reach `u` through `s`, and every other (channel, user) pair keeps its
/// sender, or its absence.
pub proof fn lemma_register_then_lookup<S>(
    m: Map<i32, Seq<(UserKey, S)>>,
    c: i32,
    u: UserKey,
    s: S,
)
    requires
        model_wf(m),
    ensures
        model_wf(registered(m, c, u, s)),
        sender_of(registered(m, c, u, s), c, u) == Some(s),
        forall|d: i32, v: UserKey|
            (d, v) != (c, u) ==> #[trigger] sender_of(registered(m, c, u, s), d, v) == sender_of(
                m,
                d,
                v,
            ),
{
    let r = registered(m, c, u, s);
    if m.contains_key(c) {
        lemma_upsert(m[c], u, s);
    } else {
        let one = seq![(u, s)];
        assert(one[0].0 == u);
        assert(keys_distinct(one));
        assert(key_index(one, u) == 0);
    }
    assert forall|d: i32| #[trigger] r.contains_key(d) implies keys_distinct(r[d]) by {
        if d != c {
            assert(r[d] == m[d]);
        }
    }
    assert forall|d: i32, v: UserKey| (d, v) != (c, u) implies #[trigger] sender_of(r, d, v)
        == sender_of(m, d, v) by {
        if d == c {
            assert(v != u);
            if m.contains_key(c) {
                assert(has_key(upsert(m[c], u, s), v) == has_key(m[c], v));
            } else {
                let one = seq![(u, s)];
                assert(!has_key(one, v)) by {
                    if has_key(one, v) {
                        let k = key_index(one, v);
                        assert(k == 0);
                    }
                }
                assert(r[c] == one);
            }
        } else {
            assert(r.contains_key(d) == m.contains_key(d));
            if m.contains_key(d) {
                assert(r[d] == m[d]);
            }
        }
    }
}

/// After user `u` leaves, `u` receives the messages of no channel, and every
/// other user keeps the sender of each of their channels.
pub proof fn lemma_deregister_removes<S>(m: Map<i32, Seq<(UserKey, S)>>, u: UserKey)
    requires
        model_wf(m),
    ensures
        model_wf(deregistered(m, u)),
        forall|d: i32| #[trigger] sender_of(deregistered(m, u), d, u) is None,
        forall|d: i32, v: UserKey|
            v != u ==> #[trigger] sender_of(deregistered(m, u), d, v) == sender_of(m, d, v),
{
    let r = deregistered(m, u);
    assert forall|d: i32| #[trigger] r.contains_key(d) implies keys_distinct(r[d]) by {
        lemma_without_key(m[d], u);
    }
    assert forall|d: i32| #[trigger] sender_of(r, d, u) is None by {
        if r.contains_key(d) {
            lemma_without_key(m[d], u);
        }
    }
    assert forall|d: i32, v: UserKey| v != u implies #[trigger] sender_of(r, d, v) == sender_of(
        m,
        d,
        v,
    ) by {
        if m.contains_key(d) {
            lemma_without_key(m[d], u);
            assert(r[d] == without_key(m[d], u));
        }
    }
}

/// A user who joins a channel and then leaves leaves the senders of every
/// (channel, user) pair as they were before, if they were connected nowhere.
pub proof fn lemma_deregister_undoes_register<S>(
    m: Map<i32, Seq<(UserKey, S)>>,
    c: i32,
    u: UserKey,
    s: S,
)
    requires
        model_wf(m),
        forall|d: i32| #[trigger] sender_of(m, d, u) is None,
    ensures
        forall|d: i32, v: UserKey|
            #[trigger] sender_of(deregistered(registered(m, c, u, s), u), d, v) == sender_of(m, d, v),
{
    lemma_register_then_lookup(m, c, u, s);
    lemma_deregister_removes(registered(m, c, u, s), u);
    assert forall|d: i32, v: UserKey| #[trigger] sender_of(
        deregistered(registered(m, c, u, s), u),
        d,
        v,
    ) == sender_of(m, d, v) by {
        if v == u {
            assert(sender_of(m, d, u) is None);
        } else {
            assert(sender_of(registered(m, c, u, s), d, v) == sender_of(m, d, v));
        }
    }
}

fn find_member<S>(members: &Vec<Member<S>>, user_id: &RecordId) -> (r: Option<usize>)
    ensures
        match r {
            Some(j) => j < members@.len() && members@[j as int].user_id@ == user_id@,
            None => !has_key(member_entries(members@), user_id@),
        },
{
    let n = members.len();
    for j in 0..n
        invariant
            n == members@.len(),
            forall|k: int| 0 <= k < j ==> members@[k].user_id@ != user_id@,
    {
        if members[j].user_id.same_as(user_id) {
            return Some(j);
        }
    }
    proof {
        let es = member_entries(members@);
        if has_key(es, user_id@) {
            let k = key_index(es, user_id@);
            assert(es[k].0 == members@[k].user_id@);
        }
    }
    None
}

impl<S> MessengerServer<S> {
    /// Whether the channels agree with the table that the view gives.
    pub closed spec fn wf(&self) -> bool {
        let chs = self.channels@;
        &&& forall|i: int, j: int|
            0 <= i < chs.len() && 0 <= j < chs.len() && i != j ==> #[trigger] chs[i].id
                != #[trigger] chs[j].id
        &&& forall|i: int|
            #![trigger chs[i]]
            0 <= i < chs.len() ==> self.model@.contains_key(chs[i].id) && self.model@[chs[i].id]
                == member_entries(chs[i].members@)
        &&& forall|c: i32| #[trigger]
            self.model@.contains_key(c) ==> exists|i: int| 0 <= i < chs.len() && chs[i].id == c
        &&& model_wf(self.model@)
    }

    /// The table of a well-formed messenger has no user twice in a channel.
    pub proof fn lemma_wf_model(&self)
        requires
            self.wf(),
        ensures
            model_wf(self@),
    {
    }

    /// A messenger with no channels.
    pub fn new() -> (r: MessengerServer<S>)
        ensures
            r.wf(),
            r@ == Map::<i32, Seq<(UserKey, S)>>::empty(),
    {
        MessengerServer { channels: Vec::new(), model: Ghost(Map::empty()) }
    }

    fn find_channel(&self, channel_id: i32) -> (r: Option<usize>)
        requires
            self.wf(),
        ensures
            match r {
                Some(i) => i < self.channels@.len() && self.channels@[i as int].id == channel_id,
                None => !self@.contains_key(channel_id),
            },
    {
        let n = self.channels.len();
        for i in 0..n
            invariant
                n == self.channels@.len(),
                forall|k: int| 0 <= k < i ==> self.channels@[k].id != channel_id,
        {
            if self.channels[i].id == channel_id {
                return Some(i);
            }
        }
        None
    }

    /// Connects user `user_id` to channel `channel_id` through `sender`,
    /// replacing the user's earlier sender in that channel.
    pub fn register(&mut self, user_id: RecordId, channel_id: i32, sender: S)
        requires
            old(self).wf(),
        ensures
            final(self).wf(),
            final(self)@ == registered(old(self)@, channel_id, user_id@, sender),
    {
        let ghost old_m = self.model@;
        let ghost old_chs = self.channels@;
        let ghost u = user_id@;
        let ghost s = sender;
        let ghost new_m = registered(old_m, channel_id, u, s);
        proof {
            lemma_register_then_lookup(old_m, channel_id, u, s);
        }
        match self.find_channel(channel_id) {
            Some(ci) => {
                let mut ch: Channel<S> = Channel { id: 0, members: Vec::new() };
                self.channels.set_and_swap(ci, &mut ch);
                let ghost old_entries = member_entries(ch.members@);
                assert(old_entries == old_m[channel_id]);
                match find_member(&ch.members, &user_id) {
                    Some(mj) => {
                        ch.members.set(mj, Member { user_id, sender });
                        proof {
                            let k = key_index(old_entries, u);
                            assert(old_entries[mj as int].0 == u);
                            assert(k == mj);
                            assert(member_entries(ch.members@) =~= old_entries.update(
                                mj as int,
                                (u, s),
                            ));
                        }
                    },
                    None => {
                        ch.members.push(Member { user_id, sender });
                        assert(member_entries(ch.members@) =~= old_entries.push((u, s)));
                    },
                }
                self.channels.set(ci, ch);
                self.model = Ghost(new_m);
                proof {
                    let chs = self.channels@;
                    assert forall|i: int| #![trigger chs[i]] 0 <= i < chs.len() implies
                        self.model@.contains_key(chs[i].id) && self.model@[chs[i].id]
                            == member_entries(chs[i].members@) by {
                        if i != ci {
                            assert(chs[i] == old_chs[i]);
                        }
                    }
                    assert forall|c: i32| #[trigger] self.model@.contains_key(c) implies exists|
                        i: int,
                    | 0 <= i < chs.len() && chs[i].id == c by {
                        let i = choose|i: int| 0 <= i < old_chs.len() && old_chs[i].id == c;
                        assert(chs[i].id == old_chs[i].id);
                    }
                    assert forall|i: int, j: int|
                        0 <= i < chs.len() && 0 <= j < chs.len() && i != j implies #[trigger] chs[i].id
                        != #[trigger] chs[j].id by {
                        assert(chs[i].id == old_chs[i].id && chs[j].id == old_chs[j].id);
                    }
                }
            },
            None => {
                let mut members: Vec<Member<S>> = Vec::new();
                members.push(Member { user_id, sender });
                self.channels.push(Channel { id: channel_id, members });
                self.model = Ghost(new_m);
                proof {
                    let chs = self.channels@;
                    let n = old_chs.len() as int;
                    assert(member_entries(chs[n].members@) =~= seq![(u, s)]);
                    assert forall|i: int| #![trigger chs[i]] 0 <= i < chs.len() implies
                        self.model@.contains_key(chs[i].id) && self.model@[chs[i].id]
                            == member_entries(chs[i].members@) by {
                        if i != n {
                            assert(chs[i] == old_chs[i]);
                            assert(old_m.contains_key(old_chs[i].id));
                        }
                    }
                    assert forall|c: i32| #[trigger] self.model@.contains_key(c) implies exists|
                        i: int,
                    | 0 <= i < chs.len() && chs[i].id == c by {
                        if c != channel_id {
                            let i = choose|i: int| 0 <= i < old_chs.len() && old_chs[i].id == c;
                            assert(chs[i].id == old_chs[i].id);
                        } else {
                            assert(chs[n].id == c);
                        }
                    }
                    assert forall|i: int, j: int|
                        0 <= i < chs.len() && 0 <= j < chs.len() && i != j implies #[trigger] chs[i].id
                        != #[trigger] chs[j].id by {
                        if i < n && j < n {
                            assert(chs[i].id == old_chs[i].id && chs[j].id == old_chs[j].id);
                        } else if i < n {
                            assert(old_m.contains_key(old_chs[i].id));
                            assert(chs[i].id == old_chs[i].id);
                        } else {
                            assert(old_m.contains_key(old_chs[j].id));
                            assert(chs[j].id == old_chs[j].id);
                        }
                    }
                }
            },
        }
    }

    /// Disconnects user `user_id` from every channel.
    pub fn deregister(&mut self, user_id: RecordId)
        requires
            old(self).wf(),
        ensures
            final(self).wf(),
            final(self)@ == deregistered(old(self)@, user_id@),
    {
        let ghost old_m = self.model@;
        let ghost old_chs = self.channels@;
        let ghost u = user_id@;
        let n = self.channels.len();
        for i in 0..n
            invariant
                n == self.channels@.len(),
                old_chs.len() == n,
                u == user_id@,
                self.model@ == old_m,
                model_wf(old_m),
                forall|k: int|
                    #![trigger self.channels@[k]]
                    0 <= k < n ==> self.channels@[k].id == old_chs[k].id,
                forall|k: int|
                    #![trigger self.channels@[k]]
                    0 <= k < i ==> member_entries(self.channels@[k].members@) == without_key(
                        member_entries(old_chs[k].members@),
                        u,
                    ),
                forall|k: int|
                    #![trigger self.channels@[k]]
                    i <= k < n ==> self.channels@[k] == old_chs[k],
                forall|k: int|
                    #![trigger old_chs[k]]
                    0 <= k < n ==> old_m.contains_key(old_chs[k].id) && old_m[old_chs[k].id]
                        == member_entries(old_chs[k].members@),
        {
            let mut ch: Channel<S> = Channel { id: 0, members: Vec::new() };
            self.channels.set_and_swap(i, &mut ch);
            assert(ch == old_chs[i as int]);
            let ghost entries = member_entries(ch.members@);
            match find_member(&ch.members, &user_id) {
                Some(mj) => {
                    ch.members.remove(mj);
                    proof {
                        assert(keys_distinct(entries));
                        lemma_without_key_at(entries, u, mj as int);
                        assert(member_entries(ch.members@) =~= entries.remove(mj as int));
                    }
                },
                None => {
                    proof {
                        lemma_without_key_absent(entries, u);
                    }
                },
            }
            self.channels.set(i, ch);
        }
        self.model = Ghost(deregistered(old_m, u));
        proof {
            lemma_deregister_removes(old_m, u);
            let chs = self.channels@;
            assert forall|i: int| #![trigger chs[i]] 0 <= i < chs.len() implies self.model@.contains_key(
                chs[i].id,
            ) && self.model@[chs[i].id] == member_entries(chs[i].members@) by {
                assert(old_chs[i].id == chs[i].id);
                assert(old_m.contains_key(old_chs[i].id));
            }
            assert forall|c: i32| #[trigger] self.model@.contains_key(c) implies exists|i: int|
                0 <= i < chs.len() && chs[i].id == c by {
                let i = choose|i: int| 0 <= i < old_chs.len() && old_chs[i].id == c;
                assert(chs[i].id == old_chs[i].id);
            }
            assert forall|i: int, j: int|
                0 <= i < chs.len() && 0 <= j < chs.len() && i != j implies #[trigger] chs[i].id
                != #[trigger] chs[j].id by {
                assert(chs[i].id == old_chs[i].id && chs[j].id == old_chs[j].id);
            }
        }
    }

    /// The senders of the users connected to channel `channel_id`, one for
    /// each user, in the order in which the users joined; none for an unknown
    /// channel.
    pub fn recipients(&self, channel_id: i32) -> (r: Vec<&S>)
        requires
            self.wf(),
        ensures
            self@.contains_key(channel_id) ==> r@.len() == self@[channel_id].len() && forall|
                i: int,
            | 0 <= i < r@.len() ==> *r@[i] == self@[channel_id][i].1,
            !self@.contains_key(channel_id) ==> r@.len() == 0,
    {
        let mut r: Vec<&S> = Vec::new();
        match self.find_channel(channel_id) {
            Some(ci) => {
                let ch = &self.channels[ci];
                let ghost es = member_entries(ch.members@);
                assert(es == self@[channel_id]);
                let n = ch.members.len();
                for j in 0..n
                    invariant
                        n == ch.members@.len(),
                        es == member_entries(ch.members@),
                        r@.len() == j,
                        forall|k: int| 0 <= k < j ==> *r@[k] == es[k].1,
                {
                    r.push(&ch.members[j].sender);
                }
            },
            None => {},
        }
        r
    }
}

/// The message that a connected user's text becomes: its author is the
/// rendered key of the user's record without the enclosing angle brackets,
/// its time the moment of receipt in milliseconds.
pub fn inbound_chat_message(
    user: &User,
    rendered_key: &str,
    text: String,
    received_millis: u128,
) -> (m: RealTimeMessage)
    ensures
        m.message_id == 0,
        m.user_id@ == strip_trailing(strip_leading(rendered_key@, '\u{27e8}'), '\u{27e9}'),
        ({
            let r = rendered_key@;
            let k = r.subrange(1, r.len() - 1);
            (r.len() >= 2 && r[0] == '\u{27e8}' && r.last() == '\u{27e9}' && (k.len() == 0 || (k[0]
                != '\u{27e8}' && k.last() != '\u{27e9}'))) ==> m.user_id@ == k
        }),
        m.display_name@ == user.username@,
        m.created_at == received_millis as i64,
        m.content == text,
{
    proof {
        let r = rendered_key@;
        if r.len() >= 2 {
            let k = r.subrange(1, r.len() - 1);
            if r[0] == '\u{27e8}' && r.last() == '\u{27e9}' && (k.len() == 0 || (k[0] != '\u{27e8}'
                && k.last() != '\u{27e9}')) {
                assert(r =~= seq!['\u{27e8}'] + k + seq!['\u{27e9}']);
                lemma_unbracket(k, '\u{27e8}', '\u{27e9}');
            }
        }
    }
    RealTimeMessage {
        message_id: 0,
        user_id: trim_delimiters(rendered_key, '\u{27e8}', '\u{27e9}'),
        display_name: user.username.clone(),
        created_at: received_millis as i64,
        content: text,
    }
}

} // verus!
