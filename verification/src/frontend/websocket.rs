//! The client's live list of chat messages, fed by the server's WebSocket.

use vstd::prelude::*;
use vstd::string::*;

pub use crate::backend::messenger::RealTimeMessage;

verus! {

/// The messages received so far, oldest first.
pub struct MessagesState {
    messages: Vec<RealTimeMessage>,
}

/// A change to the list of messages.
pub enum MessagesAction {
    AddMessage(RealTimeMessage),
}

impl View for MessagesState {
    type V = Seq<RealTimeMessage>;

    closed spec fn view(&self) -> Seq<RealTimeMessage> {
        self.messages@
    }
}

/// The list after `action`.
pub open spec fn reduced(list: Seq<RealTimeMessage>, action: MessagesAction) -> Seq<RealTimeMessage> {
    match action {
        MessagesAction::AddMessage(msg) => list.push(msg),
    }
}

/// The list after the messages of `received` arrive, in order, on `list`.
pub open spec fn received_all(list: Seq<RealTimeMessage>, received: Seq<RealTimeMessage>) -> Seq<
    RealTimeMessage,
>
    decreases received.len(),
{
    if received.len() == 0 {
        list
    } else {
        reduced(received_all(list, received.drop_last()), MessagesAction::AddMessage(received.last()))
    }
}

/// Messages that arrive one after another are listed after the earlier ones,
/// in the order of their arrival, and none is lost.
pub proof fn lemma_received_in_order(list: Seq<RealTimeMessage>, received: Seq<RealTimeMessage>)
    ensures
        received_all(list, received) == list + received,
    decreases received.len(),
{
    if received.len() > 0 {
        lemma_received_in_order(list, received.drop_last());
        assert(list + received.drop_last() + seq![received.last()] =~= list + received);
        assert((list + received.drop_last()).push(received.last()) =~= list + received);
    } else {
        assert(list + received =~= list);
    }
}

fn clone_messages(v: &Vec<RealTimeMessage>) -> (r: Vec<RealTimeMessage>)
    ensures
        r@ == v@,
{
    let mut r: Vec<RealTimeMessage> = Vec::new();
    let n = v.len();
    for i in 0..n
        invariant
            n == v@.len(),
            r@ == v@.take(i as int),
    {
        r.push(v[i].clone());
        assert(v@.take(i + 1) =~= v@.take(i as int).push(v@[i as int]));
    }
    assert(v@.take(n as int) =~= v@);
    r
}

impl MessagesState {
    /// No messages yet.
    pub fn new() -> (s: MessagesState)
        ensures
            s@ == Seq::<RealTimeMessage>::empty(),
    {
        MessagesState { messages: Vec::new() }
    }

    /// The list after `action`: a new message goes last.
    pub fn reduce(&self, action: MessagesAction) -> (s: MessagesState)
        ensures
            s@ == reduced(self@, action),
    {
        match action {
            MessagesAction::AddMessage(msg) => {
                let mut messages = clone_messages(&self.messages);
                messages.push(msg);
                MessagesState { messages }
            },
        }
    }

    /// The messages, oldest first.
    pub fn messages(&self) -> (r: Vec<RealTimeMessage>)
        ensures
            r@ == self@,
    {
        clone_messages(&self.messages)
    }
}

/// What a text frame of the socket changes: a message to add, or the error
/// to show when the text is not a message.
pub enum SocketUpdate {
    Dispatch(MessagesAction),
    Error(String),
}

/// What a text frame changes, given the message it parsed to (`None` when
/// it is not one): the message is added, otherwise the error "Failed to
/// parse message" shows.
pub fn socket_text_update(parsed: Option<RealTimeMessage>) -> (u: SocketUpdate)
    ensures
        match parsed {
            Some(msg) => u == SocketUpdate::Dispatch(MessagesAction::AddMessage(msg)),
            None => u matches SocketUpdate::Error(e) && e@ == "Failed to parse message"@,
        },
{
    match parsed {
        Some(msg) => SocketUpdate::Dispatch(MessagesAction::AddMessage(msg)),
        None => SocketUpdate::Error(String::from_str("Failed to parse message")),
    }
}

} // verus!
