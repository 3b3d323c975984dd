//! The hub of the chat: what one connection says goes to all of them.

use vstd::prelude::*;
use vstd::string::*;

use crate::hub::{
    deliveries_of, fan_out_for, with_member, without, without_all, Delivery, Registry,
};
use crate::money::{push_signed_decimal, signed_decimal};
use crate::wire::{json_quote, json_quoted, object_of_two, two_member_object};

verus! {

/// A connection has been opened.
#[derive(Clone, Copy, Debug)]
pub struct Connect {
    pub id: i32,
}

/// A connection has been closed.
#[derive(Clone, Copy, Debug)]
pub struct Disconnect {
    pub id: i32,
}

/// What the connection `id` has said.
#[derive(Debug)]
pub struct ClientMessage {
    pub id: i32,
    pub msg: String,
}

/// The JSON object `{"id":..,"msg":..}` that carries what `id` has said.
pub open spec fn chat_wire(id: i32, msg: Seq<char>) -> Seq<char> {
    object_of_two("id"@, signed_decimal(id as int), "msg"@, json_quoted(msg))
}

impl ClientMessage {
    /// What the connection `id` has said, ready for the hub.
    pub fn new(id: i32, msg: &str) -> (message: ClientMessage)
        ensures
            message.id == id,
            message.msg@ == msg@,
    {
        ClientMessage { id, msg: String::from_str(msg) }
    }

    /// The JSON object for this message.
    pub fn to_wire(&self) -> (text: String)
        ensures
            text@ == chat_wire(self.id, self.msg@),
    {
        let quoted = json_quote(self.msg.as_str());
        let mut number = String::new();
        push_signed_decimal(&mut number, self.id as i64);
        assert(number@ =~= signed_decimal(self.id as int));
        two_member_object("id", number.as_str(), "msg", quoted.as_str())
    }
}

/// The hub of the chat.
pub struct ChatServer {
    sessions: Registry,
}

impl View for ChatServer {
    type V = Seq<i32>;

    closed spec fn view(&self) -> Seq<i32> {
        self.sessions@
    }
}

impl ChatServer {
    /// No connection is registered twice.
    pub open spec fn wf(&self) -> bool {
        self@.no_duplicates()
    }

    /// A hub without connections.
    pub fn new() -> (server: ChatServer)
        ensures
            server@ == Seq::<i32>::empty(),
            server.wf(),
    {
        ChatServer { sessions: Registry::new() }
    }

    /// The registered connections, in order.
    pub fn connections(&self) -> (ids: Vec<i32>)
        ensures
            ids@ == self@,
    {
        self.sessions.members()
    }

    /// Registers a connection. One that is known already stays where it is.
    pub fn handle_connect(&mut self, msg: Connect)
        requires
            old(self).wf(),
        ensures
            final(self).wf(),
            final(self)@ == with_member(old(self)@, msg.id),
    {
        self.sessions.register(msg.id);
    }

    /// Takes a connection out of the registry. An unknown one changes
    /// nothing.
    pub fn handle_disconnect(&mut self, msg: Disconnect)
        requires
            old(self).wf(),
        ensures
            final(self).wf(),
            final(self)@ == without(old(self)@, msg.id),
    {
        self.sessions.unregister(msg.id);
    }

    /// Takes the connections whose sink did not take a text out of the
    /// registry. The others stay as they are, in their order.
    pub fn handle_failed(&mut self, failed: &Vec<i32>)
        requires
            old(self).wf(),
        ensures
            final(self).wf(),
            final(self)@ == without_all(old(self)@, failed@),
            forall|k: int| 0 <= k < failed@.len() ==> !final(self)@.contains(#[trigger] failed@[k]),
    {
        self.sessions.unregister_all(failed);
    }

    /// Sends what one connection has said to every connection, the speaker
    /// included.
    pub fn handle_message(&self, msg: ClientMessage) -> (deliveries: Vec<Delivery>)
        ensures
            deliveries_of(deliveries@) == fan_out_for(self@, chat_wire(msg.id, msg.msg@)),
    {
        let mut deliveries: Vec<Delivery> = Vec::new();
        self.sessions.push_fan_out(&mut deliveries, msg.to_wire());
        assert(deliveries_of(deliveries@) =~= fan_out_for(self@, chat_wire(msg.id, msg.msg@)));
        deliveries
    }
}

} // verus!
