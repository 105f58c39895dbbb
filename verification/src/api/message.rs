use crate::api::client::ClientMessage;
use crate::api::server::ServerMessage;
use vstd::prelude::*;

verus! {

/// Every message that travels between a client and the server.
#[derive(Debug, PartialEq)]
pub enum Message {
    ServerMessage(ServerMessage),
    ClientMessage(ClientMessage),
}

impl From<ClientMessage> for Message {
    fn from(value: ClientMessage) -> (r: Self) {
        Message::ClientMessage(value)
    }
}

impl vstd::std_specs::convert::FromSpecImpl<ClientMessage> for Message {
    open spec fn obeys_from_spec() -> bool {
        true
    }

    open spec fn from_spec(v: ClientMessage) -> Message {
        Message::ClientMessage(v)
    }
}

impl From<ServerMessage> for Message {
    fn from(value: ServerMessage) -> (r: Self) {
        Message::ServerMessage(value)
    }
}

impl vstd::std_specs::convert::FromSpecImpl<ServerMessage> for Message {
    open spec fn obeys_from_spec() -> bool {
        true
    }

    open spec fn from_spec(v: ServerMessage) -> Message {
        Message::ServerMessage(v)
    }
}

} // verus!
