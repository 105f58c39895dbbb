use crate::api::bidirectional::PropertiesV1;
use crate::api::message::Message;
use vstd::prelude::*;

verus! {

/// Messages that the server sends to a client.
#[derive(Debug, PartialEq)]
pub enum ServerMessage {
    HelloV1(HelloV1),
    ChangePropertiesV1(PropertiesV1),
}

/// The server's answer to a client's greeting.
#[derive(Debug, PartialEq)]
pub struct HelloV1 {}

impl HelloV1 {
    pub fn new() -> (r: Message)
        ensures
            r == Message::ServerMessage(ServerMessage::HelloV1(HelloV1 {})),
    {
        Message::ServerMessage(ServerMessage::HelloV1(HelloV1 {}))
    }
}

#[derive(Debug, PartialEq)]
pub struct ChangePropertiesV1 {
    pub property: PropertiesV1,
}

impl ChangePropertiesV1 {
    pub fn new(p: PropertiesV1) -> (r: Message)
        ensures
            r == Message::ServerMessage(ServerMessage::ChangePropertiesV1(p)),
    {
        Message::ServerMessage(ServerMessage::ChangePropertiesV1(p))
    }
}

} // verus!
