use crate::api::bidirectional::PropertiesV1;
use crate::api::message::Message;
use vstd::prelude::*;

verus! {

/// Messages that a client sends to the server.
#[derive(Debug, PartialEq)]
pub enum ClientMessage {
    HelloV1(HelloV1),
    ChangePropertiesV1(PropertiesV1),
    GetPropertiesV1,
}

/// A client's greeting, carrying its own playback state.
#[derive(Debug, PartialEq)]
pub struct HelloV1 {
    pub current_properties: PropertiesV1,
}

impl HelloV1 {
    pub fn new(current_properties: PropertiesV1) -> (r: Message)
        ensures
            r == Message::ClientMessage(ClientMessage::HelloV1(HelloV1 { current_properties })),
    {
        Message::ClientMessage(ClientMessage::HelloV1(HelloV1 { current_properties }))
    }
}

#[derive(Debug, PartialEq)]
pub struct ChangePropertiesV1 {
    pub properties: PropertiesV1,
}

impl ChangePropertiesV1 {
    pub fn new(p: PropertiesV1) -> (r: Message)
        ensures
            r == Message::ClientMessage(ClientMessage::ChangePropertiesV1(p)),
    {
        Message::ClientMessage(ClientMessage::ChangePropertiesV1(p))
    }
}

} // verus!
