pub mod bidirectional;
pub mod client;
pub mod codec;
pub mod message;
pub mod server;
