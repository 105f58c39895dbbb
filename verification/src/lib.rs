pub mod api;
pub mod clock;
pub mod common;
pub mod float_bits;
pub mod player;
pub mod server;
