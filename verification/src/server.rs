pub mod bitflags;
pub mod cached_properties;
pub mod lobby;
