use crate::float_bits::FloatBits;
use vstd::prelude::*;

verus! {

/// What the library knows of a playback state: whether it is paused, and the
/// bit patterns of its position (seconds) and speed factor.
pub struct PropsModel {
    pub paused: bool,
    pub time_pos: u64,
    pub speed: u64,
}

/// The playback state that client and server exchange.
#[derive(Clone, Copy, Debug, PartialEq)]
pub struct PropertiesV1 {
    paused: bool,
    time_pos: FloatBits,
    speed: FloatBits,
}

impl View for PropertiesV1 {
    type V = PropsModel;

    closed spec fn view(&self) -> PropsModel {
        PropsModel { paused: self.paused, time_pos: self.time_pos.bits, speed: self.speed.bits }
    }
}

impl PropertiesV1 {
    pub fn new(paused: bool, time_pos: FloatBits, speed: FloatBits) -> (r: Self)
        ensures
            r@ == (PropsModel { paused, time_pos: time_pos.bits, speed: speed.bits }),
    {
        PropertiesV1 { paused, time_pos, speed }
    }

    pub fn paused(&self) -> (r: bool)
        ensures
            r == self@.paused,
    {
        self.paused
    }

    /// The playback position, in seconds.
    pub fn time_pos(&self) -> (r: FloatBits)
        ensures
            r.bits == self@.time_pos,
    {
        self.time_pos
    }

    /// The playback speed factor.
    pub fn speed(&self) -> (r: FloatBits)
        ensures
            r.bits == self@.speed,
    {
        self.speed
    }
}

} // verus!
