use crate::api::bidirectional::{PropertiesV1, PropsModel};
use crate::clock::instant_now;
use crate::float_bits::{ieee_eq, FloatBits};
use crate::server::bitflags::{has_all_bits, BitFlag};
use std::time::Instant;
use vstd::prelude::*;

verus! {

/// The properties of a playback state that can differ between two states.
#[derive(PartialEq, Eq, Structural, Debug, Clone, Copy)]
pub enum Property {
    Paused,
    TimePos,
    Speed,
}

/// The bit that stands for a property in a difference mask.
pub open spec fn property_bit(p: Property) -> u32 {
    match p {
        Property::Paused => 1,
        Property::TimePos => 2,
        Property::Speed => 4,
    }
}

impl Property {
    /// The property's flag: `Paused` is 1, `TimePos` 2, `Speed` 4.
    pub fn bit(&self) -> (r: u32)
        ensures
            r == property_bit(*self),
    {
        match self {
            Property::Paused => 1,
            Property::TimePos => 2,
            Property::Speed => 4,
        }
    }
}

/// The bit pattern of 0.0.
pub const ZERO_BITS: u64 = 0u64;

/// The bit pattern of 1.0.
pub const ONE_BITS: u64 = 0x3ff0_0000_0000_0000u64;

/// The state a lobby starts from: paused at position 0 at normal speed.
pub open spec fn default_model() -> PropsModel {
    PropsModel { paused: true, time_pos: ZERO_BITS, speed: ONE_BITS }
}

/// The mask of the properties in which two states differ, one bit per
/// [`Property`]; positions and speeds are compared as numbers (IEEE 754).
pub open spec fn diff_mask(a: PropsModel, b: PropsModel) -> int {
    (if a.paused != b.paused { 1u32 } else { 0u32 }) + (if !ieee_eq(a.time_pos, b.time_pos) {
        2u32
    } else {
        0u32
    }) + (if !ieee_eq(a.speed, b.speed) { 4u32 } else { 0u32 })
}

/// Two states differ in the same properties whichever is taken first, and
/// a state without NaN differs from itself in none.
pub proof fn lemma_diff_laws(a: PropsModel, b: PropsModel)
    ensures
        diff_mask(a, b) == diff_mask(b, a),
        !crate::float_bits::is_nan_bits(a.time_pos) && !crate::float_bits::is_nan_bits(a.speed)
            ==> diff_mask(a, a) == 0,
        diff_mask(a, b) == 0 <==> (a.paused == b.paused && ieee_eq(a.time_pos, b.time_pos)
            && ieee_eq(a.speed, b.speed)),
        0 <= diff_mask(a, b) < 8,
{
    crate::float_bits::lemma_ieee_eq_laws(a.time_pos, b.time_pos);
    crate::float_bits::lemma_ieee_eq_laws(a.speed, b.speed);
}

/// Each bit of the difference mask answers for its own property alone: bit
/// 1 is set exactly when the pause states differ, bit 2 exactly when the
/// positions are different numbers, bit 4 exactly when the speeds are,
/// whatever the other properties do; no other bit is ever set.
pub proof fn lemma_diff_bits_are_independent(a: PropsModel, b: PropsModel)
    ensures
        0 <= diff_mask(a, b) < 8,
        has_all_bits(diff_mask(a, b) as u32, property_bit(Property::Paused)) <==> a.paused
            != b.paused,
        has_all_bits(diff_mask(a, b) as u32, property_bit(Property::TimePos)) <==> !ieee_eq(
            a.time_pos,
            b.time_pos,
        ),
        has_all_bits(diff_mask(a, b) as u32, property_bit(Property::Speed)) <==> !ieee_eq(
            a.speed,
            b.speed,
        ),
        diff_mask(a, b) % 2 == 1 <==> a.paused != b.paused,
        (diff_mask(a, b) / 2) % 2 == 1 <==> !ieee_eq(a.time_pos, b.time_pos),
        (diff_mask(a, b) / 4) % 2 == 1 <==> !ieee_eq(a.speed, b.speed),
{
    let p: u32 = if a.paused != b.paused { 1 } else { 0 };
    let t: u32 = if !ieee_eq(a.time_pos, b.time_pos) { 1 } else { 0 };
    let v: u32 = if !ieee_eq(a.speed, b.speed) { 1 } else { 0 };
    assert(diff_mask(a, b) == p + 2 * t + 4 * v);
    let d: u32 = (p + 2 * t + 4 * v) as u32;
    assert(p <= 1 && t <= 1 && v <= 1 && d == p + 2 * t + 4 * v ==> {
        &&& ((d & 1) == 1 <==> p == 1)
        &&& ((d & 2) == 2 <==> t == 1)
        &&& ((d & 4) == 4 <==> v == 1)
    }) by (bit_vector);
}

/// The server's copy of the lobby's playback state, with the moment at which
/// its position was taken.
#[derive(Clone, Copy)]
pub struct CachedProperties {
    pub paused: bool,
    time_pos: FloatBits,
    time_set_at: Instant,
    speed: FloatBits,
}

impl View for CachedProperties {
    type V = PropsModel;

    closed spec fn view(&self) -> PropsModel {
        PropsModel { paused: self.paused, time_pos: self.time_pos.bits, speed: self.speed.bits }
    }
}

impl CachedProperties {
    /// The moment at which the position was taken.
    pub closed spec fn set_at(&self) -> Instant {
        self.time_set_at
    }

    pub fn new() -> (r: Self)
        ensures
            r@ == default_model(),
    {
        Self::default()
    }

    pub fn set_paused(&mut self, p: bool)
        ensures
            final(self)@ == (PropsModel { paused: p, ..old(self)@ }),
            final(self).set_at() == old(self).set_at(),
    {
        self.paused = p;
    }

    pub fn get_paused(&self) -> (r: bool)
        ensures
            r == self@.paused,
    {
        self.paused
    }

    /// Stores a new position, taken now.
    pub fn set_time_pos(&mut self, time_pos: FloatBits)
        ensures
            final(self)@ == (PropsModel { time_pos: time_pos.bits, ..old(self)@ }),
    {
        self.time_set_at = instant_now();
        self.time_pos = time_pos;
    }

    /// The position as it was stored, before any time has passed.
    pub fn stored_time_pos(&self) -> (r: FloatBits)
        ensures
            r.bits == self@.time_pos,
    {
        self.time_pos
    }

    /// The moment at which the stored position was taken.
    pub fn time_set_at(&self) -> (r: Instant)
        ensures
            r == self.set_at(),
    {
        self.time_set_at
    }

    pub fn set_speed(&mut self, speed: FloatBits)
        ensures
            final(self)@ == (PropsModel { speed: speed.bits, ..old(self)@ }),
            final(self).set_at() == old(self).set_at(),
    {
        self.speed = speed;
    }

    pub fn get_speed(&self) -> (r: FloatBits)
        ensures
            r.bits == self@.speed,
    {
        self.speed
    }

    /// The properties in which `other` differs from `self`, as a mask of
    /// [`Property`] bits. Positions are compared as stored, not as they have
    /// advanced since.
    pub fn diff(&self, other: &CachedProperties) -> (r: u32)
        ensures
            r == diff_mask(self@, other@),
    {
        let mut diff: u32 = 0;
        if self.paused != other.paused {
            assert((0u32 | 1u32) == 1u32) by (bit_vector);
            diff |= Property::Paused.bit();
        }
        assert(diff == 0 || diff == 1);
        if !self.speed.same_value(&other.speed) {
            assert(diff == 0 || diff == 1 ==> (diff | 4u32) == diff + 4) by (bit_vector);
            diff |= Property::Speed.bit();
        }
        assert(diff == 0 || diff == 1 || diff == 4 || diff == 5);
        if !self.time_pos.same_value(&other.time_pos) {
            assert(diff == 0 || diff == 1 || diff == 4 || diff == 5 ==> (diff | 2u32) == diff + 2)
                by (bit_vector);
            diff |= Property::TimePos.bit();
        }
        diff
    }

    /// The state a client reported, taken now.
    pub fn from_properties(p: &PropertiesV1) -> (r: Self)
        ensures
            r@ == p@,
    {
        CachedProperties {
            paused: p.paused(),
            time_pos: p.time_pos(),
            time_set_at: instant_now(),
            speed: p.speed(),
        }
    }
}

impl<'a> From<&'a PropertiesV1> for CachedProperties {
    fn from(p: &'a PropertiesV1) -> (r: Self)
        ensures
            r@ == p@,
    {
        CachedProperties::from_properties(p)
    }
}

impl<'a> vstd::std_specs::convert::FromSpecImpl<&'a PropertiesV1> for CachedProperties {
    /// The moment is read from the clock, so no spec function gives the whole
    /// result; `from` states what it keeps of its argument.
    open spec fn obeys_from_spec() -> bool {
        false
    }

    open spec fn from_spec(v: &'a PropertiesV1) -> CachedProperties {
        arbitrary()
    }
}

impl Default for CachedProperties {
    fn default() -> (r: Self)
        ensures
            r@ == default_model(),
    {
        CachedProperties {
            paused: true,
            time_pos: FloatBits::from_bits(ZERO_BITS),
            time_set_at: instant_now(),
            speed: FloatBits::from_bits(ONE_BITS),
        }
    }
}

} // verus!
