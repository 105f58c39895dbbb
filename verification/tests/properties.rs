use mpmp::api::bidirectional::PropertiesV1;
use mpmp::float_bits::FloatBits;
use mpmp::server::bitflags::BitFlag;
use mpmp::server::cached_properties::{CachedProperties, Property};

fn bits(x: f64) -> FloatBits {
    FloatBits::from_bits(x.to_bits())
}

fn cached(paused: bool, pos: f64, speed: f64) -> CachedProperties {
    CachedProperties::from(&PropertiesV1::new(paused, bits(pos), bits(speed)))
}

#[test]
fn property_bits() {
    assert_eq!(Property::Paused.bit(), 1);
    assert_eq!(Property::TimePos.bit(), 2);
    assert_eq!(Property::Speed.bit(), 4);
}

#[test]
fn diff_names_each_differing_property() {
    let a = cached(false, 1.0, 1.0);
    assert_eq!(a.diff(&cached(false, 1.0, 1.0)), 0);
    assert_eq!(a.diff(&cached(true, 1.0, 1.0)), 1);
    assert_eq!(a.diff(&cached(false, 2.0, 1.0)), 2);
    assert_eq!(a.diff(&cached(false, 1.0, 2.0)), 4);
    assert_eq!(a.diff(&cached(true, 2.0, 2.0)), 7);
    assert!(a.diff(&cached(false, 2.0, 1.0)).is(Property::TimePos.bit()));
    assert!(!a.diff(&cached(true, 2.0, 1.0)).is(Property::TimePos.bit()));
    // Positions and speeds are compared as numbers.
    assert_eq!(cached(false, 0.0, 1.0).diff(&cached(false, -0.0, 1.0)), 0);
    assert_eq!(cached(false, f64::NAN, 1.0).diff(&cached(false, f64::NAN, 1.0)), 2);
}

#[test]
fn default_state() {
    let d = CachedProperties::new();
    assert!(d.get_paused());
    assert_eq!(f64::from_bits(d.stored_time_pos().to_bits()), 0.0);
    assert_eq!(f64::from_bits(d.get_speed().to_bits()), 1.0);
}

#[test]
fn setters() {
    let mut p = cached(false, 1.0, 1.0);
    p.set_paused(true);
    p.set_speed(bits(2.0));
    p.set_time_pos(bits(3.0));
    assert!(p.get_paused());
    assert_eq!(f64::from_bits(p.get_speed().to_bits()), 2.0);
    assert_eq!(f64::from_bits(p.stored_time_pos().to_bits()), 3.0);
}

#[test]
fn bit_flags() {
    assert!(7u32.contains(2));
    assert!(!5u32.contains(2));
    assert!(6u32.contains(6));
    assert!(0u32.contains(0));
    assert!(2u32.is(2));
    assert!(!3u32.is(2));
}
