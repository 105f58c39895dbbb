use mpmp::api::bidirectional::PropertiesV1;
use mpmp::api::client::{self, ClientMessage};
use mpmp::api::message::Message;
use mpmp::api::server::{self, ServerMessage};
use mpmp::float_bits::FloatBits;

fn bits(x: f64) -> FloatBits {
    FloatBits::from_bits(x.to_bits())
}

#[test]
fn properties_keep_their_values() {
    let p = PropertiesV1::new(true, bits(1234.0), bits(1.0));
    assert!(p.paused());
    assert_eq!(f64::from_bits(p.time_pos().to_bits()), 1234.0);
    assert_eq!(f64::from_bits(p.speed().to_bits()), 1.0);
}

#[test]
fn constructors_wrap_in_the_right_variants() {
    let p = PropertiesV1::new(false, bits(3.0), bits(1.5));
    assert_eq!(
        client::HelloV1::new(p),
        Message::ClientMessage(ClientMessage::HelloV1(client::HelloV1 { current_properties: p }))
    );
    assert_eq!(
        client::ChangePropertiesV1::new(p),
        Message::ClientMessage(ClientMessage::ChangePropertiesV1(p))
    );
    assert_eq!(
        server::HelloV1::new(),
        Message::ServerMessage(ServerMessage::HelloV1(server::HelloV1 {}))
    );
    assert_eq!(
        server::ChangePropertiesV1::new(p),
        Message::ServerMessage(ServerMessage::ChangePropertiesV1(p))
    );
    let m: Message = ClientMessage::GetPropertiesV1.into();
    assert_eq!(m, Message::ClientMessage(ClientMessage::GetPropertiesV1));
}

#[test]
fn float_equality_is_numeric() {
    assert!(bits(0.0) == bits(-0.0));
    assert!(bits(f64::NAN) != bits(f64::NAN));
    assert!(bits(1.0) == bits(1.0));
    assert!(bits(1.0) != bits(2.0));
    assert!(bits(f64::NAN).is_nan());
    assert!(!bits(f64::INFINITY).is_nan());
    assert!(bits(f64::INFINITY).same_value(&bits(f64::INFINITY)));
}

#[test]
fn properties_compare_as_numbers() {
    let a = PropertiesV1::new(true, bits(0.0), bits(1.0));
    let b = PropertiesV1::new(true, bits(-0.0), bits(1.0));
    assert_eq!(a, b);
    let c = PropertiesV1::new(true, bits(f64::NAN), bits(1.0));
    assert_ne!(c, c);
}
