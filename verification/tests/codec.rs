use mpmp::api::codec::split_frames;
use mpmp::common::error::Error;
use mpmp::common::socket::{received_frames, BUF_SIZE};
use std::collections::BTreeMap;

type Props = (bool, f64, f64);

/// The MessagePack that the server's greeting is encoded as.
fn server_hello() -> BTreeMap<&'static str, BTreeMap<&'static str, Vec<u8>>> {
    let mut inner = BTreeMap::new();
    inner.insert("HelloV1", Vec::new());
    let mut outer = BTreeMap::new();
    outer.insert("ServerMessage", inner);
    outer
}

/// The MessagePack that the server's announcement of a state is encoded as.
fn server_change(p: Props) -> BTreeMap<&'static str, BTreeMap<&'static str, Props>> {
    let mut inner = BTreeMap::new();
    inner.insert("ChangePropertiesV1", p);
    let mut outer = BTreeMap::new();
    outer.insert("ServerMessage", inner);
    outer
}

/// The MessagePack that a client's greeting is encoded as.
fn client_hello(p: Props) -> BTreeMap<&'static str, BTreeMap<&'static str, (Props,)>> {
    let mut inner = BTreeMap::new();
    inner.insert("HelloV1", (p,));
    let mut outer = BTreeMap::new();
    outer.insert("ClientMessage", inner);
    outer
}

#[test]
fn can_decode_multi_object_buffer() {
    let m1 = server_hello();
    let m2 = server_change((true, 1234.0, 1.0));
    let m3 = client_hello((true, 1234.0, 1.0));
    let enc_1 = rmp_serde::to_vec(&m1).unwrap();
    let enc_2 = rmp_serde::to_vec(&m2).unwrap();
    let enc_3 = rmp_serde::to_vec(&m3).unwrap();
    let combined = vec![enc_1.clone(), enc_2.clone(), enc_3.clone()].concat();

    let mut decoded = split_frames(combined.as_slice());

    assert_eq!(decoded.len(), 3);
    let f3 = decoded.pop().unwrap();
    let f2 = decoded.pop().unwrap();
    let f1 = decoded.pop().unwrap();
    assert_eq!(f3, enc_3);
    assert_eq!(f2, enc_2);
    assert_eq!(f1, enc_1);
    assert_eq!(m3, rmp_serde::from_slice(&f3).unwrap());
    assert_eq!(m2, rmp_serde::from_slice(&f2).unwrap());
    assert_eq!(m1, rmp_serde::from_slice(&f1).unwrap());
}

#[test]
fn frames_stop_at_an_incomplete_value() {
    let enc = rmp_serde::to_vec(&server_hello()).unwrap();
    let mut bytes = enc.clone();
    // A map header announcing one entry, with nothing after it.
    bytes.push(0x81);
    let frames = split_frames(&bytes);
    assert_eq!(frames, vec![enc]);
}

#[test]
fn no_frames_in_an_empty_buffer() {
    assert!(split_frames(&[]).is_empty());
    // 0xc1 is never used in MessagePack.
    assert!(split_frames(&[0xc1, 0x00]).is_empty());
}

#[test]
fn a_receive_buffer_is_split_whole() {
    let enc = rmp_serde::to_vec(&server_change((false, 2.5, 1.0))).unwrap();
    let mut buf = vec![0u8; BUF_SIZE];
    buf[..enc.len()].copy_from_slice(&enc);
    let frames = received_frames(Ok(enc.len()), &buf).unwrap().unwrap();
    // The message, then every zero byte of the unused rest of the buffer
    // (each a MessagePack integer 0), which does not decode as a message.
    assert_eq!(frames[0], enc);
    assert_eq!(frames.len(), 1 + BUF_SIZE - enc.len());
    assert!(frames[1..].iter().all(|f| f == &vec![0u8]));
}

#[test]
fn a_zero_length_read_means_the_peer_closed() {
    let buf = vec![0u8; BUF_SIZE];
    assert!(matches!(received_frames(Ok(0), &buf), Err(Error::SocketClosedError)));
}

#[test]
fn a_failed_read_means_nothing_arrived() {
    let buf = vec![0u8; BUF_SIZE];
    let would_block = std::io::Error::new(std::io::ErrorKind::WouldBlock, "empty");
    assert!(matches!(received_frames(Err(would_block), &buf), Ok(None)));
}
