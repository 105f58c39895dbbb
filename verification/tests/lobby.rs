use mpmp::api::bidirectional::PropertiesV1;
use mpmp::api::client;
use mpmp::api::message::Message;
use mpmp::api::server;
use mpmp::common::error::Error;
use mpmp::float_bits::FloatBits;
use mpmp::server::cached_properties::CachedProperties;
use mpmp::server::lobby::{Lobby, LobbyMessage, NewPeer, ReadOutcome, RemovePeer, Reply};

fn bits(x: f64) -> FloatBits {
    FloatBits::from_bits(x.to_bits())
}

fn props(paused: bool, pos: f64, speed: f64) -> PropertiesV1 {
    PropertiesV1::new(paused, bits(pos), bits(speed))
}

fn view(p: &CachedProperties) -> (bool, f64, f64) {
    (
        p.get_paused(),
        f64::from_bits(p.stored_time_pos().to_bits()),
        f64::from_bits(p.get_speed().to_bits()),
    )
}

fn lobby_with(ids: &[u64]) -> Lobby {
    let mut lobby = Lobby::new();
    for id in ids {
        assert!(lobby.handle_lobby_message(Some(NewPeer::new(*id))).is_ok());
    }
    lobby
}

#[test]
fn first_hello_sets_the_lobby_state() {
    let mut lobby = lobby_with(&[7]);
    let reads = vec![ReadOutcome::Messages(vec![client::HelloV1::new(props(false, 42.0, 1.0))])];
    let out = lobby.process_reads(&reads);
    assert_eq!(out.replies, vec![vec![Reply::Hello]]);
    assert_eq!(view(&out.broadcast.unwrap()), (false, 42.0, 1.0));
    assert_eq!(view(&lobby.properties().unwrap()), (false, 42.0, 1.0));
    // The default state is what was current during the tick.
    assert_eq!(view(&out.current), (true, 0.0, 1.0));
}

#[test]
fn late_joiner_is_sent_the_lobby_state() {
    let mut lobby = lobby_with(&[1]);
    lobby.process_reads(&vec![ReadOutcome::Messages(vec![client::HelloV1::new(props(
        false, 10.0, 1.0,
    ))])]);
    lobby.handle_lobby_message(Some(NewPeer::new(2))).unwrap();
    let reads = vec![
        ReadOutcome::Idle,
        ReadOutcome::Messages(vec![client::HelloV1::new(props(true, 99.0, 2.0))]),
    ];
    let out = lobby.process_reads(&reads);
    assert_eq!(out.replies, vec![vec![], vec![Reply::Hello, Reply::CurrentProperties]]);
    assert!(out.broadcast.is_none());
    assert_eq!(view(&out.current), (false, 10.0, 1.0));
    assert_eq!(view(&lobby.properties().unwrap()), (false, 10.0, 1.0));
}

#[test]
fn a_change_is_broadcast_and_kept() {
    let mut lobby = lobby_with(&[1, 2, 3]);
    lobby.process_reads(&vec![
        ReadOutcome::Messages(vec![client::HelloV1::new(props(false, 10.0, 1.0))]),
        ReadOutcome::Idle,
        ReadOutcome::Idle,
    ]);
    let reads = vec![
        ReadOutcome::Idle,
        ReadOutcome::Messages(vec![client::ChangePropertiesV1::new(props(true, 10.0, 1.0))]),
        ReadOutcome::Idle,
    ];
    let out = lobby.process_reads(&reads);
    assert_eq!(view(&out.broadcast.unwrap()), (true, 10.0, 1.0));
    assert_eq!(view(&lobby.properties().unwrap()), (true, 10.0, 1.0));
    assert_eq!(lobby.clients(), &vec![1, 2, 3]);
}

#[test]
fn a_seek_is_adopted_paused() {
    let mut lobby = lobby_with(&[1]);
    lobby.process_reads(&vec![ReadOutcome::Messages(vec![client::HelloV1::new(props(
        false, 10.0, 1.0,
    ))])]);
    // Only the position moved: the lobby pauses.
    let out = lobby.process_reads(&vec![ReadOutcome::Messages(vec![
        client::ChangePropertiesV1::new(props(false, 50.0, 1.0)),
    ])]);
    assert_eq!(view(&out.broadcast.unwrap()), (true, 50.0, 1.0));
    // The speed changed too: taken as it came.
    let out = lobby.process_reads(&vec![ReadOutcome::Messages(vec![
        client::ChangePropertiesV1::new(props(false, 60.0, 2.0)),
    ])]);
    assert_eq!(view(&out.broadcast.unwrap()), (false, 60.0, 2.0));
}

#[test]
fn the_last_change_of_a_tick_wins() {
    let mut lobby = lobby_with(&[1, 2]);
    let reads = vec![
        ReadOutcome::Messages(vec![
            client::ChangePropertiesV1::new(props(false, 5.0, 1.0)),
            Message::ClientMessage(client::ClientMessage::GetPropertiesV1),
        ]),
        ReadOutcome::Messages(vec![client::ChangePropertiesV1::new(props(false, 7.0, 3.0))]),
    ];
    let out = lobby.process_reads(&reads);
    assert_eq!(out.replies, vec![vec![Reply::CurrentProperties], vec![]]);
    assert_eq!(view(&out.broadcast.unwrap()), (false, 7.0, 3.0));
}

#[test]
fn server_messages_from_clients_are_ignored() {
    let mut lobby = lobby_with(&[1]);
    let reads = vec![ReadOutcome::Messages(vec![
        server::HelloV1::new(),
        server::ChangePropertiesV1::new(props(false, 1.0, 1.0)),
    ])];
    let out = lobby.process_reads(&reads);
    assert_eq!(out.replies, vec![vec![]]);
    assert!(out.broadcast.is_none());
    assert!(lobby.properties().is_none());
}

#[test]
fn closed_clients_are_dropped_last_first() {
    let mut lobby = lobby_with(&[10, 20, 30, 40]);
    let reads = vec![
        ReadOutcome::Closed,
        ReadOutcome::Idle,
        ReadOutcome::Closed,
        ReadOutcome::Messages(vec![]),
    ];
    let out = lobby.process_reads(&reads);
    assert_eq!(out.removed, vec![30, 10]);
    assert_eq!(lobby.clients(), &vec![20, 40]);
}

#[test]
fn an_emptied_lobby_forgets_its_state() {
    let mut lobby = lobby_with(&[1]);
    lobby.process_reads(&vec![ReadOutcome::Messages(vec![client::HelloV1::new(props(
        false, 10.0, 1.0,
    ))])]);
    assert!(lobby.properties().is_some());
    let out = lobby.process_reads(&vec![ReadOutcome::Closed]);
    assert_eq!(out.removed, vec![1]);
    assert!(lobby.clients().is_empty());
    assert!(lobby.properties().is_none());
}

#[test]
fn lobby_messages() {
    let mut lobby = lobby_with(&[1, 2]);
    assert!(lobby.handle_lobby_message(None).is_ok());
    // Only the last client can be removed by reference.
    assert!(lobby.handle_lobby_message(Some(RemovePeer::new(1))).is_ok());
    assert_eq!(lobby.clients(), &vec![1, 2]);
    assert!(lobby.handle_lobby_message(Some(RemovePeer::new(2))).is_ok());
    assert_eq!(lobby.clients(), &vec![1]);
    assert!(lobby.handle_lobby_message(Some(LobbyMessage::Exit)).is_err());
}

#[test]
fn remove_by_index_and_by_ref() {
    let mut lobby = lobby_with(&[1, 2, 3]);
    assert!(matches!(lobby.remove_client_by_index(&3), Err(Error::OtherError("Index OOB"))));
    assert!(matches!(lobby.remove_client_by_index(&0), Ok(1)));
    assert_eq!(lobby.clients(), &vec![2, 3]);
    assert!(matches!(lobby.remove_client_by_ref(2), Err(Error::OtherError("Unknown client"))));
    assert!(matches!(lobby.remove_client_by_ref(3), Ok(3)));
    assert!(matches!(lobby.add_client(9), Ok(9)));
    assert_eq!(lobby.clients(), &vec![2, 9]);
}

#[test]
fn the_stored_moment_is_kept() {
    let mut lobby = lobby_with(&[1]);
    lobby.process_reads(&vec![ReadOutcome::Messages(vec![client::HelloV1::new(props(
        false, 10.0, 1.0,
    ))])]);
    let set_at = lobby.properties().unwrap().time_set_at();
    lobby.handle_lobby_message(Some(NewPeer::new(2))).unwrap();
    let out = lobby.process_reads(&vec![
        ReadOutcome::Idle,
        ReadOutcome::Messages(vec![Message::ClientMessage(client::ClientMessage::GetPropertiesV1)]),
    ]);
    assert_eq!(out.current.time_set_at(), set_at);
    assert_eq!(lobby.properties().unwrap().time_set_at(), set_at);
}
