use mpmp::api::bidirectional::PropertiesV1;
use mpmp::api::message::Message;
use mpmp::api::{client, server};
use mpmp::float_bits::FloatBits;
use mpmp::common::error::Error;
use mpmp::player::client::{link_step, not_connected, reconnect_due, LinkEvent};
use mpmp::player::events::{events_from_messages, ClientEvent, PlaybackState};
use mpmp::player::sync::{
    classify_property, pause_differs, value_differs, ObservedProperty, PlayerEvent, PlayerSync,
    SkipFlags, SyncAction,
};

fn bits(x: f64) -> FloatBits {
    FloatBits::from_bits(x.to_bits())
}

#[test]
fn only_announced_states_become_events() {
    let msgs: Vec<Message> = vec![
        server::HelloV1::new(),
        server::ChangePropertiesV1::new(PropertiesV1::new(true, bits(5.0), bits(1.0))),
        client::HelloV1::new(PropertiesV1::new(false, bits(1.0), bits(1.0))),
        server::ChangePropertiesV1::new(PropertiesV1::new(false, bits(6.0), bits(2.0))),
    ];
    let events = events_from_messages(msgs);
    assert_eq!(events.len(), 2);
    match &events[0] {
        ClientEvent::PropertyChange(s) => {
            assert!(s.is_paused());
            assert_eq!(f64::from_bits(s.stored_time_pos().to_bits()), 5.0);
        },
        _ => panic!("expected a property change"),
    }
    match &events[1] {
        ClientEvent::PropertyChange(s) => {
            assert!(!s.paused);
            assert_eq!(f64::from_bits(s.speed.to_bits()), 2.0);
        },
        _ => panic!("expected a property change"),
    }
}

#[test]
fn playback_state_round_trip() {
    let s = PlaybackState::new(true, bits(12.5), bits(1.25));
    let p: PropertiesV1 = s.into();
    assert!(p.paused());
    assert_eq!(f64::from_bits(p.time_pos().to_bits()), 12.5);
    assert_eq!(f64::from_bits(p.speed().to_bits()), 1.25);
    let back = PlaybackState::from(p);
    assert_eq!(f64::from_bits(back.stored_time_pos().to_bits()), 12.5);
}

#[test]
fn reconnect_after_five_seconds() {
    assert!(!reconnect_due(0));
    assert!(!reconnect_due(4));
    assert!(reconnect_due(5));
    assert!(reconnect_due(60));
}

#[test]
fn first_reports_are_the_player_settling() {
    let mut sync = PlayerSync::new();
    assert_eq!(sync.on_event(PlayerEvent::PropertyChange(ObservedProperty::Pause), true), SyncAction::Nothing);
    assert_eq!(
        sync.on_event(PlayerEvent::PropertyChange(ObservedProperty::Pause), true),
        SyncAction::SignalPropertyChange
    );
    assert_eq!(sync.on_event(PlayerEvent::PlaybackRestart, true), SyncAction::Nothing);
    assert_eq!(sync.on_event(PlayerEvent::PlaybackRestart, true), SyncAction::SignalPropertyChange);
    assert_eq!(sync.on_event(PlayerEvent::PropertyChange(ObservedProperty::Speed), false), SyncAction::Nothing);
    assert_eq!(sync.on_event(PlayerEvent::PropertyChange(ObservedProperty::Speed), false), SyncAction::Nothing);
    assert_eq!(sync.on_event(PlayerEvent::PropertyChange(ObservedProperty::Other), true), SyncAction::Nothing);
    assert_eq!(sync.on_event(PlayerEvent::Shutdown, true), SyncAction::Stop);
}

#[test]
fn own_changes_are_not_echoed() {
    let mut sync = PlayerSync::new();
    sync.on_event(PlayerEvent::PropertyChange(ObservedProperty::Speed), true);
    let state = PlaybackState::new(false, bits(3.0), bits(2.0));
    sync.follow(state, SkipFlags { seek: false, pause: false, speed: true });
    assert!(sync.desired_state().is_some());
    assert_eq!(sync.on_event(PlayerEvent::PropertyChange(ObservedProperty::Speed), true), SyncAction::Nothing);
    assert_eq!(
        sync.on_event(PlayerEvent::PropertyChange(ObservedProperty::Speed), true),
        SyncAction::SignalPropertyChange
    );
}

#[test]
fn desync_is_checked_every_5000_idle_rounds() {
    let mut sync = PlayerSync::new();
    // No lobby state yet: nothing to check against.
    assert_eq!(sync.on_event(PlayerEvent::Idle, true), SyncAction::Nothing);
    let mut sync = PlayerSync::new();
    sync.follow(PlaybackState::new(false, bits(0.0), bits(1.0)), SkipFlags { seek: false, pause: false, speed: false });
    assert_eq!(sync.on_event(PlayerEvent::Idle, true), SyncAction::CheckDesync);
    for _ in 1..5000 {
        assert_eq!(sync.on_event(PlayerEvent::Idle, true), SyncAction::Nothing);
    }
    assert_eq!(sync.on_event(PlayerEvent::Idle, true), SyncAction::CheckDesync);
    // During a seek nothing is checked until playback restarts.
    sync.on_event(PlayerEvent::Seek, true);
    for _ in 0..6000 {
        assert_eq!(sync.on_event(PlayerEvent::Idle, true), SyncAction::Nothing);
    }
    sync.on_event(PlayerEvent::PlaybackRestart, true);
    // The count stood at 1 since the last check; the seek did not advance it.
    for _ in 1..5000 {
        assert_eq!(sync.on_event(PlayerEvent::Idle, true), SyncAction::Nothing);
    }
    assert_eq!(sync.on_event(PlayerEvent::Idle, true), SyncAction::CheckDesync);
}

#[test]
fn what_to_set_on_the_player() {
    assert!(pause_differs(Some(true), false));
    assert!(!pause_differs(Some(false), false));
    assert!(!pause_differs(None, true));
    assert!(value_differs(Some(bits(1.0)), bits(2.0)));
    assert!(!value_differs(Some(bits(2.0)), bits(2.0)));
    assert!(!value_differs(None, bits(2.0)));
    assert!(!value_differs(Some(bits(-0.0)), bits(0.0)));
    assert!(value_differs(None, bits(f64::NAN)));
}

#[test]
fn property_names() {
    assert_eq!(classify_property(b"pause"), ObservedProperty::Pause);
    assert_eq!(classify_property(b"speed"), ObservedProperty::Speed);
    assert_eq!(classify_property(b"time-pos"), ObservedProperty::Other);
    assert_eq!(classify_property(b"paus"), ObservedProperty::Other);
}

#[test]
fn connection_events() {
    let s = link_step(LinkEvent::ConnectFailed);
    assert!(!s.connected && s.restart_clock && s.notice.is_none());
    let s = link_step(LinkEvent::SessionFailed);
    assert!(!s.connected && s.restart_clock);
    assert_eq!(s.notice, Some("[mpmp] Failed to connect"));
    let s = link_step(LinkEvent::SessionEstablished);
    assert!(s.connected && !s.restart_clock);
    assert_eq!(s.notice, Some("[mpmp] Connected"));
    let s = link_step(LinkEvent::TransferFailed);
    assert!(!s.connected && s.restart_clock);
    assert_eq!(s.notice, Some("[mpmp] Connection lost"));
    assert!(matches!(not_connected(), Error::OtherError("Not connected")));
}
