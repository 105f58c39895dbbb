use crate::api::bidirectional::{PropertiesV1, PropsModel};
use crate::api::message::Message;
use crate::api::server::ServerMessage;
use crate::clock::instant_now;
use crate::float_bits::FloatBits;
use std::time::Instant;
use vstd::prelude::*;

verus! {

/// What the client passes on to the media player.
pub enum ClientEvent {
    /// The lobby's playback state changed; the player is to follow it.
    PropertyChange(PlaybackState),
    /// A text to show to the user.
    Info(String),
}

/// A playback state, with the moment it was taken.
#[derive(Clone, Copy, Debug)]
pub struct PlaybackState {
    pub paused: bool,
    time_pos: FloatBits,
    pub speed: FloatBits,
    timestamp: Instant,
}

impl View for PlaybackState {
    type V = PropsModel;

    closed spec fn view(&self) -> PropsModel {
        PropsModel { paused: self.paused, time_pos: self.time_pos.bits, speed: self.speed.bits }
    }
}

impl PlaybackState {
    /// The moment the state was taken.
    pub closed spec fn taken_at(&self) -> Instant {
        self.timestamp
    }

    /// A state taken now.
    pub fn new(paused: bool, time_pos: FloatBits, speed: FloatBits) -> (r: Self)
        ensures
            r@ == (PropsModel { paused, time_pos: time_pos.bits, speed: speed.bits }),
    {
        PlaybackState { paused, time_pos, speed, timestamp: instant_now() }
    }

    /// Whether playback is paused.
    pub fn is_paused(&self) -> (r: bool)
        ensures
            r == self@.paused,
    {
        self.paused
    }

    /// The position as it was when the state was taken.
    pub fn stored_time_pos(&self) -> (r: FloatBits)
        ensures
            r.bits == self@.time_pos,
    {
        self.time_pos
    }

    /// The speed factor.
    pub fn get_speed(&self) -> (r: FloatBits)
        ensures
            r.bits == self@.speed,
    {
        self.speed
    }

    /// The moment the state was taken.
    pub fn timestamp(&self) -> (r: Instant)
        ensures
            r == self.taken_at(),
    {
        self.timestamp
    }

    /// The state as sent to the server: the position as it was taken.
    pub fn to_properties(&self) -> (r: PropertiesV1)
        ensures
            r@ == self@,
    {
        PropertiesV1::new(self.paused, self.time_pos, self.speed)
    }

    /// A state the server announced, taken now.
    pub fn from_properties(p: &PropertiesV1) -> (r: Self)
        ensures
            r@ == p@,
    {
        PlaybackState {
            paused: p.paused(),
            time_pos: p.time_pos(),
            speed: p.speed(),
            timestamp: instant_now(),
        }
    }
}

impl From<PlaybackState> for PropertiesV1 {
    fn from(s: PlaybackState) -> (r: Self)
        ensures
            r@ == s@,
    {
        s.to_properties()
    }
}

impl vstd::std_specs::convert::FromSpecImpl<PlaybackState> for PropertiesV1 {
    /// The contract of `from` states the result through the view.
    open spec fn obeys_from_spec() -> bool {
        false
    }

    open spec fn from_spec(v: PlaybackState) -> PropertiesV1 {
        arbitrary()
    }
}

impl From<PropertiesV1> for PlaybackState {
    fn from(p: PropertiesV1) -> (r: Self)
        ensures
            r@ == p@,
    {
        PlaybackState::from_properties(&p)
    }
}

impl vstd::std_specs::convert::FromSpecImpl<PropertiesV1> for PlaybackState {
    /// The moment is read from the clock; `from` states the rest.
    open spec fn obeys_from_spec() -> bool {
        false
    }

    open spec fn from_spec(v: PropertiesV1) -> PlaybackState {
        arbitrary()
    }
}

/// The playback states that the server announced in `msgs`, in order; any
/// other message is passed over.
pub open spec fn announced_states(msgs: Seq<Message>) -> Seq<PropsModel>
    decreases msgs.len(),
{
    if msgs.len() == 0 {
        Seq::empty()
    } else {
        let rest = announced_states(msgs.drop_last());
        match msgs.last() {
            Message::ServerMessage(ServerMessage::ChangePropertiesV1(p)) => rest.push(p@),
            _ => rest,
        }
    }
}

/// Every state the server announces is passed on as it came, in order, and
/// nothing else is: one more announcement adds exactly its state at the end,
/// and any other message adds nothing.
pub proof fn lemma_announced_states_pass_on(msgs: Seq<Message>, m: Message)
    ensures
        m matches Message::ServerMessage(ServerMessage::ChangePropertiesV1(p)) ==> announced_states(
            msgs.push(m),
        ) == announced_states(msgs).push(p@),
        !(m is ServerMessage && m->ServerMessage_0 is ChangePropertiesV1) ==> announced_states(
            msgs.push(m),
        ) == announced_states(msgs),
{
    assert(msgs.push(m).drop_last() =~= msgs);
}

/// The events that the messages received from the server give: one
/// property change for each state the server announced, in order.
pub fn events_from_messages(msgs: Vec<Message>) -> (r: Vec<ClientEvent>)
    ensures
        r@.len() == announced_states(msgs@).len(),
        forall|i: int|
            0 <= i < r@.len() ==> (#[trigger] r@[i] matches ClientEvent::PropertyChange(s) && s@
                == announced_states(msgs@)[i]),
{
    let mut events: Vec<ClientEvent> = Vec::new();
    let n = msgs.len();
    let mut j: usize = 0;
    assert(msgs@.take(0) =~= Seq::<Message>::empty());
    while j < n
        invariant
            n == msgs@.len(),
            j <= n,
            events@.len() == announced_states(msgs@.take(j as int)).len(),
            forall|i: int|
                0 <= i < events@.len() ==> (#[trigger] events@[i] matches ClientEvent::PropertyChange(
                    s,
                ) && s@ == announced_states(msgs@.take(j as int))[i]),
        decreases n - j,
    {
        let ghost before = announced_states(msgs@.take(j as int));
        match &msgs[j] {
            Message::ServerMessage(ServerMessage::ChangePropertiesV1(p)) => {
                events.push(ClientEvent::PropertyChange(PlaybackState::from_properties(p)));
            },
            _ => {},
        }
        proof {
            let t = msgs@.take(j + 1);
            assert(t.drop_last() =~= msgs@.take(j as int));
            assert(t.last() == msgs@[j as int]);
        }
        j = j + 1;
    }
    assert(msgs@.take(n as int) =~= msgs@);
    events
}

} // verus!
