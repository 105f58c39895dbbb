use crate::api::bidirectional::PropsModel;
use crate::api::client::ClientMessage;
use crate::api::message::Message;
use crate::common::error::Error;
use crate::server::bitflags::BitFlag;
use crate::server::cached_properties::{
    default_model, diff_mask, property_bit, CachedProperties, Property,
};
use vstd::prelude::*;

verus! {

/// A client of the lobby, named by the number its connection was given.
pub type PeerId = u64;

/// What the connection listener tells the lobby.
pub enum LobbyMessage {
    NewPeer(NewPeer),
    RemovePeer(RemovePeer),
    Exit,
}

/// A client has connected.
pub struct NewPeer {
    pub peer: PeerId,
}

impl NewPeer {
    pub fn new(peer: PeerId) -> (r: LobbyMessage)
        ensures
            r == LobbyMessage::NewPeer(NewPeer { peer }),
    {
        LobbyMessage::NewPeer(NewPeer { peer })
    }
}

/// A client is to be dropped.
pub struct RemovePeer {
    pub peer: PeerId,
}

impl RemovePeer {
    pub fn new(peer: PeerId) -> (r: LobbyMessage)
        ensures
            r == LobbyMessage::RemovePeer(RemovePeer { peer }),
    {
        LobbyMessage::RemovePeer(RemovePeer { peer })
    }
}

/// What reading a client's connection gave during one tick.
pub enum ReadOutcome {
    /// The messages that could be decoded from what arrived.
    Messages(Vec<Message>),
    /// The peer closed the connection.
    Closed,
    /// Nothing arrived, or the read failed otherwise.
    Idle,
}

/// A message the server owes one client in answer to what it sent.
#[derive(PartialEq, Eq, Structural, Clone, Copy, Debug)]
pub enum Reply {
    /// The server's greeting.
    Hello,
    /// The lobby's playback state as it stood at the start of the tick.
    CurrentProperties,
}

/// What a tick decided: the answers owed to each client, the clients that
/// left, and the playback state to announce to all that remain.
pub struct TickOutcome {
    /// The lobby's playback state at the start of the tick, which
    /// `Reply::CurrentProperties` sends.
    pub current: CachedProperties,
    /// The answers owed to each client, by its place before the tick.
    pub replies: Vec<Vec<Reply>>,
    /// The clients that closed their connection, in the order they were dropped.
    pub removed: Vec<PeerId>,
    /// The new playback state, to be sent to every client that remains.
    pub broadcast: Option<CachedProperties>,
}

/// The server's lobby: the connected clients, in the order they came, and
/// the playback state they share once one of them has set it.
pub struct Lobby {
    clients: Vec<PeerId>,
    properties: Option<CachedProperties>,
}

/// What the lobby holds, as the contracts speak of it.
pub struct LobbyModel {
    pub clients: Seq<PeerId>,
    pub properties: Option<PropsModel>,
}

pub open spec fn opt_model(o: Option<CachedProperties>) -> Option<PropsModel> {
    match o {
        Some(p) => Some(p@),
        None => None,
    }
}

impl Lobby {
    /// The playback state the lobby keeps, with the moment of its position.
    pub closed spec fn stored(&self) -> Option<CachedProperties> {
        self.properties
    }
}

impl View for Lobby {
    type V = LobbyModel;

    closed spec fn view(&self) -> LobbyModel {
        LobbyModel { clients: self.clients@, properties: opt_model(self.properties) }
    }
}

/// The state that answers and comparisons use during a tick: the lobby's own,
/// or the default state where none has been set.
pub open spec fn current_model(properties: Option<PropsModel>) -> PropsModel {
    match properties {
        Some(p) => p,
        None => default_model(),
    }
}

/// A reported state as the lobby adopts it: a change of the position alone
/// (a seek) pauses playback, so that the clients can catch up.
pub open spec fn adopted(current: PropsModel, reported: PropsModel) -> PropsModel {
    if diff_mask(current, reported) == property_bit(Property::TimePos) {
        PropsModel { paused: true, ..reported }
    } else {
        reported
    }
}

/// The new state after one message, given whether the lobby had a state at
/// the start of the tick, the state then, and the new state so far.
pub open spec fn apply_message(
    had: bool,
    current: PropsModel,
    acc: Option<PropsModel>,
    m: Message,
) -> Option<PropsModel> {
    match m {
        Message::ClientMessage(ClientMessage::HelloV1(hello)) => if had {
            acc
        } else {
            Some(hello.current_properties@)
        },
        Message::ClientMessage(ClientMessage::ChangePropertiesV1(p)) => Some(adopted(current, p@)),
        _ => acc,
    }
}

/// The new state after a client's messages, in order.
pub open spec fn apply_messages(
    had: bool,
    current: PropsModel,
    acc: Option<PropsModel>,
    msgs: Seq<Message>,
) -> Option<PropsModel>
    decreases msgs.len(),
{
    if msgs.len() == 0 {
        acc
    } else {
        apply_message(had, current, apply_messages(had, current, acc, msgs.drop_last()), msgs.last())
    }
}

pub open spec fn messages_of(r: ReadOutcome) -> Seq<Message> {
    match r {
        ReadOutcome::Messages(msgs) => msgs@,
        _ => Seq::empty(),
    }
}

/// The new state after the messages of all clients, client after client.
pub open spec fn apply_reads(had: bool, current: PropsModel, reads: Seq<ReadOutcome>) -> Option<
    PropsModel,
>
    decreases reads.len(),
{
    if reads.len() == 0 {
        None
    } else {
        apply_messages(
            had,
            current,
            apply_reads(had, current, reads.drop_last()),
            messages_of(reads.last()),
        )
    }
}

/// The answers one message earns: a greeting earns a greeting, followed by
/// the lobby's state where it had one; a request for the state earns it.
pub open spec fn reply_to(had: bool, m: Message) -> Seq<Reply> {
    match m {
        Message::ClientMessage(ClientMessage::HelloV1(_)) => if had {
            seq![Reply::Hello, Reply::CurrentProperties]
        } else {
            seq![Reply::Hello]
        },
        Message::ClientMessage(ClientMessage::GetPropertiesV1) => seq![Reply::CurrentProperties],
        _ => Seq::empty(),
    }
}

/// The answers a client's messages earn, in order.
pub open spec fn replies_to(had: bool, msgs: Seq<Message>) -> Seq<Reply>
    decreases msgs.len(),
{
    if msgs.len() == 0 {
        Seq::empty()
    } else {
        replies_to(had, msgs.drop_last()) + reply_to(had, msgs.last())
    }
}

/// The clients from place `i` on whose connection stayed open, in order.
pub open spec fn kept_from(clients: Seq<PeerId>, reads: Seq<ReadOutcome>, i: int) -> Seq<PeerId>
    decreases clients.len() - i,
{
    if i < 0 || i >= clients.len() {
        Seq::empty()
    } else if reads[i] is Closed {
        kept_from(clients, reads, i + 1)
    } else {
        seq![clients[i]] + kept_from(clients, reads, i + 1)
    }
}

/// The clients from place `i` on whose connection closed, last place first.
pub open spec fn closed_from(clients: Seq<PeerId>, reads: Seq<ReadOutcome>, i: int) -> Seq<PeerId>
    decreases clients.len() - i,
{
    if i < 0 || i >= clients.len() {
        Seq::empty()
    } else if reads[i] is Closed {
        closed_from(clients, reads, i + 1).push(clients[i])
    } else {
        closed_from(clients, reads, i + 1)
    }
}

/// The new state a tick announces, if any message set one.
pub open spec fn tick_announcement(before: LobbyModel, reads: Seq<ReadOutcome>) -> Option<
    PropsModel,
> {
    apply_reads(before.properties is Some, current_model(before.properties), reads)
}

/// The lobby after a tick: the clients whose connection stayed open, and the
/// announced state if there was one, else the state as it was; a lobby
/// without clients has no state.
pub open spec fn tick_model(before: LobbyModel, reads: Seq<ReadOutcome>) -> LobbyModel {
    let kept = kept_from(before.clients, reads, 0);
    let new = tick_announcement(before, reads);
    LobbyModel {
        clients: kept,
        properties: if kept.len() == 0 {
            None
        } else if new is Some {
            new
        } else {
            before.properties
        },
    }
}

impl Lobby {
    pub fn new() -> (r: Self)
        ensures
            r@.clients == Seq::<PeerId>::empty(),
            r@.properties is None,
    {
        Lobby { clients: Vec::new(), properties: None }
    }

    /// The clients, in the order they came.
    pub fn clients(&self) -> (r: &Vec<PeerId>)
        ensures
            r@ == self@.clients,
    {
        &self.clients
    }

    /// The lobby's playback state, once a client has set it.
    pub fn properties(&self) -> (r: Option<CachedProperties>)
        ensures
            r == self.stored(),
            opt_model(r) == self@.properties,
    {
        self.properties
    }

    pub fn add_client(&mut self, connection: PeerId) -> (r: Result<PeerId, Error>)
        ensures
            final(self)@.clients == old(self)@.clients.push(connection),
            final(self)@.properties == old(self)@.properties,
            final(self).stored() == old(self).stored(),
            r matches Ok(c) && c == connection,
    {
        self.clients.push(connection);
        Ok(connection)
    }

    pub fn remove_client_by_index(&mut self, index: &usize) -> (r: Result<PeerId, Error>)
        ensures
            final(self)@.properties == old(self)@.properties,
            final(self).stored() == old(self).stored(),
            *index < old(self)@.clients.len() ==> {
                &&& r matches Ok(c) && c == old(self)@.clients[*index as int]
                &&& final(self)@.clients == old(self)@.clients.remove(*index as int)
            },
            *index >= old(self)@.clients.len() ==> {
                &&& r matches Err(Error::OtherError(e)) && e == "Index OOB"
                &&& final(self)@.clients == old(self)@.clients
            },
    {
        if *index >= self.clients.len() {
            return Err(Error::OtherError("Index OOB"));
        }
        let c = self.clients.remove(*index);
        Ok(c)
    }

    /// Drops the given client where it is the last to have come; any other
    /// is left in place and reported as unknown.
    pub fn remove_client_by_ref(&mut self, connection: PeerId) -> (r: Result<PeerId, Error>)
        ensures
            final(self)@.properties == old(self)@.properties,
            final(self).stored() == old(self).stored(),
            ({
                let cs = old(self)@.clients;
                if cs.len() > 0 && cs.last() == connection {
                    &&& r matches Ok(c) && c == connection
                    &&& final(self)@.clients == cs.drop_last()
                } else {
                    &&& r matches Err(Error::OtherError(e)) && e == "Unknown client"
                    &&& final(self)@.clients == cs
                }
            }),
    {
        let n = self.clients.len();
        if n > 0 && self.clients[n - 1] == connection {
            let c = self.clients.pop();
            match c {
                Some(c) => Ok(c),
                None => Err(Error::OtherError("Unknown client")),
            }
        } else {
            Err(Error::OtherError("Unknown client"))
        }
    }

    /// The first step of a tick: acts on the message of the connection
    /// listener, if one came. `Exit` ends the lobby (`Err`); a new peer
    /// joins at the end; a peer to remove is dropped as
    /// [`Lobby::remove_client_by_ref`] does, and it is no error if it is not.
    pub fn handle_lobby_message(&mut self, message: Option<LobbyMessage>) -> (r: Result<(), ()>)
        ensures
            final(self)@.properties == old(self)@.properties,
            final(self).stored() == old(self).stored(),
            r is Err <==> message matches Some(LobbyMessage::Exit),
            match message {
                Some(LobbyMessage::NewPeer(p)) => final(self)@.clients == old(
                    self,
                )@.clients.push(p.peer),
                Some(LobbyMessage::RemovePeer(p)) => {
                    let cs = old(self)@.clients;
                    final(self)@.clients == if cs.len() > 0 && cs.last() == p.peer {
                        cs.drop_last()
                    } else {
                        cs
                    }
                },
                _ => final(self)@.clients == old(self)@.clients,
            },
    {
        match message {
            Some(LobbyMessage::NewPeer(new_peer)) => {
                let _ = self.add_client(new_peer.peer);
                Ok(())
            },
            Some(LobbyMessage::RemovePeer(remove_peer)) => {
                let _ = self.remove_client_by_ref(remove_peer.peer);
                Ok(())
            },
            Some(LobbyMessage::Exit) => Err(()),
            None => Ok(()),
        }
    }
    /// The rest of a tick, once every client has been read (`reads[i]` is
    /// what the client at place `i` sent). The messages are taken client
    /// after client, each in order, against the state the lobby had at the
    /// start of the tick:
    /// - a greeting is answered with the server's greeting; the first client
    ///   of a lobby without a state sets it, a later one is sent the state;
    /// - a reported change becomes the new state, paused if only the
    ///   position moved;
    /// - a request for the state is answered with it.
    ///
    /// The clients that closed their connection are dropped, the last first.
    /// If any message set a new state, the last one is announced to the
    /// clients that remain and kept; a lobby left without clients forgets
    /// its state.
    pub fn process_reads(&mut self, reads: &Vec<ReadOutcome>) -> (out: TickOutcome)
        requires
            reads@.len() == old(self)@.clients.len(),
        ensures
            ({
                let had = old(self)@.properties is Some;
                let current = current_model(old(self)@.properties);
                &&& out.current@ == current
                &&& old(self).stored() matches Some(p) ==> out.current == p
                &&& out.replies@.len() == reads@.len()
                &&& forall|i: int|
                    0 <= i < reads@.len() ==> #[trigger] out.replies@[i]@ == replies_to(
                        had,
                        messages_of(reads@[i]),
                    )
                &&& out.removed@ == closed_from(old(self)@.clients, reads@, 0)
                &&& opt_model(out.broadcast) == tick_announcement(old(self)@, reads@)
                &&& final(self)@ == tick_model(old(self)@, reads@)
                &&& final(self)@.clients.len() > 0 ==> final(self).stored() == if out.broadcast is Some {
                    out.broadcast
                } else {
                    old(self).stored()
                }
                &&& final(self)@.clients.len() == 0 ==> final(self).stored() is None
            }),
    {
        let ghost old_clients = self.clients@;
        let had = self.properties.is_some();
        let current: CachedProperties = match self.properties {
            Some(p) => p,
            None => CachedProperties::default(),
        };
        let ghost cur = current@;
        assert(cur == current_model(old(self)@.properties));

        let mut new_properties: Option<CachedProperties> = None;
        let mut replies: Vec<Vec<Reply>> = Vec::new();
        let n = reads.len();
        let mut i: usize = 0;
        assert(reads@.take(0) =~= Seq::<ReadOutcome>::empty());
        while i < n
            invariant
                n == reads@.len(),
                i <= n,
                had == old(self)@.properties is Some,
                cur == current@,
                replies@.len() == i,
                forall|k: int|
                    0 <= k < i ==> #[trigger] replies@[k]@ == replies_to(
                        had,
                        messages_of(reads@[k]),
                    ),
                opt_model(new_properties) == apply_reads(had, cur, reads@.take(i as int)),
            decreases n - i,
        {
            let ghost before = apply_reads(had, cur, reads@.take(i as int));
            let mut mine: Vec<Reply> = Vec::new();
            match &reads[i] {
                ReadOutcome::Messages(msgs) => {
                    let m = msgs.len();
                    let mut j: usize = 0;
                    assert(msgs@.take(0) =~= Seq::<Message>::empty());
                    while j < m
                        invariant
                            m == msgs@.len(),
                            j <= m,
                            cur == current@,
                            mine@ == replies_to(had, msgs@.take(j as int)),
                            opt_model(new_properties) == apply_messages(
                                had,
                                cur,
                                before,
                                msgs@.take(j as int),
                            ),
                        decreases m - j,
                    {
                        let ghost acc = opt_model(new_properties);
                        match &msgs[j] {
                            Message::ClientMessage(ClientMessage::HelloV1(hello)) => {
                                mine.push(Reply::Hello);
                                if !had {
                                    new_properties = Some(
                                        CachedProperties::from_properties(
                                            &hello.current_properties,
                                        ),
                                    );
                                } else {
                                    mine.push(Reply::CurrentProperties);
                                }
                            },
                            Message::ClientMessage(ClientMessage::ChangePropertiesV1(p)) => {
                                let mut new_state = CachedProperties::from_properties(p);
                                let prop_diff = current.diff(&new_state);
                                if prop_diff.is(Property::TimePos.bit()) {
                                    new_state.set_paused(true);
                                }
                                new_properties = Some(new_state);
                            },
                            Message::ClientMessage(ClientMessage::GetPropertiesV1) => {
                                mine.push(Reply::CurrentProperties);
                            },
                            _ => {},
                        }
                        proof {
                            let t = msgs@.take(j + 1);
                            assert(t.drop_last() =~= msgs@.take(j as int));
                            assert(t.last() == msgs@[j as int]);
                            assert(opt_model(new_properties) == apply_message(
                                had,
                                cur,
                                acc,
                                msgs@[j as int],
                            ));
                            assert(mine@ =~= replies_to(had, msgs@.take(j as int)) + reply_to(
                                had,
                                msgs@[j as int],
                            ));
                        }
                        j = j + 1;
                    }
                    proof {
                        assert(msgs@.take(m as int) =~= msgs@);
                    }
                },
                _ => {},
            }
            proof {
                let t = reads@.take(i + 1);
                assert(t.drop_last() =~= reads@.take(i as int));
                assert(t.last() == reads@[i as int]);
                if !(reads@[i as int] is Messages) {
                    assert(messages_of(reads@[i as int]) =~= Seq::<Message>::empty());
                }
            }
            replies.push(mine);
            i = i + 1;
        }
        assert(reads@.take(n as int) =~= reads@);

        // Drop the clients whose connection closed, from the last place down,
        // so that the places still to visit keep their index.
        let mut removed: Vec<PeerId> = Vec::new();
        let mut k: usize = n;
        while k > 0
            invariant
                n == reads@.len(),
                n == old_clients.len(),
                k <= n,
                self.clients@ == old_clients.take(k as int) + kept_from(old_clients, reads@, k as int),
                removed@ == closed_from(old_clients, reads@, k as int),
                self.properties == old(self).properties,
            decreases k,
        {
            let idx = k - 1;
            proof {
                assert(self.clients@.len() >= k);
            }
            match &reads[idx] {
                ReadOutcome::Closed => {
                    let r = self.remove_client_by_index(&idx);
                    if let Ok(c) = r {
                        removed.push(c);
                    }
                    proof {
                        assert(old_clients.take(k as int) + kept_from(old_clients, reads@, k as int)
                            =~= old_clients.take(idx as int) + (seq![old_clients[idx as int]]
                            + kept_from(old_clients, reads@, k as int)));
                        assert(self.clients@ =~= old_clients.take(idx as int) + kept_from(
                            old_clients,
                            reads@,
                            k as int,
                        ));
                    }
                },
                _ => {
                    proof {
                        assert(old_clients.take(k as int) + kept_from(old_clients, reads@, k as int)
                            =~= old_clients.take(idx as int) + (seq![old_clients[idx as int]]
                            + kept_from(old_clients, reads@, k as int)));
                    }
                },
            }
            k = idx;
        }
        assert(old_clients.take(0) =~= Seq::<PeerId>::empty());
        assert(self.clients@ =~= kept_from(old_clients, reads@, 0));

        // The new state goes to every client that remains, and is kept while
        // any remains.
        if self.clients.len() == 0 {
            self.properties = None;
        } else if new_properties.is_some() {
            self.properties = new_properties;
        }
        assert(self@ == tick_model(old(self)@, reads@));
        TickOutcome { current, replies, removed, broadcast: new_properties }
    }
}

/// A request for the lobby's state is always answered with it, whether or
/// not the lobby had a state, after the answers owed to the earlier
/// messages; and a greeting is always answered with the server's greeting
/// first, followed by the state exactly when the lobby had one.
pub proof fn lemma_requests_and_greetings_are_answered(
    had: bool,
    msgs: Seq<Message>,
    hello: crate::api::client::HelloV1,
)
    ensures
        replies_to(had, msgs.push(Message::ClientMessage(ClientMessage::GetPropertiesV1)))
            == replies_to(had, msgs).push(Reply::CurrentProperties),
        replies_to(had, msgs.push(Message::ClientMessage(ClientMessage::HelloV1(hello))))
            == if had {
            replies_to(had, msgs).push(Reply::Hello).push(Reply::CurrentProperties)
        } else {
            replies_to(had, msgs).push(Reply::Hello)
        },
{
    let g = msgs.push(Message::ClientMessage(ClientMessage::GetPropertiesV1));
    assert(g.drop_last() =~= msgs);
    assert(replies_to(had, g) =~= replies_to(had, msgs).push(Reply::CurrentProperties));
    let h = msgs.push(Message::ClientMessage(ClientMessage::HelloV1(hello)));
    assert(h.drop_last() =~= msgs);
    if had {
        assert(replies_to(had, h) =~= replies_to(had, msgs).push(Reply::Hello).push(
            Reply::CurrentProperties,
        ));
    } else {
        assert(replies_to(had, h) =~= replies_to(had, msgs).push(Reply::Hello));
    }
}

/// The message is a report of a changed playback state.
pub open spec fn is_change(m: Message) -> bool {
    m matches Message::ClientMessage(ClientMessage::ChangePropertiesV1(_))
}

/// Once a lobby has a playback state, greetings and requests for the state
/// leave it as it is: only a reported change can replace it.
pub proof fn lemma_established_state_only_changes_on_report(
    current: PropsModel,
    acc: Option<PropsModel>,
    msgs: Seq<Message>,
)
    requires
        forall|j: int| 0 <= j < msgs.len() ==> !is_change(#[trigger] msgs[j]),
    ensures
        apply_messages(true, current, acc, msgs) == acc,
    decreases msgs.len(),
{
    if msgs.len() > 0 {
        let init = msgs.drop_last();
        assert forall|j: int| 0 <= j < init.len() implies !is_change(#[trigger] init[j]) by {
            assert(init[j] == msgs[j]);
        }
        lemma_established_state_only_changes_on_report(current, acc, init);
        assert(!is_change(msgs[msgs.len() - 1]));
    }
}

/// A client that joins a lobby with a playback state is greeted and sent
/// that state; the first client of a lobby without one is greeted and its
/// own state becomes the lobby's.
pub proof fn lemma_joining_client_is_synchronized(
    current: PropsModel,
    acc: Option<PropsModel>,
    hello: crate::api::client::HelloV1,
)
    ensures
        replies_to(true, seq![Message::ClientMessage(ClientMessage::HelloV1(hello))])
            == seq![Reply::Hello, Reply::CurrentProperties],
        replies_to(false, seq![Message::ClientMessage(ClientMessage::HelloV1(hello))])
            == seq![Reply::Hello],
        apply_messages(
            false,
            current,
            acc,
            seq![Message::ClientMessage(ClientMessage::HelloV1(hello))],
        ) == Some(hello.current_properties@),
{
    let msgs = seq![Message::ClientMessage(ClientMessage::HelloV1(hello))];
    assert(msgs.drop_last() =~= Seq::<Message>::empty());
    assert(replies_to(true, msgs.drop_last()) == Seq::<Reply>::empty());
    assert(replies_to(false, msgs.drop_last()) == Seq::<Reply>::empty());
    assert(replies_to(true, msgs) =~= seq![Reply::Hello, Reply::CurrentProperties]);
    assert(replies_to(false, msgs) =~= seq![Reply::Hello]);
}

/// The new state after a client's messages is the one set by the last of
/// them that sets one: a reported change always does, and a greeting does
/// in a lobby that had no state.
pub proof fn lemma_last_report_wins(
    had: bool,
    current: PropsModel,
    acc: Option<PropsModel>,
    msgs: Seq<Message>,
    p: crate::api::bidirectional::PropertiesV1,
)
    ensures
        apply_messages(
            had,
            current,
            acc,
            msgs.push(Message::ClientMessage(ClientMessage::ChangePropertiesV1(p))),
        ) == Some(adopted(current, p@)),
{
    let all = msgs.push(Message::ClientMessage(ClientMessage::ChangePropertiesV1(p)));
    assert(all.drop_last() =~= msgs);
}

/// A seek (a report in which only the position differs from the lobby's
/// state) is adopted paused; any other report is adopted as it came. The
/// position and speed are always those reported.
pub proof fn lemma_seek_pauses(current: PropsModel, reported: PropsModel)
    ensures
        adopted(current, reported).time_pos == reported.time_pos,
        adopted(current, reported).speed == reported.speed,
        (current.paused == reported.paused && crate::float_bits::ieee_eq(
            current.speed,
            reported.speed,
        ) && !crate::float_bits::ieee_eq(current.time_pos, reported.time_pos)) ==> adopted(
            current,
            reported,
        ).paused,
        !(current.paused == reported.paused && crate::float_bits::ieee_eq(
            current.speed,
            reported.speed,
        ) && !crate::float_bits::ieee_eq(current.time_pos, reported.time_pos)) ==> adopted(
            current,
            reported,
        ) == reported,
{
}

/// A state set earlier in the tick is not lost: after more messages the
/// new state is still there (possibly replaced).
proof fn lemma_apply_messages_keeps_some(
    had: bool,
    current: PropsModel,
    acc: Option<PropsModel>,
    msgs: Seq<Message>,
)
    requires
        acc is Some,
    ensures
        apply_messages(had, current, acc, msgs) is Some,
    decreases msgs.len(),
{
    if msgs.len() > 0 {
        lemma_apply_messages_keeps_some(had, current, acc, msgs.drop_last());
    }
}

/// A change reported by any client during a tick is announced: the tick
/// ends with a new state, which goes to every client that remains.
pub proof fn lemma_reported_change_is_propagated(
    had: bool,
    current: PropsModel,
    reads: Seq<ReadOutcome>,
    i: int,
    j: int,
)
    requires
        0 <= i < reads.len(),
        0 <= j < messages_of(reads[i]).len(),
        is_change(messages_of(reads[i])[j]),
    ensures
        apply_reads(had, current, reads) is Some,
    decreases reads.len(),
{
    let last = reads.len() - 1;
    if i == last {
        let msgs = messages_of(reads[i]);
        let acc = apply_reads(had, current, reads.drop_last());
        lemma_change_in_messages_sets(had, current, acc, msgs, j);
    } else {
        let init = reads.drop_last();
        assert(init[i] == reads[i]);
        lemma_reported_change_is_propagated(had, current, init, i, j);
        lemma_apply_messages_keeps_some(
            had,
            current,
            apply_reads(had, current, init),
            messages_of(reads.last()),
        );
    }
}

proof fn lemma_change_in_messages_sets(
    had: bool,
    current: PropsModel,
    acc: Option<PropsModel>,
    msgs: Seq<Message>,
    j: int,
)
    requires
        0 <= j < msgs.len(),
        is_change(msgs[j]),
    ensures
        apply_messages(had, current, acc, msgs) is Some,
    decreases msgs.len(),
{
    if j == msgs.len() - 1 {
    } else {
        let init = msgs.drop_last();
        assert(init[j] == msgs[j]);
        lemma_change_in_messages_sets(had, current, acc, init, j);
        let mid = apply_messages(had, current, acc, init);
        assert(mid is Some);
    }
}

/// A tick in which no client sent anything leaves the lobby's state as it
/// was (unless no client remains) and announces nothing.
pub proof fn lemma_quiet_tick_changes_nothing(
    had: bool,
    current: PropsModel,
    reads: Seq<ReadOutcome>,
)
    requires
        forall|i: int| 0 <= i < reads.len() ==> messages_of(#[trigger] reads[i]).len() == 0,
    ensures
        apply_reads(had, current, reads) is None,
    decreases reads.len(),
{
    if reads.len() > 0 {
        let init = reads.drop_last();
        assert forall|i: int| 0 <= i < init.len() implies messages_of(#[trigger] init[i]).len()
            == 0 by {
            assert(init[i] == reads[i]);
        }
        lemma_quiet_tick_changes_nothing(had, current, init);
        assert(messages_of(reads[reads.len() - 1]).len() == 0);
    }
}

/// A quiet tick (no client sent anything) keeps the lobby's state while any
/// client remains, and drops only the clients that left.
pub proof fn lemma_quiet_tick_keeps_state(before: LobbyModel, reads: Seq<ReadOutcome>)
    requires
        forall|i: int| 0 <= i < reads.len() ==> messages_of(#[trigger] reads[i]).len() == 0,
        kept_from(before.clients, reads, 0).len() > 0,
    ensures
        tick_announcement(before, reads) is None,
        tick_model(before, reads).properties == before.properties,
{
    lemma_quiet_tick_changes_nothing(
        before.properties is Some,
        current_model(before.properties),
        reads,
    );
}

/// A lobby left without clients forgets its state, so that the next client
/// to join starts it afresh with its own.
pub proof fn lemma_empty_lobby_forgets(before: LobbyModel, reads: Seq<ReadOutcome>)
    requires
        kept_from(before.clients, reads, 0).len() == 0,
    ensures
        tick_model(before, reads).properties is None,
        tick_model(before, reads).clients.len() == 0,
{
}

proof fn lemma_single_hello_sets(
    current: PropsModel,
    reads: Seq<ReadOutcome>,
    k: int,
    hello: crate::api::client::HelloV1,
)
    requires
        0 <= k < reads.len(),
        messages_of(reads[k]) == seq![Message::ClientMessage(ClientMessage::HelloV1(hello))],
        forall|i: int|
            0 <= i < reads.len() && i != k ==> messages_of(#[trigger] reads[i]).len() == 0,
    ensures
        apply_reads(false, current, reads) == Some(hello.current_properties@),
    decreases reads.len(),
{
    let init = reads.drop_last();
    if k == reads.len() - 1 {
        assert forall|i: int| 0 <= i < init.len() implies messages_of(#[trigger] init[i]).len()
            == 0 by {
            assert(init[i] == reads[i]);
        }
        lemma_quiet_tick_changes_nothing(false, current, init);
        lemma_joining_client_is_synchronized(current, None, hello);
    } else {
        assert(init[k] == reads[k]);
        assert forall|i: int| 0 <= i < init.len() && i != k implies messages_of(
            #[trigger] init[i],
        ).len() == 0 by {
            assert(init[i] == reads[i]);
        }
        lemma_single_hello_sets(current, init, k, hello);
        assert(messages_of(reads[reads.len() - 1]).len() == 0);
    }
}

/// The flying start: in a lobby without a state, a client's greeting, the
/// only message of its tick, makes that client's playback state the
/// lobby's (as long as any client remains).
pub proof fn lemma_first_client_sets_state(
    before: LobbyModel,
    reads: Seq<ReadOutcome>,
    k: int,
    hello: crate::api::client::HelloV1,
)
    requires
        before.properties is None,
        kept_from(before.clients, reads, 0).len() > 0,
        0 <= k < reads.len(),
        messages_of(reads[k]) == seq![Message::ClientMessage(ClientMessage::HelloV1(hello))],
        forall|i: int|
            0 <= i < reads.len() && i != k ==> messages_of(#[trigger] reads[i]).len() == 0,
    ensures
        tick_announcement(before, reads) == Some(hello.current_properties@),
        tick_model(before, reads).properties == Some(hello.current_properties@),
{
    lemma_single_hello_sets(current_model(before.properties), reads, k, hello);
}

/// A client that joins and is then removed by reference leaves the list of
/// clients as it was before it joined.
pub proof fn lemma_add_then_remove_restores(clients: Seq<PeerId>, peer: PeerId)
    ensures
        ({
            let cs = clients.push(peer);
            &&& cs.len() > 0 && cs.last() == peer
            &&& cs.drop_last() == clients
        }),
{
    assert(clients.push(peer).drop_last() =~= clients);
}

/// Every client either stays or is dropped, never both: the clients that
/// stay and those dropped make up, between them, as many as there were.
pub proof fn lemma_clients_partitioned(clients: Seq<PeerId>, reads: Seq<ReadOutcome>, i: int)
    requires
        0 <= i <= clients.len(),
    ensures
        kept_from(clients, reads, i).len() + closed_from(clients, reads, i).len() == clients.len()
            - i,
    decreases clients.len() - i,
{
    if i < clients.len() {
        lemma_clients_partitioned(clients, reads, i + 1);
    }
}

} // verus!
