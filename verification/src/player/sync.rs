use crate::api::bidirectional::PropsModel;
use crate::float_bits::{ieee_eq, FloatBits};
use crate::player::events::PlaybackState;
use vstd::prelude::*;

verus! {

/// How many idle rounds pass between two checks of the player's position
/// against the lobby's.
pub const DESYNC_CHECK_EVERY: i32 = 5000;

/// A property of the player whose change it reports.
#[derive(PartialEq, Eq, Structural, Clone, Copy, Debug)]
pub enum ObservedProperty {
    Pause,
    Speed,
    Other,
}

/// An event of the media player, as the synchronisation sees it.
#[derive(PartialEq, Eq, Structural, Clone, Copy, Debug)]
pub enum PlayerEvent {
    /// The player is shutting down.
    Shutdown,
    /// The user or the plugin started a seek.
    Seek,
    /// An observed property changed.
    PropertyChange(ObservedProperty),
    /// Nothing happened in this round.
    Idle,
    /// Playback (re)started, after loading a file or after a seek.
    PlaybackRestart,
    /// Any other event.
    Other,
}

/// What the plugin is to do after an event.
#[derive(PartialEq, Eq, Structural, Clone, Copy, Debug)]
pub enum SyncAction {
    /// Leave the event loop: the player shuts down.
    Stop,
    /// Nothing.
    Nothing,
    /// Tell the server the player's current playback state.
    SignalPropertyChange,
    /// Compare the player's position with the lobby's and, where they have
    /// drifted apart, apply the lobby's state.
    CheckDesync,
}

/// Which of the next property changes the player reports are echoes of a
/// change the plugin itself made to follow the lobby, and so are not sent
/// back to the server.
#[derive(PartialEq, Eq, Structural, Clone, Copy, Debug)]
pub struct SkipFlags {
    pub seek: bool,
    pub pause: bool,
    pub speed: bool,
}

/// What the synchronisation holds, as the contracts speak of it.
pub struct SyncModel {
    pub skips: SkipFlags,
    pub dont_fix_desync: bool,
    pub desync_check_ctr: i32,
    pub desired: Option<PropsModel>,
}

/// The plugin's synchronisation between the media player and the lobby.
pub struct PlayerSync {
    skip_seek_sync: bool,
    skip_pause_sync: bool,
    skip_speed_sync: bool,
    dont_fix_desync: bool,
    desync_check_ctr: i32,
    desired_state: Option<PlaybackState>,
}

pub open spec fn opt_state_model(o: Option<PlaybackState>) -> Option<PropsModel> {
    match o {
        Some(s) => Some(s@),
        None => None,
    }
}

impl View for PlayerSync {
    type V = SyncModel;

    closed spec fn view(&self) -> SyncModel {
        SyncModel {
            skips: SkipFlags {
                seek: self.skip_seek_sync,
                pause: self.skip_pause_sync,
                speed: self.skip_speed_sync,
            },
            dont_fix_desync: self.dont_fix_desync,
            desync_check_ctr: self.desync_check_ctr,
            desired: opt_state_model(self.desired_state),
        }
    }
}

/// A reported change of a property is sent to the server unless it is the
/// echo of the plugin's own change (then only the echo flag is cleared), or
/// there is no server connection yet.
pub open spec fn echo_step(skip: bool, has_client: bool) -> (bool, SyncAction) {
    (false, if !skip && has_client { SyncAction::SignalPropertyChange } else { SyncAction::Nothing })
}

/// The transition of the synchronisation on a player event, given whether
/// the plugin has a client connection to the server: the new state and
/// what the plugin is to do.
pub open spec fn sync_step(s: SyncModel, event: PlayerEvent, has_client: bool) -> (
    SyncModel,
    SyncAction,
) {
    match event {
        PlayerEvent::Shutdown => (s, SyncAction::Stop),
        PlayerEvent::Seek => (SyncModel { dont_fix_desync: true, ..s }, SyncAction::Nothing),
        PlayerEvent::PropertyChange(ObservedProperty::Pause) => {
            let (skip, act) = echo_step(s.skips.pause, has_client);
            (SyncModel { skips: SkipFlags { pause: skip, ..s.skips }, ..s }, act)
        },
        PlayerEvent::PropertyChange(ObservedProperty::Speed) => {
            let (skip, act) = echo_step(s.skips.speed, has_client);
            (SyncModel { skips: SkipFlags { speed: skip, ..s.skips }, ..s }, act)
        },
        PlayerEvent::Idle => if s.dont_fix_desync {
            (s, SyncAction::Nothing)
        } else if s.desync_check_ctr % 5000 == 0 && s.desired is Some {
            (
                SyncModel { desync_check_ctr: 1, ..s },
                if has_client { SyncAction::CheckDesync } else { SyncAction::Nothing },
            )
        } else {
            (
                SyncModel { desync_check_ctr: s.desync_check_ctr.wrapping_add(1), ..s },
                SyncAction::Nothing,
            )
        },
        PlayerEvent::PlaybackRestart => {
            let (skip, act) = echo_step(s.skips.seek, has_client);
            (
                SyncModel { skips: SkipFlags { seek: skip, ..s.skips }, dont_fix_desync: false, ..s },
                act,
            )
        },
        _ => (s, SyncAction::Nothing),
    }
}

impl PlayerSync {
    /// The state before the first event: the first report of each property
    /// is taken for the player settling, not for the user's doing, and no
    /// lobby state is known yet.
    pub fn new() -> (r: Self)
        ensures
            r@ == (SyncModel {
                skips: SkipFlags { seek: true, pause: true, speed: true },
                dont_fix_desync: false,
                desync_check_ctr: 0,
                desired: None,
            }),
    {
        PlayerSync {
            skip_seek_sync: true,
            skip_pause_sync: true,
            skip_speed_sync: true,
            dont_fix_desync: false,
            desync_check_ctr: 0,
            desired_state: None,
        }
    }

    /// The lobby's state that the player follows, with the moment it was
    /// taken, once one has arrived.
    pub closed spec fn desired_full(&self) -> Option<PlaybackState> {
        self.desired_state
    }

    /// The lobby's state that the player follows, once one has arrived.
    pub fn desired_state(&self) -> (r: Option<PlaybackState>)
        ensures
            r == self.desired_full(),
            opt_state_model(r) == self@.desired,
    {
        self.desired_state
    }

    /// Acts on a player event; `has_client` tells whether the plugin has a
    /// connection to the server (on a playback restart, after it has made
    /// sure of one).
    pub fn on_event(&mut self, event: PlayerEvent, has_client: bool) -> (r: SyncAction)
        ensures
            (final(self)@, r) == sync_step(old(self)@, event, has_client),
            final(self).desired_full() == old(self).desired_full(),
    {
        match event {
            PlayerEvent::Shutdown => SyncAction::Stop,
            PlayerEvent::Seek => {
                self.dont_fix_desync = true;
                SyncAction::Nothing
            },
            PlayerEvent::PropertyChange(ObservedProperty::Pause) => {
                let act = if !self.skip_pause_sync && has_client {
                    SyncAction::SignalPropertyChange
                } else {
                    SyncAction::Nothing
                };
                self.skip_pause_sync = false;
                act
            },
            PlayerEvent::PropertyChange(ObservedProperty::Speed) => {
                let act = if !self.skip_speed_sync && has_client {
                    SyncAction::SignalPropertyChange
                } else {
                    SyncAction::Nothing
                };
                self.skip_speed_sync = false;
                act
            },
            PlayerEvent::Idle => {
                let mut act = SyncAction::Nothing;
                if !self.dont_fix_desync {
                    if self.desync_check_ctr % DESYNC_CHECK_EVERY == 0
                        && self.desired_state.is_some() {
                        if has_client {
                            act = SyncAction::CheckDesync;
                        }
                        self.desync_check_ctr = 0;
                    }
                    self.desync_check_ctr = self.desync_check_ctr.wrapping_add(1);
                }
                act
            },
            PlayerEvent::PlaybackRestart => {
                let act = if !self.skip_seek_sync && has_client {
                    SyncAction::SignalPropertyChange
                } else {
                    SyncAction::Nothing
                };
                self.skip_seek_sync = false;
                self.dont_fix_desync = false;
                act
            },
            _ => SyncAction::Nothing,
        }
    }

    /// Records which properties the plugin just changed to bring the player
    /// back to the lobby's state, so that their echoes are not sent back.
    pub fn adopt_skips(&mut self, skips: SkipFlags)
        ensures
            final(self)@ == (SyncModel { skips, ..old(self)@ }),
            final(self).desired_full() == old(self).desired_full(),
    {
        self.skip_seek_sync = skips.seek;
        self.skip_pause_sync = skips.pause;
        self.skip_speed_sync = skips.speed;
    }

    /// The server announced a new state, which the plugin has applied to the
    /// player (changing the properties named in `skips`): it becomes the
    /// state the player follows.
    pub fn follow(&mut self, desired: PlaybackState, skips: SkipFlags)
        ensures
            final(self)@ == (SyncModel { skips, desired: Some(desired@), ..old(self)@ }),
            final(self).desired_full() == Some(desired),
    {
        self.adopt_skips(skips);
        self.desired_state = Some(desired);
    }
}

/// A change the plugin made itself to follow the lobby is not echoed back
/// to the server: the player's first report of it is passed over; the next
/// report of the same property, being the user's, is sent (given a
/// connection).
pub proof fn lemma_own_change_not_echoed(s: SyncModel, prop: ObservedProperty)
    requires
        prop != ObservedProperty::Other,
        prop == ObservedProperty::Pause ==> s.skips.pause,
        prop == ObservedProperty::Speed ==> s.skips.speed,
    ensures
        ({
            let (s1, a1) = sync_step(s, PlayerEvent::PropertyChange(prop), true);
            let (s2, a2) = sync_step(s1, PlayerEvent::PropertyChange(prop), true);
            a1 == SyncAction::Nothing && a2 == SyncAction::SignalPropertyChange
        }),
{
}

/// A seek leaves the echo flags as they were: a seek the plugin made itself
/// to follow the lobby is still recognised when playback restarts after it,
/// and is not sent back to the server.
pub proof fn lemma_seek_keeps_echo_flags(s: SyncModel, has_client: bool)
    ensures
        sync_step(s, PlayerEvent::Seek, has_client).0.skips == s.skips,
        sync_step(s, PlayerEvent::Seek, has_client).1 == SyncAction::Nothing,
        s.skips.seek ==> sync_step(
            sync_step(s, PlayerEvent::Seek, has_client).0,
            PlayerEvent::PlaybackRestart,
            has_client,
        ).1 == SyncAction::Nothing,
        !s.skips.seek && has_client ==> sync_step(
            sync_step(s, PlayerEvent::Seek, has_client).0,
            PlayerEvent::PlaybackRestart,
            has_client,
        ).1 == SyncAction::SignalPropertyChange,
{
}

/// After a seek the position is not corrected until playback has restarted:
/// idle rounds in between change nothing and check nothing, and the restart
/// lifts the hold.
pub proof fn lemma_seek_holds_desync_fix(s: SyncModel, has_client: bool)
    ensures
        ({
            let (held, _) = sync_step(s, PlayerEvent::Seek, has_client);
            let (idle, act) = sync_step(held, PlayerEvent::Idle, has_client);
            let (restarted, _) = sync_step(idle, PlayerEvent::PlaybackRestart, has_client);
            &&& idle == held
            &&& act == SyncAction::Nothing
            &&& !restarted.dont_fix_desync
        }),
{
}

/// `n` idle rounds in a row: the state after them and the actions they gave.
pub open spec fn run_idle(s: SyncModel, n: nat, has_client: bool) -> (SyncModel, Seq<SyncAction>)
    decreases n,
{
    if n == 0 {
        (s, Seq::empty())
    } else {
        let (s1, a) = sync_step(s, PlayerEvent::Idle, has_client);
        let (s2, acts) = run_idle(s1, (n - 1) as nat, has_client);
        (s2, seq![a] + acts)
    }
}

/// The player's position is compared with the lobby's once every 5000 idle
/// rounds: from a count of `c` (as right after a check, where it is 1), the
/// idle rounds up to the count of 5000 check nothing.
pub proof fn lemma_desync_checks_are_spaced(s: SyncModel, n: nat, has_client: bool)
    requires
        !s.dont_fix_desync,
        1 <= s.desync_check_ctr,
        s.desync_check_ctr + n <= 5000,
    ensures
        run_idle(s, n, has_client).0.desync_check_ctr == s.desync_check_ctr + n,
        forall|i: int|
            0 <= i < n ==> #[trigger] run_idle(s, n, has_client).1[i] == SyncAction::Nothing,
        run_idle(s, n, has_client).1.len() == n,
    decreases n,
{
    if n > 0 {
        let c = s.desync_check_ctr;
        assert(c % 5000 != 0);
        assert(c < 0x7fff_ffff);
        assert(c.wrapping_add(1) == c + 1);
        let (s1, a) = sync_step(s, PlayerEvent::Idle, has_client);
        lemma_desync_checks_are_spaced(s1, (n - 1) as nat, has_client);
        let acts = run_idle(s1, (n - 1) as nat, has_client).1;
        assert forall|i: int| 0 <= i < n implies #[trigger] run_idle(s, n, has_client).1[i]
            == SyncAction::Nothing by {
            if i > 0 {
                assert(run_idle(s, n, has_client).1[i] == acts[i - 1]);
            }
        }
    }
}

/// A round whose count has reached a multiple of 5000 checks the position,
/// once the lobby's state is known and the plugin is connected, and starts
/// the count anew.
pub proof fn lemma_desync_check_due(s: SyncModel)
    requires
        !s.dont_fix_desync,
        s.desync_check_ctr % 5000 == 0,
        s.desired is Some,
    ensures
        sync_step(s, PlayerEvent::Idle, true).1 == SyncAction::CheckDesync,
        sync_step(s, PlayerEvent::Idle, true).0.desync_check_ctr == 1,
{
}

/// Whether the player's pause state is to be set: it differs from the
/// desired one (a state the player could not report is taken as agreeing).
pub fn pause_differs(actual: Option<bool>, desired: bool) -> (r: bool)
    ensures
        r == match actual {
            Some(a) => a != desired,
            None => false,
        },
{
    match actual {
        Some(a) => a != desired,
        None => false,
    }
}

/// Whether a numeric property of the player (speed, position) is to be set:
/// its value, or the desired value where the player could not report it, is
/// not equal as a number to the desired one. A desired NaN is never equal,
/// so it is always set.
pub fn value_differs(actual: Option<FloatBits>, desired: FloatBits) -> (r: bool)
    ensures
        r == !ieee_eq(
            match actual {
                Some(a) => a.bits,
                None => desired.bits,
            },
            desired.bits,
        ),
{
    let a = match actual {
        Some(a) => a,
        None => desired,
    };
    !a.same_value(&desired)
}

/// The name of the pause property, `pause`, in ASCII.
pub open spec fn pause_name() -> Seq<u8> {
    seq![0x70u8, 0x61u8, 0x75u8, 0x73u8, 0x65u8]
}

/// The name of the speed property, `speed`, in ASCII.
pub open spec fn speed_name() -> Seq<u8> {
    seq![0x73u8, 0x70u8, 0x65u8, 0x65u8, 0x64u8]
}

/// Which of the observed properties the name the player reported is.
pub fn classify_property(name: &[u8]) -> (r: ObservedProperty)
    ensures
        r == ObservedProperty::Pause <==> name@ == pause_name(),
        r == ObservedProperty::Speed <==> name@ == speed_name(),
{
    if name.len() == 5 && name[0] == 0x70u8 && name[1] == 0x61u8 && name[2] == 0x75u8 && name[3]
        == 0x73u8 && name[4] == 0x65u8 {
        assert(name@ =~= pause_name());
        ObservedProperty::Pause
    } else if name.len() == 5 && name[0] == 0x73u8 && name[1] == 0x70u8 && name[2] == 0x65u8
        && name[3] == 0x65u8 && name[4] == 0x64u8 {
        assert(name@ =~= speed_name());
        ObservedProperty::Speed
    } else {
        proof {
            if name@ == pause_name() {
                assert(name@[0] == 0x70u8);
            }
            if name@ == speed_name() {
                assert(name@[0] == 0x73u8);
            }
        }
        ObservedProperty::Other
    }
}

} // verus!
