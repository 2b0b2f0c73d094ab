//! Synchronized co-op pause.
//!
//! In a co-op match either player pausing pauses both peers, the other side's
//! resume is disabled, and only the player who initiated the pause may resume
//! it. The authoritative state (`CoopPauseState`) is mirrored on both peers and
//! synced with a single idempotent `CoopPauseSync` message; the initiator
//! re-sends it as a low-rate heartbeat (and for a short grace window after
//! resuming) so a dropped packet cannot strand the other player.

use vstd::prelude::*;
use crate::timer::{CountdownTimer, fresh_timer, ticked, reset_timer, fired};
use crate::session::{
    PeerRole, InGameState, MultiplayerGameState, MultiplayerSession, ConnectionState, spec_is_coop,
};
use crate::protocol::{PauseSync, PeerMessage};

verus! {

/// How often the initiator re-broadcasts the authoritative pause state: 0.4 s,
/// to the nanosecond as a single-precision 0.4 s comes out.
pub const HEARTBEAT_INTERVAL_NANOS: u64 = 400_000_006;
/// How long after resuming the initiator keeps re-sending `paused: false`.
pub const GRACE_DURATION_NANOS: u64 = 1_500_000_000;
/// A tick long enough to run a fresh grace timer to completion (an hour).
pub const GRACE_PRE_FINISH_NANOS: u64 = 3_600_000_000_000;

/// The protocol-relevant part of the pause state.
#[derive(PartialEq, Eq, Structural, Clone, Copy, Debug)]
pub struct PauseModel {
    pub active: bool,
    pub initiator: Option<PeerRole>,
}

/// The authoritative co-op pause state, mirrored on both peers.
#[derive(PartialEq, Eq, Structural, Clone, Copy, Debug)]
pub struct CoopPauseState {
    /// Whether the match is currently sync-paused.
    pub active: bool,
    /// Which peer owns the pause (only they may resume). Retained briefly after
    /// a resume so the heartbeat's grace window knows it was the local initiator.
    pub initiator: Option<PeerRole>,
    /// Drives the periodic re-broadcast of the authoritative state.
    pub heartbeat: CountdownTimer,
    /// Runs after a resume; while unfinished the initiator re-sends `paused: false`.
    pub grace: CountdownTimer,
}

impl View for CoopPauseState {
    type V = PauseModel;

    open spec fn view(&self) -> PauseModel {
        PauseModel { active: self.active, initiator: self.initiator }
    }
}

/// The grace timer of a fresh state: a one-shot grace timer already run to
/// completion, so the grace branch of the heartbeat is inert until a resume.
pub open spec fn closed_grace() -> CountdownTimer {
    ticked(fresh_timer(GRACE_DURATION_NANOS, false), GRACE_PRE_FINISH_NANOS)
}

/// A fresh pause state: not paused, no initiator, a fresh repeating heartbeat
/// and a closed grace window.
pub open spec fn fresh_pause_state() -> CoopPauseState {
    CoopPauseState {
        active: false,
        initiator: None,
        heartbeat: fresh_timer(HEARTBEAT_INTERVAL_NANOS, true),
        grace: closed_grace(),
    }
}

impl CoopPauseState {
    /// The two timers, which only the heartbeat reads.
    pub open spec fn timers(self) -> (CountdownTimer, CountdownTimer) {
        (self.heartbeat, self.grace)
    }

    /// The timers are the heartbeat's repeating interval timer (never past its
    /// interval) and the one-shot grace timer.
    pub open spec fn wf(self) -> bool {
        &&& self.heartbeat.duration_nanos == HEARTBEAT_INTERVAL_NANOS
        &&& self.heartbeat.repeating
        &&& self.heartbeat.elapsed_nanos < self.heartbeat.duration_nanos
        &&& self.grace.duration_nanos == GRACE_DURATION_NANOS
        &&& !self.grace.repeating
    }

    /// A fresh state: not paused, no initiator, grace window already closed.
    pub fn new() -> (s: Self)
        ensures
            s == fresh_pause_state(),
            s.wf(),
    {
        let heartbeat = CountdownTimer::new(HEARTBEAT_INTERVAL_NANOS, true);
        let mut grace = CountdownTimer::new(GRACE_DURATION_NANOS, false);
        // Start finished so the heartbeat's grace branch is inert until a resume.
        grace.tick(GRACE_PRE_FINISH_NANOS);
        CoopPauseState { active: false, initiator: None, heartbeat, grace }
    }

    /// Ends the pause and forgets its owner.
    pub fn clear(&mut self)
        ensures
            final(self)@ == (PauseModel { active: false, initiator: None }),
            final(self).timers() == old(self).timers(),
    {
        self.active = false;
        self.initiator = None;
    }
}

impl Default for CoopPauseState {
    fn default() -> (s: Self)
        ensures
            s == fresh_pause_state(),
    {
        CoopPauseState::new()
    }
}

/// The peer that an `initiator_is_host` flag names.
pub open spec fn role_of(initiator_is_host: bool) -> PeerRole {
    if initiator_is_host { PeerRole::Host } else { PeerRole::Guest }
}

/// Classification of the local gameplay state for the active peer.
#[derive(PartialEq, Eq, Structural, Clone, Copy, Debug)]
pub enum LocalState {
    Running,
    Paused,
    Other,
}

/// A requested change of the local peer's gameplay state.
#[derive(PartialEq, Eq, Structural, Clone, Copy, Debug)]
pub enum LocalTransition {
    InGame(InGameState),
    Multiplayer(MultiplayerGameState),
}

/// What a pause decision asks of the caller: a state change and a broadcast.
#[derive(PartialEq, Eq, Structural, Clone, Copy, Debug)]
pub struct PauseOutcome {
    pub transition: Option<LocalTransition>,
    pub send: Option<PauseSync>,
}

pub open spec fn no_outcome() -> PauseOutcome {
    PauseOutcome { transition: None, send: None }
}

pub open spec fn spec_local_state_host(state: Option<InGameState>) -> LocalState {
    match state {
        Some(InGameState::Running) => LocalState::Running,
        Some(InGameState::Paused) => LocalState::Paused,
        _ => LocalState::Other,
    }
}

pub open spec fn spec_local_state_guest(state: Option<MultiplayerGameState>) -> LocalState {
    match state {
        Some(MultiplayerGameState::Running) => LocalState::Running,
        Some(MultiplayerGameState::Paused) => LocalState::Paused,
        _ => LocalState::Other,
    }
}

/// Classifies the host's single-player gameplay state.
pub fn local_state_host(state: Option<InGameState>) -> (r: LocalState)
    ensures
        r == spec_local_state_host(state),
{
    match state {
        Some(InGameState::Running) => LocalState::Running,
        Some(InGameState::Paused) => LocalState::Paused,
        _ => LocalState::Other,
    }
}

/// Classifies the guest's multiplayer gameplay state.
pub fn local_state_guest(state: Option<MultiplayerGameState>) -> (r: LocalState)
    ensures
        r == spec_local_state_guest(state),
{
    match state {
        Some(MultiplayerGameState::Running) => LocalState::Running,
        Some(MultiplayerGameState::Paused) => LocalState::Paused,
        _ => LocalState::Other,
    }
}

/// The state change that pauses the peer: the host pauses its single-player
/// state machine, the guest its multiplayer one.
pub open spec fn pause_transition(is_host: bool) -> LocalTransition {
    if is_host {
        LocalTransition::InGame(InGameState::Paused)
    } else {
        LocalTransition::Multiplayer(MultiplayerGameState::Paused)
    }
}

/// The state change that resumes the peer.
pub open spec fn resume_transition(is_host: bool) -> LocalTransition {
    if is_host {
        LocalTransition::InGame(InGameState::Running)
    } else {
        LocalTransition::Multiplayer(MultiplayerGameState::Running)
    }
}

pub open spec fn pause_sync(paused: bool, is_host: bool) -> PauseSync {
    PauseSync { paused, initiator_is_host: is_host }
}

/// True for a co-op match where synchronized pause applies (co-op, non-Urgent).
pub fn coop_sync_pause_enabled(session: Option<&MultiplayerSession>) -> (r: bool)
    ensures
        r == match session {
            Some(s) => spec_is_coop(s.mode) && !s.coop_urgent,
            None => false,
        },
{
    match session {
        Some(s) => s.coop_pause_synced(),
        None => false,
    }
}

/// May the local peer resume: always outside a synchronized co-op pause, and
/// during one only when it is the initiator.
pub open spec fn spec_local_can_resume(
    session: Option<MultiplayerSession>,
    pause: Option<PauseModel>,
) -> bool {
    match (session, pause) {
        (Some(s), Some(p)) => !(spec_is_coop(s.mode) && !s.coop_urgent) || !p.active
            || p.initiator == Some(s.role),
        _ => true,
    }
}

/// May the local peer resume the current pause? True in single-player and
/// versus, true when no pause is active, and during an active co-op
/// sync-pause true only for the initiator.
pub fn local_can_resume(
    session: Option<&MultiplayerSession>,
    pause: Option<&CoopPauseState>,
) -> (r: bool)
    ensures
        r == spec_local_can_resume(
            match session { Some(s) => Some(*s), None => None },
            match pause { Some(p) => Some(p@), None => None },
        ),
{
    match (session, pause) {
        (Some(s), Some(p)) => {
            if !s.coop_pause_synced() || !p.active {
                true
            } else {
                match p.initiator {
                    Some(r) => r == s.role,
                    None => false,
                }
            }
        },
        _ => true,
    }
}

/// Marks the local peer as the initiator of an active pause, pauses its own
/// state machine and broadcasts `paused: true`.
pub fn do_initiate_pause(is_host: bool, local: PeerRole, pause: &mut CoopPauseState) -> (r: (
    LocalTransition,
    PauseSync,
))
    ensures
        *final(pause) == (CoopPauseState {
            active: true,
            initiator: Some(local),
            heartbeat: reset_timer(old(pause).heartbeat),
            ..*old(pause)
        }),
        final(pause)@ == (PauseModel { active: true, initiator: Some(local) }),
        r.0 == pause_transition(is_host),
        r.1 == pause_sync(true, is_host),
{
    pause.active = true;
    pause.initiator = Some(local);
    pause.heartbeat.reset();
    (
        if is_host {
            LocalTransition::InGame(InGameState::Paused)
        } else {
            LocalTransition::Multiplayer(MultiplayerGameState::Paused)
        },
        PauseSync { paused: true, initiator_is_host: is_host },
    )
}

/// The local state that the Escape / Start press is judged against.
pub open spec fn input_local_state(
    local: PeerRole,
    sp_state: Option<InGameState>,
    mp_state: Option<MultiplayerGameState>,
) -> LocalState {
    if local == PeerRole::Host {
        spec_local_state_host(sp_state)
    } else {
        spec_local_state_guest(mp_state)
    }
}

/// Effect of a pause key press on the pause state: a running, unpaused peer
/// initiates; the initiator of an active pause resumes (keeping ownership for
/// the grace window); anything else is ignored.
pub open spec fn input_model(m: PauseModel, local: PeerRole, ls: LocalState) -> PauseModel {
    if ls == LocalState::Running && !m.active {
        PauseModel { active: true, initiator: Some(local) }
    } else if ls == LocalState::Paused && m.active && m.initiator == Some(local) {
        PauseModel { active: false, initiator: m.initiator }
    } else {
        m
    }
}

/// The whole pause state after a key press: initiating restarts the heartbeat
/// timer; resuming restarts the grace timer, so `paused: false` is re-sent
/// for the grace window; anything else leaves the state as it is.
pub open spec fn input_state(s: CoopPauseState, local: PeerRole, ls: LocalState) -> CoopPauseState {
    if ls == LocalState::Running && !s.active {
        CoopPauseState {
            active: true,
            initiator: Some(local),
            heartbeat: reset_timer(s.heartbeat),
            ..s
        }
    } else if ls == LocalState::Paused && s.active && s.initiator == Some(local) {
        CoopPauseState { active: false, grace: reset_timer(s.grace), ..s }
    } else {
        s
    }
}

/// What the key press asks of the caller.
pub open spec fn input_outcome(m: PauseModel, local: PeerRole, ls: LocalState) -> PauseOutcome {
    let is_host = local == PeerRole::Host;
    if ls == LocalState::Running && !m.active {
        PauseOutcome {
            transition: Some(pause_transition(is_host)),
            send: Some(pause_sync(true, is_host)),
        }
    } else if ls == LocalState::Paused && m.active && m.initiator == Some(local) {
        PauseOutcome {
            transition: Some(resume_transition(is_host)),
            send: Some(pause_sync(false, is_host)),
        }
    } else {
        no_outcome()
    }
}

/// Handles Escape / gamepad-Start in a synchronized co-op match:
/// running and not paused initiates (pauses both peers); paused and the
/// initiator resumes (unpauses both); paused and not the initiator is ignored.
pub fn coop_pause_input(
    escape_pressed: bool,
    gamepad_active: bool,
    gamepad_start_pressed: bool,
    local: PeerRole,
    pause: &mut CoopPauseState,
    sp_state: Option<InGameState>,
    mp_state: Option<MultiplayerGameState>,
) -> (r: PauseOutcome)
    ensures
        ({
            let pressed = escape_pressed || (gamepad_active && gamepad_start_pressed);
            let ls = input_local_state(local, sp_state, mp_state);
            &&& pressed ==> *final(pause) == input_state(*old(pause), local, ls)
            &&& pressed ==> final(pause)@ == input_model(old(pause)@, local, ls)
            &&& pressed ==> r == input_outcome(old(pause)@, local, ls)
            &&& !pressed ==> *final(pause) == *old(pause) && r == no_outcome()
        }),
{
    let gamepad_start = gamepad_active && gamepad_start_pressed;
    if !escape_pressed && !gamepad_start {
        return PauseOutcome { transition: None, send: None };
    }
    let is_host = match local {
        PeerRole::Host => true,
        PeerRole::Guest => false,
    };
    let local_state = if is_host {
        local_state_host(sp_state)
    } else {
        local_state_guest(mp_state)
    };
    let is_initiator = match pause.initiator {
        Some(r) => r == local,
        None => false,
    };
    let running = match local_state {
        LocalState::Running => true,
        _ => false,
    };
    let paused = match local_state {
        LocalState::Paused => true,
        _ => false,
    };
    if running && !pause.active {
        let (t, s) = do_initiate_pause(is_host, local, &mut *pause);
        PauseOutcome { transition: Some(t), send: Some(s) }
    } else if paused && pause.active && is_initiator {
        pause.active = false;
        pause.grace.reset();
        let t = if is_host {
            LocalTransition::InGame(InGameState::Running)
        } else {
            LocalTransition::Multiplayer(MultiplayerGameState::Running)
        };
        PauseOutcome {
            transition: Some(t),
            send: Some(PauseSync { paused: false, initiator_is_host: is_host }),
        }
    } else {
        PauseOutcome { transition: None, send: None }
    }
}

/// The host applies the guest's (or its own echoed) pause broadcast. A
/// simultaneous pause resolves in the host's favour; a resume is honoured only
/// for the pause it owns.
pub open spec fn remote_host_model(m: PauseModel, s: PauseSync) -> PauseModel {
    let incoming = role_of(s.initiator_is_host);
    if s.paused {
        if m.active && m.initiator == Some(PeerRole::Host) && !s.initiator_is_host {
            m
        } else {
            PauseModel { active: true, initiator: Some(incoming) }
        }
    } else if m.initiator == Some(incoming) || m.initiator.is_none() {
        PauseModel { active: false, initiator: None }
    } else {
        m
    }
}

pub open spec fn remote_host_transition(m: PauseModel, s: PauseSync, state: InGameState) -> Option<InGameState> {
    let incoming = role_of(s.initiator_is_host);
    if s.paused {
        if m.active && m.initiator == Some(PeerRole::Host) && !s.initiator_is_host {
            None
        } else if state != InGameState::Paused {
            Some(InGameState::Paused)
        } else {
            None
        }
    } else if (m.initiator == Some(incoming) || m.initiator.is_none()) && state == InGameState::Paused {
        Some(InGameState::Running)
    } else {
        None
    }
}

/// The guest applies the host's pause broadcast: the guest always yields to an
/// incoming pause; a resume is honoured only for the pause it owns.
pub open spec fn remote_guest_model(m: PauseModel, s: PauseSync) -> PauseModel {
    let incoming = role_of(s.initiator_is_host);
    if s.paused {
        PauseModel { active: true, initiator: Some(incoming) }
    } else if m.initiator == Some(incoming) || m.initiator.is_none() {
        PauseModel { active: false, initiator: None }
    } else {
        m
    }
}

pub open spec fn remote_guest_transition(
    m: PauseModel,
    s: PauseSync,
    state: MultiplayerGameState,
) -> Option<MultiplayerGameState> {
    let incoming = role_of(s.initiator_is_host);
    if s.paused {
        if state != MultiplayerGameState::Paused {
            Some(MultiplayerGameState::Paused)
        } else {
            None
        }
    } else if (m.initiator == Some(incoming) || m.initiator.is_none()) && state
        == MultiplayerGameState::Paused {
        Some(MultiplayerGameState::Running)
    } else {
        None
    }
}

fn owns(initiator: Option<PeerRole>, incoming: PeerRole) -> (r: bool)
    ensures
        r == (initiator == Some(incoming) || initiator.is_none()),
{
    match initiator {
        Some(r) => r == incoming,
        None => true,
    }
}

/// Co-op host: applies one incoming `CoopPauseSync` to the host's state.
pub fn apply_remote_pause_host(
    paused: bool,
    initiator_is_host: bool,
    pause: &mut CoopPauseState,
    state: InGameState,
) -> (next: Option<InGameState>)
    ensures
        final(pause)@ == remote_host_model(old(pause)@, pause_sync(paused, initiator_is_host)),
        next == remote_host_transition(old(pause)@, pause_sync(paused, initiator_is_host), state),
        final(pause).timers() == old(pause).timers(),
{
    let incoming = if initiator_is_host { PeerRole::Host } else { PeerRole::Guest };
    if paused {
        let host_owned = match pause.initiator {
            Some(PeerRole::Host) => true,
            _ => false,
        };
        if pause.active && host_owned && !initiator_is_host {
            return None;
        }
        pause.active = true;
        pause.initiator = Some(incoming);
        if state != InGameState::Paused {
            Some(InGameState::Paused)
        } else {
            None
        }
    } else if owns(pause.initiator, incoming) {
        pause.clear();
        if state == InGameState::Paused {
            Some(InGameState::Running)
        } else {
            None
        }
    } else {
        None
    }
}

/// Co-op guest: applies one incoming `CoopPauseSync` to the guest's state.
pub fn apply_remote_pause_guest(
    paused: bool,
    initiator_is_host: bool,
    pause: &mut CoopPauseState,
    state: MultiplayerGameState,
) -> (next: Option<MultiplayerGameState>)
    ensures
        final(pause)@ == remote_guest_model(old(pause)@, pause_sync(paused, initiator_is_host)),
        next == remote_guest_transition(old(pause)@, pause_sync(paused, initiator_is_host), state),
        final(pause).timers() == old(pause).timers(),
{
    let incoming = if initiator_is_host { PeerRole::Host } else { PeerRole::Guest };
    if paused {
        pause.active = true;
        pause.initiator = Some(incoming);
        if state != MultiplayerGameState::Paused {
            Some(MultiplayerGameState::Paused)
        } else {
            None
        }
    } else if owns(pause.initiator, incoming) {
        pause.clear();
        if state == MultiplayerGameState::Paused {
            Some(MultiplayerGameState::Running)
        } else {
            None
        }
    } else {
        None
    }
}


/// Messages that the pause receivers leave queued: everything but `CoopPauseSync`.
pub open spec fn not_pause_sync<M>() -> spec_fn(PeerMessage<M>) -> bool {
    |m: PeerMessage<M>| !(m is CoopPauseSync)
}

/// The host's pause state after applying, in order, every `CoopPauseSync` of `msgs`.
pub open spec fn host_fold<M>(m: PauseModel, msgs: Seq<PeerMessage<M>>) -> PauseModel
    decreases msgs.len(),
{
    if msgs.len() == 0 {
        m
    } else {
        let prev = host_fold(m, msgs.drop_last());
        match msgs.last() {
            PeerMessage::CoopPauseSync { paused, initiator_is_host } => remote_host_model(
                prev,
                pause_sync(paused, initiator_is_host),
            ),
            _ => prev,
        }
    }
}

/// The last state change requested while applying `msgs` on the host.
pub open spec fn host_fold_next<M>(m: PauseModel, msgs: Seq<PeerMessage<M>>, state: InGameState) -> Option<
    InGameState,
>
    decreases msgs.len(),
{
    if msgs.len() == 0 {
        None
    } else {
        let prev = host_fold(m, msgs.drop_last());
        let earlier = host_fold_next(m, msgs.drop_last(), state);
        match msgs.last() {
            PeerMessage::CoopPauseSync { paused, initiator_is_host } => match remote_host_transition(
                prev,
                pause_sync(paused, initiator_is_host),
                state,
            ) {
                Some(t) => Some(t),
                None => earlier,
            },
            _ => earlier,
        }
    }
}

/// The guest's pause state after applying, in order, every `CoopPauseSync` of `msgs`.
pub open spec fn guest_fold<M>(m: PauseModel, msgs: Seq<PeerMessage<M>>) -> PauseModel
    decreases msgs.len(),
{
    if msgs.len() == 0 {
        m
    } else {
        let prev = guest_fold(m, msgs.drop_last());
        match msgs.last() {
            PeerMessage::CoopPauseSync { paused, initiator_is_host } => remote_guest_model(
                prev,
                pause_sync(paused, initiator_is_host),
            ),
            _ => prev,
        }
    }
}

/// The last state change requested while applying `msgs` on the guest.
pub open spec fn guest_fold_next<M>(
    m: PauseModel,
    msgs: Seq<PeerMessage<M>>,
    state: MultiplayerGameState,
) -> Option<MultiplayerGameState>
    decreases msgs.len(),
{
    if msgs.len() == 0 {
        None
    } else {
        let prev = guest_fold(m, msgs.drop_last());
        let earlier = guest_fold_next(m, msgs.drop_last(), state);
        match msgs.last() {
            PeerMessage::CoopPauseSync { paused, initiator_is_host } => match remote_guest_transition(
                prev,
                pause_sync(paused, initiator_is_host),
                state,
            ) {
                Some(t) => Some(t),
                None => earlier,
            },
            _ => earlier,
        }
    }
}

/// Co-op host: applies every incoming `CoopPauseSync` in order and re-queues
/// every other message in order. Returns the last state change requested.
pub fn coop_pause_receive_host<M>(
    incoming: &mut Vec<PeerMessage<M>>,
    pause: &mut CoopPauseState,
    state: InGameState,
) -> (next: Option<InGameState>)
    ensures
        final(incoming)@ == old(incoming)@.filter(not_pause_sync()),
        final(pause)@ == host_fold(old(pause)@, old(incoming)@),
        next == host_fold_next(old(pause)@, old(incoming)@, state),
        final(pause).timers() == old(pause).timers(),
{
    let ghost orig = incoming@;
    let ghost m0 = pause@;
    let ghost t0 = pause.timers();
    let mut raw: Vec<PeerMessage<M>> = Vec::new();
    std::mem::swap(&mut raw, incoming);
    let mut unhandled: Vec<PeerMessage<M>> = Vec::new();
    let mut next: Option<InGameState> = None;
    let ghost mut k: int = 0;
    assert(orig.skip(0) =~= orig);
    assert(orig.take(0) =~= Seq::<PeerMessage<M>>::empty());
    while raw.len() > 0
        invariant
            0 <= k <= orig.len(),
            raw@ == orig.skip(k),
            unhandled@ == orig.take(k).filter(not_pause_sync()),
            pause@ == host_fold(m0, orig.take(k)),
            next == host_fold_next(m0, orig.take(k), state),
            pause.timers() == t0,
        decreases raw.len(),
    {
        let msg = raw.remove(0);
        proof {
            assert(orig.skip(k)[0] == orig[k]);
            assert(orig.skip(k).remove(0) =~= orig.skip(k + 1));
            assert(orig.take(k + 1).drop_last() =~= orig.take(k));
            assert(orig.take(k + 1) =~= orig.take(k).push(orig[k]));
            orig.take(k).lemma_filter_push(orig[k], not_pause_sync());
        }
        match msg {
            PeerMessage::CoopPauseSync { paused, initiator_is_host } => {
                let t = apply_remote_pause_host(paused, initiator_is_host, &mut *pause, state);
                if t.is_some() {
                    next = t;
                }
            },
            other => {
                unhandled.push(other);
            },
        }
        proof {
            k = k + 1;
        }
    }
    proof {
        assert(orig.take(k) =~= orig);
    }
    *incoming = unhandled;
    next
}

/// Co-op guest: applies every incoming `CoopPauseSync` in order and re-queues
/// every other message in order. Returns the last state change requested.
pub fn coop_pause_receive_guest<M>(
    incoming: &mut Vec<PeerMessage<M>>,
    pause: &mut CoopPauseState,
    state: MultiplayerGameState,
) -> (next: Option<MultiplayerGameState>)
    ensures
        final(incoming)@ == old(incoming)@.filter(not_pause_sync()),
        final(pause)@ == guest_fold(old(pause)@, old(incoming)@),
        next == guest_fold_next(old(pause)@, old(incoming)@, state),
        final(pause).timers() == old(pause).timers(),
{
    let ghost orig = incoming@;
    let ghost m0 = pause@;
    let ghost t0 = pause.timers();
    let mut raw: Vec<PeerMessage<M>> = Vec::new();
    std::mem::swap(&mut raw, incoming);
    let mut unhandled: Vec<PeerMessage<M>> = Vec::new();
    let mut next: Option<MultiplayerGameState> = None;
    let ghost mut k: int = 0;
    assert(orig.skip(0) =~= orig);
    assert(orig.take(0) =~= Seq::<PeerMessage<M>>::empty());
    while raw.len() > 0
        invariant
            0 <= k <= orig.len(),
            raw@ == orig.skip(k),
            unhandled@ == orig.take(k).filter(not_pause_sync()),
            pause@ == guest_fold(m0, orig.take(k)),
            next == guest_fold_next(m0, orig.take(k), state),
            pause.timers() == t0,
        decreases raw.len(),
    {
        let msg = raw.remove(0);
        proof {
            assert(orig.skip(k)[0] == orig[k]);
            assert(orig.skip(k).remove(0) =~= orig.skip(k + 1));
            assert(orig.take(k + 1).drop_last() =~= orig.take(k));
            assert(orig.take(k + 1) =~= orig.take(k).push(orig[k]));
            orig.take(k).lemma_filter_push(orig[k], not_pause_sync());
        }
        match msg {
            PeerMessage::CoopPauseSync { paused, initiator_is_host } => {
                let t = apply_remote_pause_guest(paused, initiator_is_host, &mut *pause, state);
                if t.is_some() {
                    next = t;
                }
            },
            other => {
                unhandled.push(other);
            },
        }
        proof {
            k = k + 1;
        }
    }
    proof {
        assert(orig.take(k) =~= orig);
    }
    *incoming = unhandled;
    next
}

/// The broadcast the heartbeat makes when its timer fires: the current
/// pause state, from the local peer.
pub open spec fn heartbeat_message(active: bool, is_host: bool, fired: bool) -> Option<PauseSync> {
    if fired {
        Some(pause_sync(active, is_host))
    } else {
        None
    }
}

/// Decides the heartbeat broadcast from whether the heartbeat timer fired.
pub fn heartbeat_outcome(active: bool, is_host: bool, fired: bool) -> (r: Option<PauseSync>)
    ensures
        r == heartbeat_message(active, is_host, fired),
{
    if fired {
        Some(PauseSync { paused: active, initiator_is_host: is_host })
    } else {
        None
    }
}

/// One heartbeat frame of `delta_nanos`: the new pause state and what is
/// broadcast. Only the initiator does anything. While paused its heartbeat
/// timer runs and each time it fires `paused: true` is re-sent. After a resume,
/// while the grace timer has not finished, both timers run, `paused: false` is
/// re-sent each time the heartbeat fires, and ownership is dropped the tick the
/// grace timer finishes.
pub open spec fn heartbeat_step(s: CoopPauseState, local: PeerRole, delta_nanos: u64) -> (
    CoopPauseState,
    Option<PauseSync>,
) {
    let is_host = local == PeerRole::Host;
    if s.initiator != Some(local) {
        (s, None)
    } else if s.active {
        let hb = ticked(s.heartbeat, delta_nanos);
        (CoopPauseState { heartbeat: hb, ..s }, heartbeat_message(true, is_host, fired(hb)))
    } else if !s.grace.finished {
        let g = ticked(s.grace, delta_nanos);
        let hb = ticked(s.heartbeat, delta_nanos);
        (
            CoopPauseState {
                heartbeat: hb,
                grace: g,
                initiator: if fired(g) { None } else { s.initiator },
                ..s
            },
            heartbeat_message(false, is_host, fired(hb)),
        )
    } else {
        (s, None)
    }
}

/// The initiator re-broadcasts the authoritative state on a timer: while
/// paused it re-sends `paused: true`; for a short grace window after resuming
/// it re-sends `paused: false`, and drops ownership when the window closes.
pub fn coop_pause_heartbeat(
    pause: &mut CoopPauseState,
    local: PeerRole,
    delta_nanos: u64,
) -> (send: Option<PauseSync>)
    ensures
        (*final(pause), send) == heartbeat_step(*old(pause), local, delta_nanos),
{
    let is_initiator = match pause.initiator {
        Some(r) => r == local,
        None => false,
    };
    if !is_initiator {
        return None;
    }
    let is_host = match local {
        PeerRole::Host => true,
        PeerRole::Guest => false,
    };
    if pause.active {
        pause.heartbeat.tick(delta_nanos);
        let fired = pause.heartbeat.just_finished();
        heartbeat_outcome(true, is_host, fired)
    } else if !pause.grace.is_finished() {
        pause.grace.tick(delta_nanos);
        pause.heartbeat.tick(delta_nanos);
        let fired = pause.heartbeat.just_finished();
        let send = heartbeat_outcome(false, is_host, fired);
        if pause.grace.just_finished() {
            pause.initiator = None;
        }
        send
    } else {
        None
    }
}

/// Co-op host, guest just dropped: clear the connected flag and force-resume
/// a sync-pause whose resume could never arrive.
pub open spec fn disconnect_applies(state: ConnectionState, connected: Option<bool>) -> bool {
    connected == Some(true) && (state == ConnectionState::Failed || state
        == ConnectionState::Disconnected)
}

/// Co-op host: on a guest disconnect, clears the connected flag (which lifts
/// the attacker buff) and, if a sync-pause is active, ends it and asks to
/// resume the host's game when it is paused.
pub fn detect_coop_guest_disconnect(
    connection_state: ConnectionState,
    coop_connected: &mut Option<bool>,
    pause: &mut CoopPauseState,
    in_game_state: Option<InGameState>,
) -> (next: Option<InGameState>)
    ensures
        disconnect_applies(connection_state, *old(coop_connected)) ==> {
            &&& *final(coop_connected) == Some(false)
            &&& old(pause)@.active ==> final(pause)@ == (PauseModel { active: false, initiator: None })
            &&& !old(pause)@.active ==> final(pause)@ == old(pause)@
            &&& next == (if old(pause)@.active && in_game_state == Some(InGameState::Paused) {
                Some(InGameState::Running)
            } else {
                None
            })
        },
        !disconnect_applies(connection_state, *old(coop_connected)) ==> *final(coop_connected)
            == *old(coop_connected) && final(pause)@ == old(pause)@ && next.is_none(),
        final(pause).timers() == old(pause).timers(),
{
    let dropped = match connection_state {
        ConnectionState::Failed => true,
        ConnectionState::Disconnected => true,
        _ => false,
    };
    let was_connected = match *coop_connected {
        Some(c) => c,
        None => false,
    };
    if was_connected && dropped {
        *coop_connected = Some(false);
        if pause.active {
            pause.active = false;
            pause.initiator = None;
            match in_game_state {
                Some(InGameState::Paused) => Some(InGameState::Running),
                _ => None,
            }
        } else {
            None
        }
    } else {
        None
    }
}

/// What a "please pause" request (overlay opened, controller lost, focus
/// lost) means in the current mode.
#[derive(PartialEq, Eq, Structural, Clone, Copy, Debug)]
pub enum PauseRequestDecision {
    /// Nothing to do.
    Ignore,
    /// Synchronized co-op: start the shared pause handshake.
    InitiateCoop,
    /// Pause the local single-player state machine.
    PauseInGame,
    /// Pause the local multiplayer state machine (a non-freezing menu in
    /// versus and Urgent co-op).
    PauseMultiplayer,
}

pub open spec fn spec_pause_request_decision(
    request_count: usize,
    session: Option<MultiplayerSession>,
    pause_active: Option<bool>,
    connection_present: bool,
    sp_state: Option<InGameState>,
    mp_state: Option<MultiplayerGameState>,
    next_sp_present: bool,
    next_mp_present: bool,
) -> PauseRequestDecision {
    if request_count == 0 {
        PauseRequestDecision::Ignore
    } else if session is Some && spec_is_coop(session->0.mode) && !session->0.coop_urgent {
        let s = session->0;
        let running = if s.role == PeerRole::Host {
            spec_local_state_host(sp_state) == LocalState::Running
        } else {
            spec_local_state_guest(mp_state) == LocalState::Running
        };
        if pause_active is None || !connection_present || pause_active == Some(true) || !running {
            PauseRequestDecision::Ignore
        } else {
            PauseRequestDecision::InitiateCoop
        }
    } else if spec_local_state_host(sp_state) == LocalState::Running && next_sp_present {
        PauseRequestDecision::PauseInGame
    } else if spec_local_state_guest(mp_state) == LocalState::Running && next_mp_present {
        PauseRequestDecision::PauseMultiplayer
    } else {
        PauseRequestDecision::Ignore
    }
}

/// Decides what the pending pause requests of this frame mean.
/// `pause_active` is the active flag of the co-op pause state when that state
/// exists; `*_present` say which state machines exist right now.
pub fn pause_request_decision(
    request_count: usize,
    session: Option<&MultiplayerSession>,
    pause_active: Option<bool>,
    connection_present: bool,
    sp_state: Option<InGameState>,
    mp_state: Option<MultiplayerGameState>,
    next_sp_present: bool,
    next_mp_present: bool,
) -> (d: PauseRequestDecision)
    ensures
        d == spec_pause_request_decision(
            request_count,
            match session { Some(s) => Some(*s), None => None },
            pause_active,
            connection_present,
            sp_state,
            mp_state,
            next_sp_present,
            next_mp_present,
        ),
{
    if request_count == 0 {
        return PauseRequestDecision::Ignore;
    }
    if let Some(s) = session {
        if s.coop_pause_synced() {
            let active = match pause_active {
                Some(a) => a,
                None => {
                    return PauseRequestDecision::Ignore;
                },
            };
            if !connection_present || active {
                return PauseRequestDecision::Ignore;
            }
            let running = match s.role {
                PeerRole::Host => local_state_host(sp_state) == LocalState::Running,
                PeerRole::Guest => local_state_guest(mp_state) == LocalState::Running,
            };
            if !running {
                return PauseRequestDecision::Ignore;
            }
            return PauseRequestDecision::InitiateCoop;
        }
    }
    if local_state_host(sp_state) == LocalState::Running && next_sp_present {
        PauseRequestDecision::PauseInGame
    } else if local_state_guest(mp_state) == LocalState::Running && next_mp_present {
        PauseRequestDecision::PauseMultiplayer
    } else {
        PauseRequestDecision::Ignore
    }
}


/// Either player pausing pauses both: when a running, unpaused peer presses
/// pause it becomes the initiator of an active pause and broadcasts it, and the
/// other peer adopts that pause (and pauses its own state machine). The one
/// exception is the host's tie-break: a guest pause that reaches a host which
/// already owns an active pause is ignored.
pub proof fn lemma_pause_reaches_other_peer(
    initiator: PeerRole,
    a: PauseModel,
    b: PauseModel,
    host_state: InGameState,
    guest_state: MultiplayerGameState,
)
    requires
        !a.active,
        initiator == PeerRole::Guest ==> !(b.active && b.initiator == Some(PeerRole::Host)),
    ensures
        input_model(a, initiator, LocalState::Running) == (PauseModel {
            active: true,
            initiator: Some(initiator),
        }),
        input_outcome(a, initiator, LocalState::Running).send is Some,
        ({
            let s = input_outcome(a, initiator, LocalState::Running).send->0;
            &&& initiator == PeerRole::Host ==> remote_guest_model(b, s) == (PauseModel {
                active: true,
                initiator: Some(PeerRole::Host),
            })
            &&& initiator == PeerRole::Host && guest_state != MultiplayerGameState::Paused
                ==> remote_guest_transition(b, s, guest_state) == Some(MultiplayerGameState::Paused)
            &&& initiator == PeerRole::Guest ==> remote_host_model(b, s) == (PauseModel {
                active: true,
                initiator: Some(PeerRole::Guest),
            })
            &&& initiator == PeerRole::Guest && host_state != InGameState::Paused
                ==> remote_host_transition(b, s, host_state) == Some(InGameState::Paused)
        }),
{
}

/// Only the initiator can resume: during an active synchronized co-op pause
/// the local peer may resume exactly when it initiated the pause, and a pause
/// key press by the other peer changes nothing and sends nothing.
pub proof fn lemma_only_initiator_resumes(s: MultiplayerSession, m: PauseModel, ls: LocalState)
    requires
        spec_is_coop(s.mode),
        !s.coop_urgent,
        m.active,
    ensures
        spec_local_can_resume(Some(s), Some(m)) == (m.initiator == Some(s.role)),
        m.initiator != Some(s.role) ==> input_model(m, s.role, ls) == m && input_outcome(
            m,
            s.role,
            ls,
        ) == no_outcome(),
{
}

/// A resume by the initiator unpauses both: the initiator's own state goes
/// inactive (it keeps ownership for the grace window) and it broadcasts the
/// resume, which clears the other peer's pause and resumes its state machine.
pub proof fn lemma_resume_reaches_other_peer(
    initiator: PeerRole,
    b: PauseModel,
    host_state: InGameState,
    guest_state: MultiplayerGameState,
)
    requires
        b.initiator == Some(initiator),
    ensures
        ({
            let a = PauseModel { active: true, initiator: Some(initiator) };
            let out = input_outcome(a, initiator, LocalState::Paused);
            &&& input_model(a, initiator, LocalState::Paused) == (PauseModel {
                active: false,
                initiator: Some(initiator),
            })
            &&& out.send is Some
            &&& initiator == PeerRole::Host ==> remote_guest_model(b, out.send->0) == (PauseModel {
                active: false,
                initiator: None,
            })
            &&& initiator == PeerRole::Host && guest_state == MultiplayerGameState::Paused
                ==> remote_guest_transition(b, out.send->0, guest_state) == Some(
                MultiplayerGameState::Running,
            )
            &&& initiator == PeerRole::Guest ==> remote_host_model(b, out.send->0) == (PauseModel {
                active: false,
                initiator: None,
            })
            &&& initiator == PeerRole::Guest && host_state == InGameState::Paused
                ==> remote_host_transition(b, out.send->0, host_state) == Some(InGameState::Running)
        }),
{
}

/// A simultaneous pause resolves in the host's favour: the host ignores the
/// guest's pause while it owns an active pause, and the guest yields to the
/// host's, so both end up agreeing that the host is the initiator.
pub proof fn lemma_simultaneous_pause_host_wins(host_state: InGameState, guest_state: MultiplayerGameState)
    ensures
        ({
            let h = PauseModel { active: true, initiator: Some(PeerRole::Host) };
            let g = PauseModel { active: true, initiator: Some(PeerRole::Guest) };
            &&& remote_host_model(h, pause_sync(true, false)) == h
            &&& remote_host_transition(h, pause_sync(true, false), host_state).is_none()
            &&& remote_guest_model(g, pause_sync(true, true)) == h
        }),
{
}

/// A stale resume is harmless: a resume broadcast by a peer that does not own
/// the current pause leaves the receiver's pause untouched.
pub proof fn lemma_stale_resume_ignored(
    sender: PeerRole,
    m: PauseModel,
    host_state: InGameState,
    guest_state: MultiplayerGameState,
)
    requires
        m.initiator is Some,
        m.initiator != Some(sender),
    ensures
        remote_host_model(m, pause_sync(false, sender == PeerRole::Host)) == m,
        remote_host_transition(m, pause_sync(false, sender == PeerRole::Host), host_state).is_none(),
        remote_guest_model(m, pause_sync(false, sender == PeerRole::Host)) == m,
        remote_guest_transition(m, pause_sync(false, sender == PeerRole::Host), guest_state).is_none(),
{
}

/// `CoopPauseSync` is idempotent: applying the same broadcast twice leaves the
/// same pause state as applying it once, and once the requested state change
/// has happened a repeat asks for nothing more.
pub proof fn lemma_pause_sync_idempotent(
    m: PauseModel,
    s: PauseSync,
    host_state: InGameState,
    guest_state: MultiplayerGameState,
)
    ensures
        remote_host_model(remote_host_model(m, s), s) == remote_host_model(m, s),
        remote_guest_model(remote_guest_model(m, s), s) == remote_guest_model(m, s),
        ({
            let hs = match remote_host_transition(m, s, host_state) {
                Some(t) => t,
                None => host_state,
            };
            remote_host_transition(remote_host_model(m, s), s, hs).is_none()
        }),
        ({
            let gs = match remote_guest_transition(m, s, guest_state) {
                Some(t) => t,
                None => guest_state,
            };
            remote_guest_transition(remote_guest_model(m, s), s, gs).is_none()
        }),
{
}

proof fn lemma_heartbeat_fires(t: CountdownTimer, delta_nanos: u64)
    requires
        t.repeating,
        t.duration_nanos > 0,
        t.duration_nanos <= delta_nanos,
        t.elapsed_nanos + delta_nanos < 0x1_0000_0000 * t.duration_nanos,
    ensures
        fired(ticked(t, delta_nanos)),
{
    let e: int = t.elapsed_nanos + delta_nanos;
    let d = t.duration_nanos as int;
    assert(e >= d);
    assert(e < d * 0x1_0000_0000);
    vstd::arithmetic::div_mod::lemma_div_non_zero(e, d);
    vstd::arithmetic::div_mod::lemma_multiply_divide_lt(e, d, 0x1_0000_0000);
    let q = e / d;
    assert(0 < q < 0x1_0000_0000);
    assert((q as u32) as int == q);
}

/// The pause state stays well formed through heartbeats and key presses: the
/// heartbeat timer stays a repeating interval timer within its interval, and
/// the grace timer a one-shot timer.
pub proof fn lemma_pause_steps_keep_wf(s: CoopPauseState, local: PeerRole, delta_nanos: u64, ls: LocalState)
    requires
        s.wf(),
    ensures
        heartbeat_step(s, local, delta_nanos).0.wf(),
        input_state(s, local, ls).wf(),
{
    let t = s.heartbeat;
    let e: int = t.elapsed_nanos + delta_nanos;
    if e >= t.duration_nanos {
        vstd::arithmetic::div_mod::lemma_mod_pos_bound(e, t.duration_nanos as int);
    }
}

/// A dropped packet cannot strand the other player, part one: while paused,
/// every heartbeat frame at least one interval long re-sends `paused: true`
/// (for frame times below about 54 years, past which the count of intervals
/// no longer fits the timer's counter).
pub proof fn lemma_pause_is_resent(s: CoopPauseState, local: PeerRole, delta_nanos: u64)
    requires
        s.wf(),
        s.active,
        s.initiator == Some(local),
        HEARTBEAT_INTERVAL_NANOS <= delta_nanos,
        s.heartbeat.elapsed_nanos + delta_nanos < 0x1_0000_0000 * HEARTBEAT_INTERVAL_NANOS,
    ensures
        heartbeat_step(s, local, delta_nanos).1 == Some(pause_sync(true, local == PeerRole::Host)),
{
    lemma_heartbeat_fires(s.heartbeat, delta_nanos);
}

/// A dropped packet cannot strand the other player, part two: when the
/// initiator resumes, the grace window opens, and the next heartbeat frame at
/// least one interval long re-sends `paused: false` (same bound on frame times).
pub proof fn lemma_resume_is_resent(s: CoopPauseState, local: PeerRole, delta_nanos: u64)
    requires
        s.wf(),
        s.active,
        s.initiator == Some(local),
        HEARTBEAT_INTERVAL_NANOS <= delta_nanos,
        s.heartbeat.elapsed_nanos + delta_nanos < 0x1_0000_0000 * HEARTBEAT_INTERVAL_NANOS,
    ensures
        ({
            let resumed = input_state(s, local, LocalState::Paused);
            &&& !resumed.active
            &&& !resumed.grace.finished
            &&& heartbeat_step(resumed, local, delta_nanos).1 == Some(
                pause_sync(false, local == PeerRole::Host),
            )
        }),
{
    lemma_heartbeat_fires(s.heartbeat, delta_nanos);
}

/// In synchronized co-op with a live link and no pause under way, a pause
/// request starts the shared pause exactly when the requesting peer is
/// running: the host by its single-player state, the guest by its
/// multiplayer state (whatever the other state machine holds).
pub proof fn lemma_coop_request_judged_by_own_state(
    request_count: usize,
    s: MultiplayerSession,
    sp_state: Option<InGameState>,
    mp_state: Option<MultiplayerGameState>,
    next_sp_present: bool,
    next_mp_present: bool,
)
    requires
        request_count > 0,
        spec_is_coop(s.mode),
        !s.coop_urgent,
    ensures
        s.role == PeerRole::Host ==> spec_pause_request_decision(
            request_count,
            Some(s),
            Some(false),
            true,
            sp_state,
            mp_state,
            next_sp_present,
            next_mp_present,
        ) == (if sp_state == Some(InGameState::Running) {
            PauseRequestDecision::InitiateCoop
        } else {
            PauseRequestDecision::Ignore
        }),
        s.role == PeerRole::Guest ==> spec_pause_request_decision(
            request_count,
            Some(s),
            Some(false),
            true,
            sp_state,
            mp_state,
            next_sp_present,
            next_mp_present,
        ) == (if mp_state == Some(MultiplayerGameState::Running) {
            PauseRequestDecision::InitiateCoop
        } else {
            PauseRequestDecision::Ignore
        }),
{
}

/// Outside synchronized co-op (no session, versus, or Urgent co-op) a pause
/// request pauses locally: the single-player machine when it runs and can
/// change state, else the multiplayer machine when it runs and can change
/// state; nothing otherwise. No request, no decision; in synchronized co-op a
/// request with a pause under way (or no pause state) or no link is ignored.
pub proof fn lemma_local_pause_outside_synced_coop(
    request_count: usize,
    session: Option<MultiplayerSession>,
    pause_active: Option<bool>,
    connection_present: bool,
    sp_state: Option<InGameState>,
    mp_state: Option<MultiplayerGameState>,
    next_sp_present: bool,
    next_mp_present: bool,
)
    ensures
        ({
            let d = spec_pause_request_decision(
                request_count,
                session,
                pause_active,
                connection_present,
                sp_state,
                mp_state,
                next_sp_present,
                next_mp_present,
            );
            let synced = session is Some && spec_is_coop(session->0.mode) && !session->0.coop_urgent;
            &&& request_count == 0 ==> d == PauseRequestDecision::Ignore
            &&& (request_count > 0 && !synced) ==> d == (if sp_state == Some(InGameState::Running)
                && next_sp_present {
                PauseRequestDecision::PauseInGame
            } else if mp_state == Some(MultiplayerGameState::Running) && next_mp_present {
                PauseRequestDecision::PauseMultiplayer
            } else {
                PauseRequestDecision::Ignore
            })
            &&& (synced && (pause_active != Some(false) || !connection_present)) ==> d
                == PauseRequestDecision::Ignore
        }),
{
    let synced = session is Some && spec_is_coop(session->0.mode) && !session->0.coop_urgent;
    if synced && pause_active is Some {
        assert(pause_active == Some(pause_active->0));
    }
}

} // verus!
