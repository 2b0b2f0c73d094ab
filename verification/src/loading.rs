//! Multiplayer loading: the deterministic spawn plan, the one task the
//! processor runs per frame, the "both peers loaded" handshake, and the
//! game-config fields loading overrides and restores.

use vstd::prelude::*;
use crate::session::{PeerRole, ConnectionState};
use crate::protocol::PeerMessage;

verus! {

/// One step of building the multiplayer world. Terrain steps name an element
/// of the generated terrain lists by its index.
#[derive(PartialEq, Eq, Structural, Clone, Copy, Debug)]
pub enum MpSpawnTask {
    /// The single-player battlefield shell.
    Battlefield,
    /// The second castle (versus only).
    Castle2,
    PathfindingGrid,
    LoadWizardAssets,
    HostWizard,
    GuestWizard,
    HostInfantry { unit_index: u32 },
    HostArcher { unit_index: u32 },
    GuestInfantry { unit_index: u32 },
    GuestArcher { unit_index: u32 },
    HostKing,
    HostKingsGuard { guard_index: u32 },
    GuestKing,
    GuestKingsGuard { guard_index: u32 },
    Flora { index: u32 },
    TerrainBoulder { index: u32 },
    TerrainTree { index: u32 },
    TerrainPond { index: u32 },
    TerrainBush { index: u32 },
    LoadCauldronAssets,
    Cauldron,
}

pub open spec fn spec_needs_command_flush(t: MpSpawnTask) -> bool {
    t == MpSpawnTask::HostWizard || t == MpSpawnTask::GuestWizard || t == MpSpawnTask::Cauldron
}

pub open spec fn spec_creates_deferred_state(t: MpSpawnTask) -> bool {
    t == MpSpawnTask::LoadWizardAssets || t == MpSpawnTask::LoadCauldronAssets
}

impl MpSpawnTask {
    /// Tasks that read a resource a prior task inserted through deferred
    /// commands; they must wait for the command queue to flush.
    pub fn needs_command_flush(&self) -> (r: bool)
        ensures
            r == spec_needs_command_flush(*self),
    {
        match self {
            MpSpawnTask::HostWizard | MpSpawnTask::GuestWizard | MpSpawnTask::Cauldron => true,
            _ => false,
        }
    }

    /// Tasks that schedule a deferred resource insert a later task reads.
    pub fn creates_deferred_state(&self) -> (r: bool)
        ensures
            r == spec_creates_deferred_state(*self),
    {
        match self {
            MpSpawnTask::LoadWizardAssets | MpSpawnTask::LoadCauldronAssets => true,
            _ => false,
        }
    }
}

/// The spawn queue, front first.
pub struct MpSpawnQueue {
    pub tasks: Vec<MpSpawnTask>,
}

impl MpSpawnQueue {
    pub fn new() -> (q: Self)
        ensures
            q.tasks@ == Seq::<MpSpawnTask>::empty(),
    {
        MpSpawnQueue { tasks: Vec::new() }
    }

    /// Removes and returns the front task.
    pub fn pop_next(&mut self) -> (t: Option<MpSpawnTask>)
        ensures
            old(self).tasks@.len() == 0 ==> t.is_none() && final(self).tasks@ == old(self).tasks@,
            old(self).tasks@.len() > 0 ==> t == Some(old(self).tasks@[0]) && final(self).tasks@
                == old(self).tasks@.drop_first(),
    {
        if self.tasks.len() == 0 {
            None
        } else {
            let t = self.tasks.remove(0);
            proof {
                assert(old(self).tasks@.remove(0) =~= old(self).tasks@.drop_first());
            }
            Some(t)
        }
    }

    pub fn is_complete(&self) -> (r: bool)
        ensures
            r == (self.tasks@.len() == 0),
    {
        self.tasks.len() == 0
    }
}

/// How many elements each terrain generator produced.
#[derive(PartialEq, Eq, Structural, Clone, Copy, Debug)]
pub struct TerrainCounts {
    pub boulders: u32,
    pub trees: u32,
    pub ponds: u32,
    pub bushes: u32,
    pub flora: u32,
}

/// How many units each army fields.
#[derive(PartialEq, Eq, Structural, Clone, Copy, Debug)]
pub struct ArmyCounts {
    pub kings_guards: u32,
    pub infantry: u32,
    pub archers: u32,
}

pub open spec fn boulder_tasks(n: u32) -> Seq<MpSpawnTask> {
    Seq::new(n as nat, |i: int| MpSpawnTask::TerrainBoulder { index: i as u32 })
}

pub open spec fn tree_tasks(n: u32) -> Seq<MpSpawnTask> {
    Seq::new(n as nat, |i: int| MpSpawnTask::TerrainTree { index: i as u32 })
}

pub open spec fn pond_tasks(n: u32) -> Seq<MpSpawnTask> {
    Seq::new(n as nat, |i: int| MpSpawnTask::TerrainPond { index: i as u32 })
}

pub open spec fn bush_tasks(n: u32) -> Seq<MpSpawnTask> {
    Seq::new(n as nat, |i: int| MpSpawnTask::TerrainBush { index: i as u32 })
}

pub open spec fn flora_tasks(n: u32) -> Seq<MpSpawnTask> {
    Seq::new(n as nat, |i: int| MpSpawnTask::Flora { index: i as u32 })
}

pub open spec fn host_guard_tasks(n: u32) -> Seq<MpSpawnTask> {
    Seq::new(n as nat, |i: int| MpSpawnTask::HostKingsGuard { guard_index: i as u32 })
}

pub open spec fn guest_guard_tasks(n: u32) -> Seq<MpSpawnTask> {
    Seq::new(n as nat, |i: int| MpSpawnTask::GuestKingsGuard { guard_index: i as u32 })
}

pub open spec fn host_infantry_tasks(n: u32) -> Seq<MpSpawnTask> {
    Seq::new(n as nat, |i: int| MpSpawnTask::HostInfantry { unit_index: i as u32 })
}

pub open spec fn host_archer_tasks(n: u32) -> Seq<MpSpawnTask> {
    Seq::new(n as nat, |i: int| MpSpawnTask::HostArcher { unit_index: i as u32 })
}

pub open spec fn guest_infantry_tasks(n: u32) -> Seq<MpSpawnTask> {
    Seq::new(n as nat, |i: int| MpSpawnTask::GuestInfantry { unit_index: i as u32 })
}

pub open spec fn guest_archer_tasks(n: u32) -> Seq<MpSpawnTask> {
    Seq::new(n as nat, |i: int| MpSpawnTask::GuestArcher { unit_index: i as u32 })
}

/// The static world: battlefield, the second castle in versus only, pathfinding.
pub open spec fn static_tasks(coop: bool) -> Seq<MpSpawnTask> {
    if coop {
        seq![MpSpawnTask::Battlefield, MpSpawnTask::PathfindingGrid]
    } else {
        seq![MpSpawnTask::Battlefield, MpSpawnTask::Castle2, MpSpawnTask::PathfindingGrid]
    }
}

/// One task per generated terrain element: boulders, trees, ponds, bushes, flora.
pub open spec fn terrain_tasks(t: TerrainCounts) -> Seq<MpSpawnTask> {
    boulder_tasks(t.boulders) + tree_tasks(t.trees) + pond_tasks(t.ponds) + bush_tasks(t.bushes)
        + flora_tasks(t.flora)
}

/// Both armies, which only the host spawns (the guest sees them as ghosts).
pub open spec fn army_tasks(a: ArmyCounts) -> Seq<MpSpawnTask> {
    seq![MpSpawnTask::HostKing] + host_guard_tasks(a.kings_guards) + seq![MpSpawnTask::GuestKing]
        + guest_guard_tasks(a.kings_guards) + host_infantry_tasks(a.infantry) + host_archer_tasks(
        a.archers,
    ) + guest_infantry_tasks(a.infantry) + guest_archer_tasks(a.archers)
}

/// Wizards and cauldron, each asset load before what reads it.
pub open spec fn tail_tasks() -> Seq<MpSpawnTask> {
    seq![
        MpSpawnTask::LoadWizardAssets,
        MpSpawnTask::HostWizard,
        MpSpawnTask::GuestWizard,
        MpSpawnTask::LoadCauldronAssets,
        MpSpawnTask::Cauldron,
    ]
}

/// The whole spawn plan of a peer.
pub open spec fn spec_spawn_plan(coop: bool, role: PeerRole, t: TerrainCounts, a: ArmyCounts) -> Seq<
    MpSpawnTask,
> {
    static_tasks(coop) + terrain_tasks(t) + (if role == PeerRole::Host {
        army_tasks(a)
    } else {
        Seq::empty()
    }) + tail_tasks()
}

/// Appends `mk(0) .. mk(n-1)` where `mk` is selected by `kind`.
fn push_indexed(tasks: &mut Vec<MpSpawnTask>, kind: u8, n: u32)
    requires
        kind < 11,
    ensures
        final(tasks)@ == old(tasks)@ + indexed_tasks(kind, n),
{
    let mut i: u32 = 0;
    let ghost start = tasks@;
    assert(start + indexed_tasks(kind, 0) =~= start);
    while i < n
        invariant
            kind < 11,
            i <= n,
            tasks@ == start + indexed_tasks(kind, i),
        decreases n - i,
    {
        let t = match kind {
            0 => MpSpawnTask::TerrainBoulder { index: i },
            1 => MpSpawnTask::TerrainTree { index: i },
            2 => MpSpawnTask::TerrainPond { index: i },
            3 => MpSpawnTask::TerrainBush { index: i },
            4 => MpSpawnTask::Flora { index: i },
            5 => MpSpawnTask::HostKingsGuard { guard_index: i },
            6 => MpSpawnTask::GuestKingsGuard { guard_index: i },
            7 => MpSpawnTask::HostInfantry { unit_index: i },
            8 => MpSpawnTask::HostArcher { unit_index: i },
            9 => MpSpawnTask::GuestInfantry { unit_index: i },
            _ => MpSpawnTask::GuestArcher { unit_index: i },
        };
        tasks.push(t);
        proof {
            assert(indexed_tasks(kind, (i + 1) as u32) =~= indexed_tasks(kind, i).push(t));
            assert(start + indexed_tasks(kind, (i + 1) as u32) =~= (start + indexed_tasks(kind, i)).push(t));
        }
        i = i + 1;
    }
}

/// The indexed task family `kind` (0 boulders .. 10 guest archers), `n` long.
pub open spec fn indexed_tasks(kind: u8, n: u32) -> Seq<MpSpawnTask> {
    if kind == 0 {
        boulder_tasks(n)
    } else if kind == 1 {
        tree_tasks(n)
    } else if kind == 2 {
        pond_tasks(n)
    } else if kind == 3 {
        bush_tasks(n)
    } else if kind == 4 {
        flora_tasks(n)
    } else if kind == 5 {
        host_guard_tasks(n)
    } else if kind == 6 {
        guest_guard_tasks(n)
    } else if kind == 7 {
        host_infantry_tasks(n)
    } else if kind == 8 {
        host_archer_tasks(n)
    } else if kind == 9 {
        guest_infantry_tasks(n)
    } else {
        guest_archer_tasks(n)
    }
}

/// Builds the deterministic spawn queue: static world (the second castle only
/// in versus), one task per terrain element, both armies on the host only,
/// then wizard and cauldron assets each followed by what reads them.
pub fn build_spawn_plan(coop: bool, role: PeerRole, terrain: TerrainCounts, armies: ArmyCounts) -> (q:
    MpSpawnQueue)
    ensures
        q.tasks@ == spec_spawn_plan(coop, role, terrain, armies),
{
    let mut q = MpSpawnQueue::new();
    q.tasks.push(MpSpawnTask::Battlefield);
    if !coop {
        q.tasks.push(MpSpawnTask::Castle2);
    }
    q.tasks.push(MpSpawnTask::PathfindingGrid);
    assert(q.tasks@ =~= static_tasks(coop));
    push_indexed(&mut q.tasks, 0, terrain.boulders);
    push_indexed(&mut q.tasks, 1, terrain.trees);
    push_indexed(&mut q.tasks, 2, terrain.ponds);
    push_indexed(&mut q.tasks, 3, terrain.bushes);
    push_indexed(&mut q.tasks, 4, terrain.flora);
    assert(q.tasks@ =~= static_tasks(coop) + terrain_tasks(terrain));
    let ghost before_armies = q.tasks@;
    match role {
        PeerRole::Host => {
            q.tasks.push(MpSpawnTask::HostKing);
            push_indexed(&mut q.tasks, 5, armies.kings_guards);
            q.tasks.push(MpSpawnTask::GuestKing);
            push_indexed(&mut q.tasks, 6, armies.kings_guards);
            push_indexed(&mut q.tasks, 7, armies.infantry);
            push_indexed(&mut q.tasks, 8, armies.archers);
            push_indexed(&mut q.tasks, 9, armies.infantry);
            push_indexed(&mut q.tasks, 10, armies.archers);
            assert(q.tasks@ =~= before_armies + army_tasks(armies));
        },
        PeerRole::Guest => {
            assert(q.tasks@ =~= before_armies + Seq::<MpSpawnTask>::empty());
        },
    }
    let ghost before_tail = q.tasks@;
    q.tasks.push(MpSpawnTask::LoadWizardAssets);
    q.tasks.push(MpSpawnTask::HostWizard);
    q.tasks.push(MpSpawnTask::GuestWizard);
    q.tasks.push(MpSpawnTask::LoadCauldronAssets);
    q.tasks.push(MpSpawnTask::Cauldron);
    assert(q.tasks@ =~= before_tail + tail_tasks());
    q
}


/// Both peers lay out the same world: whatever their role, the plan starts
/// with the same static world and the same terrain tasks, and ends with the
/// same wizard and cauldron tasks; only the host adds the armies.
pub proof fn lemma_peers_plan_same_world(coop: bool, t: TerrainCounts, a: ArmyCounts)
    ensures
        ({
            let world = static_tasks(coop) + terrain_tasks(t);
            let host = spec_spawn_plan(coop, PeerRole::Host, t, a);
            let guest = spec_spawn_plan(coop, PeerRole::Guest, t, a);
            &&& host.take(world.len() as int) == world
            &&& guest.take(world.len() as int) == world
            &&& host.skip(host.len() - tail_tasks().len()) == tail_tasks()
            &&& guest == world + tail_tasks()
        }),
{
    let world = static_tasks(coop) + terrain_tasks(t);
    let host = spec_spawn_plan(coop, PeerRole::Host, t, a);
    assert(host =~= world + army_tasks(a) + tail_tasks());
    assert(host.take(world.len() as int) =~= world);
    assert(host.skip(host.len() - tail_tasks().len()) =~= tail_tasks());
    let guest = spec_spawn_plan(coop, PeerRole::Guest, t, a);
    assert(guest =~= world + tail_tasks());
    assert(guest.take(world.len() as int) =~= world);
}

/// A task cannot run this frame: it reads assets whose load has not landed
/// yet (the wizards need the wizard assets, the cauldron the cauldron assets).
pub open spec fn waits_for_assets(t: MpSpawnTask, wizard_ready: bool, cauldron_ready: bool) -> bool {
    ((t == MpSpawnTask::HostWizard || t == MpSpawnTask::GuestWizard) && !wizard_ready) || (t
        == MpSpawnTask::Cauldron && !cauldron_ready)
}

/// The task this frame runs: the front task, unless the queue is empty or the
/// front task waits for its assets (it then stays at the front for a later
/// frame).
pub open spec fn frame_task(s: Seq<MpSpawnTask>, wizard_ready: bool, cauldron_ready: bool) -> Option<
    MpSpawnTask,
> {
    if s.len() == 0 || waits_for_assets(s[0], wizard_ready, cauldron_ready) {
        None
    } else {
        Some(s[0])
    }
}

/// Takes the one task this frame runs off the front of the queue.
/// `wizard_assets_ready` / `cauldron_assets_ready` say whether those assets
/// were available when the frame began.
pub fn take_frame_task(
    queue: &mut MpSpawnQueue,
    wizard_assets_ready: bool,
    cauldron_assets_ready: bool,
) -> (task: Option<MpSpawnTask>)
    ensures
        task == frame_task(old(queue).tasks@, wizard_assets_ready, cauldron_assets_ready),
        task is Some ==> final(queue).tasks@ == old(queue).tasks@.drop_first(),
        task is None ==> final(queue).tasks@ == old(queue).tasks@,
{
    if queue.tasks.len() == 0 {
        return None;
    }
    let front = queue.tasks[0];
    let waits = match front {
        MpSpawnTask::HostWizard | MpSpawnTask::GuestWizard => !wizard_assets_ready,
        MpSpawnTask::Cauldron => !cauldron_assets_ready,
        _ => false,
    };
    if waits {
        return None;
    }
    let t = queue.tasks.remove(0);
    assert(queue.tasks@ =~= old(queue).tasks@.drop_first());
    Some(t)
}

/// Processing never reorders or loses work: the task run this frame followed
/// by what is left is the queue the frame started from.
pub proof fn lemma_frame_task_then_rest_is_queue(s: Seq<MpSpawnTask>, w: bool, c: bool)
    ensures
        frame_task(s, w, c) matches Some(t) ==> seq![t] + s.drop_first() == s,
{
    if s.len() > 0 {
        assert(seq![s[0]] + s.drop_first() =~= s);
    }
}

/// Loading makes progress: once the assets are loaded, every frame runs the
/// front task of a non-empty queue, so a queue of `n` tasks is done in `n`
/// frames.
pub proof fn lemma_frame_task_progress(s: Seq<MpSpawnTask>)
    ensures
        s.len() > 0 ==> frame_task(s, true, true) == Some(s[0]),
{
}

/// A task that reads a deferred resource never runs in the frame that
/// scheduled its load: a frame runs a single task.
pub proof fn lemma_one_task_per_frame(s: Seq<MpSpawnTask>, w: bool, c: bool)
    ensures
        frame_task(s, w, c) is Some ==> s.len() >= 1 && frame_task(s, w, c) == Some(s[0]),
{
}

/// Whether both players have finished loading.
#[derive(PartialEq, Eq, Structural, Clone, Copy, Debug)]
pub struct MpLoadingSync {
    pub my_loaded: bool,
    pub peer_loaded: bool,
}

/// Messages left queued by the handshake: everything but `GameLoaded`.
pub open spec fn not_game_loaded<M>() -> spec_fn(PeerMessage<M>) -> bool {
    |m: PeerMessage<M>| !(m is GameLoaded)
}

/// The handshake announces `GameLoaded` the first frame the local queue is empty.
pub open spec fn announces(queue_complete: bool, sync: MpLoadingSync) -> bool {
    queue_complete && !sync.my_loaded
}

pub open spec fn has_game_loaded<M>(msgs: Seq<PeerMessage<M>>) -> bool {
    exists|i: int| 0 <= i < msgs.len() && msgs[i] is GameLoaded
}

/// The "both peers loaded" handshake after this frame's task: announce
/// `GameLoaded` once, the first frame the local queue is empty; consume every
/// `GameLoaded` from the peer; start the match once both are loaded and the
/// connection is still up. Returns whether to start the match.
pub fn loading_handshake<M>(
    queue_complete: bool,
    sync: &mut MpLoadingSync,
    incoming: &mut Vec<PeerMessage<M>>,
    outgoing: &mut Vec<PeerMessage<M>>,
    connection: ConnectionState,
) -> (start: bool)
    ensures
        final(sync).my_loaded == (old(sync).my_loaded || queue_complete),
        final(sync).peer_loaded == (old(sync).peer_loaded || has_game_loaded(old(incoming)@)),
        announces(queue_complete, *old(sync)) ==> final(outgoing)@ == old(outgoing)@.push(
            PeerMessage::GameLoaded,
        ),
        !announces(queue_complete, *old(sync)) ==> final(outgoing)@ == old(outgoing)@,
        final(incoming)@ == old(incoming)@.filter(not_game_loaded()),
        start == (final(sync).my_loaded && final(sync).peer_loaded && connection
            == ConnectionState::Connected),
{
    if queue_complete && !sync.my_loaded {
        sync.my_loaded = true;
        outgoing.push(PeerMessage::GameLoaded);
    }
    let ghost orig = incoming@;
    let mut raw: Vec<PeerMessage<M>> = Vec::new();
    std::mem::swap(&mut raw, incoming);
    let mut kept: Vec<PeerMessage<M>> = Vec::new();
    let mut seen = false;
    let ghost mut k: int = 0;
    assert(orig.skip(0) =~= orig);
    assert(orig.take(0) =~= Seq::<PeerMessage<M>>::empty());
    while raw.len() > 0
        invariant
            0 <= k <= orig.len(),
            raw@ == orig.skip(k),
            kept@ == orig.take(k).filter(not_game_loaded()),
            seen == has_game_loaded(orig.take(k)),
        decreases raw.len(),
    {
        let msg = raw.remove(0);
        proof {
            assert(orig.skip(k)[0] == orig[k]);
            assert(orig.skip(k).remove(0) =~= orig.skip(k + 1));
            assert(orig.take(k + 1).drop_last() =~= orig.take(k));
            assert(orig.take(k + 1) =~= orig.take(k).push(orig[k]));
            orig.take(k).lemma_filter_push(orig[k], not_game_loaded());
            if has_game_loaded(orig.take(k)) {
                let w = choose|i: int| #![trigger orig.take(k)[i]] 0 <= i < k && orig.take(k)[i] is GameLoaded;
                assert(orig.take(k + 1)[w] is GameLoaded);
            }
            if orig[k] is GameLoaded {
                assert(orig.take(k + 1)[k] is GameLoaded);
            }
            if has_game_loaded(orig.take(k + 1)) && !(orig[k] is GameLoaded) {
                let w = choose|i: int| #![trigger orig.take(k + 1)[i]] 0 <= i < k + 1 && orig.take(k + 1)[i] is GameLoaded;
                assert(orig.take(k)[w] is GameLoaded);
            }
        }
        match msg {
            PeerMessage::GameLoaded => {
                seen = true;
            },
            other => {
                kept.push(other);
            },
        }
        proof {
            k = k + 1;
        }
    }
    proof {
        assert(orig.take(k) =~= orig);
    }
    *incoming = kept;
    if seen {
        sync.peer_loaded = true;
    }
    let connected = match connection {
        ConnectionState::Connected => true,
        _ => false,
    };
    sync.my_loaded && sync.peer_loaded && connected
}

/// What the queue holds after this frame's task.
pub open spec fn rest_after_frame(s: Seq<MpSpawnTask>, w: bool, c: bool) -> Seq<MpSpawnTask> {
    if frame_task(s, w, c) is Some {
        s.drop_first()
    } else {
        s
    }
}

/// One frame of multiplayer loading: processes one spawn task (the caller
/// spawns it), then runs the "both peers loaded" handshake with whether the
/// queue is now empty. Returns the task and whether to start the match.
pub fn process_mp_spawn_queue<M>(
    queue: &mut MpSpawnQueue,
    sync: &mut MpLoadingSync,
    incoming: &mut Vec<PeerMessage<M>>,
    outgoing: &mut Vec<PeerMessage<M>>,
    connection: ConnectionState,
    wizard_assets_ready: bool,
    cauldron_assets_ready: bool,
) -> (r: (Option<MpSpawnTask>, bool))
    ensures
        ({
            let rest = rest_after_frame(old(queue).tasks@, wizard_assets_ready, cauldron_assets_ready);
            let complete = rest.len() == 0;
            &&& r.0 == frame_task(old(queue).tasks@, wizard_assets_ready, cauldron_assets_ready)
            &&& final(queue).tasks@ == rest
            &&& final(sync).my_loaded == (old(sync).my_loaded || complete)
            &&& final(sync).peer_loaded == (old(sync).peer_loaded || has_game_loaded(old(incoming)@))
            &&& announces(complete, *old(sync)) ==> final(outgoing)@ == old(outgoing)@.push(
                PeerMessage::GameLoaded,
            )
            &&& !announces(complete, *old(sync)) ==> final(outgoing)@ == old(outgoing)@
            &&& final(incoming)@ == old(incoming)@.filter(not_game_loaded())
            &&& r.1 == (final(sync).my_loaded && final(sync).peer_loaded && connection
                == ConnectionState::Connected)
        }),
{
    let task = take_frame_task(queue, wizard_assets_ready, cauldron_assets_ready);
    let complete = queue.is_complete();
    let start = loading_handshake(complete, sync, incoming, outgoing, connection);
    (task, start)
}

/// The game-config fields multiplayer loading overrides.
#[derive(PartialEq, Eq, Structural, Clone, Copy, Debug)]
pub struct LoadingConfig {
    pub seed: Option<u64>,
    pub current_level: u32,
    /// How many generated terrain elements of each kind the config caches.
    pub saved_terrain: TerrainCounts,
}

/// No cached terrain.
pub open spec fn no_terrain() -> TerrainCounts {
    TerrainCounts { boulders: 0, trees: 0, ponds: 0, bushes: 0, flora: 0 }
}

/// What loading saved so exit can restore the single-player config.
#[derive(PartialEq, Eq, Structural, Clone, Copy, Debug)]
pub struct MpConfigBackup {
    pub previous_seed: Option<u64>,
    pub previous_current_level: u32,
}

/// The level whose seeded terrain is generated: co-op matches the host's level
/// (falling back to the multiplayer level), versus always uses the multiplayer
/// level.
pub open spec fn spec_terrain_level(coop: bool, coop_level: Option<u32>, mp_terrain_level: u32) -> u32 {
    if coop {
        match coop_level {
            Some(l) => l,
            None => mp_terrain_level,
        }
    } else {
        mp_terrain_level
    }
}

/// The backup of the fields loading overwrites.
pub open spec fn spec_backup(c: LoadingConfig) -> MpConfigBackup {
    MpConfigBackup { previous_seed: c.seed, previous_current_level: c.current_level }
}

/// The config during multiplayer loading: the shared seed and terrain level,
/// and no cached terrain, so the generators start fresh from the shared seed.
pub open spec fn spec_prepared(game_seed: u64, terrain_level: u32) -> LoadingConfig {
    LoadingConfig { seed: Some(game_seed), current_level: terrain_level, saved_terrain: no_terrain() }
}

/// The config after exit: the backed-up fields when there is a backup, and
/// the multiplayer terrain dropped from the cache.
pub open spec fn spec_restored(c: LoadingConfig, backup: Option<MpConfigBackup>) -> LoadingConfig {
    match backup {
        Some(b) => LoadingConfig {
            seed: b.previous_seed,
            current_level: b.previous_current_level,
            saved_terrain: no_terrain(),
        },
        None => LoadingConfig { saved_terrain: no_terrain(), ..c },
    }
}

/// Overrides the config for deterministic multiplayer terrain: the shared
/// seed and the terrain level, with the terrain cache emptied. Returns the
/// backup of the overwritten fields and the terrain level.
pub fn prepare_loading_config(
    config: &mut LoadingConfig,
    game_seed: u64,
    coop: bool,
    coop_level: Option<u32>,
    mp_terrain_level: u32,
) -> (r: (MpConfigBackup, u32))
    ensures
        r.0 == spec_backup(*old(config)),
        r.1 == spec_terrain_level(coop, coop_level, mp_terrain_level),
        *final(config) == spec_prepared(game_seed, r.1),
{
    let backup = MpConfigBackup {
        previous_seed: config.seed,
        previous_current_level: config.current_level,
    };
    let level = if coop {
        match coop_level {
            Some(l) => l,
            None => mp_terrain_level,
        }
    } else {
        mp_terrain_level
    };
    config.seed = Some(game_seed);
    config.current_level = level;
    config.saved_terrain = TerrainCounts { boulders: 0, trees: 0, ponds: 0, bushes: 0, flora: 0 };
    (backup, level)
}

/// On leaving multiplayer loading: restores the overwritten fields from the
/// backup, when there is one, and drops the cached multiplayer terrain.
pub fn restore_loading_config(config: &mut LoadingConfig, backup: Option<MpConfigBackup>)
    ensures
        *final(config) == spec_restored(*old(config), backup),
{
    if let Some(b) = backup {
        config.seed = b.previous_seed;
        config.current_level = b.previous_current_level;
    }
    config.saved_terrain = TerrainCounts { boulders: 0, trees: 0, ponds: 0, bushes: 0, flora: 0 };
}

/// Multiplayer loading never pollutes single-player: restoring from the backup
/// that loading took gives back the seed and level loading started from, and
/// no multiplayer terrain stays cached.
pub proof fn lemma_loading_config_round_trip(
    before: LoadingConfig,
    game_seed: u64,
    coop: bool,
    coop_level: Option<u32>,
    mp_terrain_level: u32,
)
    ensures
        spec_restored(
            spec_prepared(game_seed, spec_terrain_level(coop, coop_level, mp_terrain_level)),
            Some(spec_backup(before)),
        ) == (LoadingConfig { saved_terrain: no_terrain(), ..before }),
{
}

/// Both peers prepare the same config: whatever seed, level and cached
/// terrain each peer's config held before, preparing with the same shared
/// seed and the same terrain-level inputs leaves equal configs.
pub proof fn lemma_peers_prepare_same_config(
    game_seed: u64,
    coop: bool,
    coop_level: Option<u32>,
    mp_terrain_level: u32,
)
    ensures
        ({
            let c = spec_prepared(game_seed, spec_terrain_level(coop, coop_level, mp_terrain_level));
            &&& c.seed == Some(game_seed)
            &&& c.current_level == spec_terrain_level(coop, coop_level, mp_terrain_level)
            &&& c.saved_terrain == no_terrain()
        }),
{
}

/// `GameLoaded` is announced exactly once: the frame that announces it marks
/// the local peer loaded, and a loaded peer never announces again.
pub proof fn lemma_game_loaded_announced_once(sync: MpLoadingSync, complete_now: bool, complete_later: bool)
    ensures
        announces(complete_now, sync) ==> !announces(
            complete_later,
            MpLoadingSync { my_loaded: sync.my_loaded || complete_now, peer_loaded: sync.peer_loaded },
        ),
{
}

} // verus!
