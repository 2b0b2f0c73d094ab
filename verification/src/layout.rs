//! Where multiplayer units start: the defender grid cells a squad occupies,
//! the cell each unit index lands in, the archers' row behind the infantry,
//! and which markers a spawned wizard or king carries.

use vstd::prelude::*;
use crate::session::{PeerRole, WizardType, Team};

verus! {

/// How many grid cells a squad takes: what it needs (at least one), but no
/// more than the grid holds.
pub open spec fn cell_count(rows: u32, cols: u32, needed: u32) -> int {
    let total = rows * cols;
    let want: int = if needed == 0 { 1 } else { needed as int };
    if want <= total { want } else { total }
}

/// The `k`-th cell of the defender grid: rows from the back (nearest the
/// castle) forward, columns left to right within a row.
pub open spec fn grid_cell(rows: u32, cols: u32, k: int) -> (u32, u32) {
    ((rows - 1 - k / (cols as int)) as u32, (k % (cols as int)) as u32)
}

pub open spec fn spec_defender_cells(rows: u32, cols: u32, needed: u32) -> Seq<(u32, u32)> {
    Seq::new(cell_count(rows, cols, needed) as nat, |k: int| grid_cell(rows, cols, k))
}

proof fn lemma_grid_cell(rows: u32, cols: u32, q: int, c: int)
    requires
        0 <= c < cols,
        0 <= q,
    ensures
        grid_cell(rows, cols, q * cols + c) == ((rows - 1 - q) as u32, c as u32),
{
    vstd::arithmetic::div_mod::lemma_fundamental_div_mod_converse(q * cols + c, cols as int, q, c);
}

/// The cells a defending squad fills, in fill order.
pub fn defender_cells(rows: u32, cols: u32, needed: u32) -> (cells: Vec<(u32, u32)>)
    ensures
        cells@ == spec_defender_cells(rows, cols, needed),
{
    let want: u32 = if needed == 0 { 1 } else { needed };
    let ghost target = cell_count(rows, cols, needed);
    let mut cells: Vec<(u32, u32)> = Vec::new();
    let mut r: u32 = rows;
    while r > 0 && cells.len() < want as usize
        invariant
            r <= rows,
            want as int == (if needed == 0 { 1 } else { needed as int }),
            target == cell_count(rows, cols, needed),
            cells.len() <= want,
            cells.len() <= (rows - r) * cols,
            cells.len() < want ==> cells.len() == (rows - r) * cols,
            forall|k: int| 0 <= k < cells.len() ==> cells@[k] == grid_cell(rows, cols, k),
        decreases r,
    {
        r = r - 1;
        let mut c: u32 = 0;
        let ghost base = cells.len() as int;
        assert(base == (rows - 1 - r) * cols);
        while c < cols && cells.len() < want as usize
            invariant
                r < rows,
                c <= cols,
                base == (rows - 1 - r) * cols,
                cells.len() == base + c,
                cells.len() <= want,
                forall|k: int| 0 <= k < cells.len() ==> cells@[k] == grid_cell(rows, cols, k),
            decreases cols - c,
        {
            proof {
                lemma_grid_cell(rows, cols, (rows - 1 - r) as int, c as int);
            }
            cells.push((r, c));
            c = c + 1;
        }
        assert((rows - r) * cols == (rows - 1 - r) * cols + cols) by (nonlinear_arith);
    }
    proof {
        assert(rows * cols >= 0) by (nonlinear_arith);
        assert((rows - r) * cols <= rows * cols) by (nonlinear_arith)
            requires
                r <= rows,
        ;
        assert(cells@ =~= spec_defender_cells(rows, cols, needed));
    }
    cells
}

/// How many units the first `c` cells hold.
pub open spec fn units_before(per_cell: Seq<u32>, c: int) -> int
    decreases c,
{
    if c <= 0 || c > per_cell.len() {
        0
    } else {
        units_before(per_cell, c - 1) + per_cell[c - 1]
    }
}

proof fn lemma_units_before_monotone(per_cell: Seq<u32>, a: int, b: int)
    requires
        0 <= a <= b <= per_cell.len(),
    ensures
        units_before(per_cell, a) <= units_before(per_cell, b),
    decreases b - a,
{
    if a < b {
        lemma_units_before_monotone(per_cell, a, b - 1);
    }
}

/// The cell whose share of units covers `unit_index`, among the first
/// `ncells` cells; `None` when the index is past every share.
pub fn cell_for_unit(per_cell: &Vec<u32>, ncells: usize, unit_index: u32) -> (r: Option<usize>)
    requires
        ncells <= per_cell.len(),
        units_before(per_cell@, ncells as int) <= u32::MAX,
    ensures
        match r {
            Some(c) => c < ncells && units_before(per_cell@, c as int) <= unit_index < units_before(
                per_cell@,
                c + 1,
            ),
            None => units_before(per_cell@, ncells as int) <= unit_index,
        },
{
    let mut counted: u32 = 0;
    let mut i: usize = 0;
    while i < ncells
        invariant
            i <= ncells,
            ncells <= per_cell.len(),
            units_before(per_cell@, ncells as int) <= u32::MAX,
            counted == units_before(per_cell@, i as int),
            units_before(per_cell@, i as int) <= unit_index,
        decreases ncells - i,
    {
        proof {
            lemma_units_before_monotone(per_cell@, i + 1, ncells as int);
        }
        let here = per_cell[i];
        if unit_index < counted + here {
            return Some(i);
        }
        counted = counted + here;
        i = i + 1;
    }
    None
}

/// Each unit index below a squad's total lands in exactly one cell.
pub proof fn lemma_unit_in_one_cell(per_cell: Seq<u32>, n: int, i: int, c1: int, c2: int)
    requires
        0 <= c1 < n,
        0 <= c2 < n,
        n <= per_cell.len(),
        units_before(per_cell, c1) <= i < units_before(per_cell, c1 + 1),
        units_before(per_cell, c2) <= i < units_before(per_cell, c2 + 1),
    ensures
        c1 == c2,
{
    if c1 < c2 {
        lemma_units_before_monotone(per_cell, c1 + 1, c2);
    } else if c2 < c1 {
        lemma_units_before_monotone(per_cell, c2 + 1, c1);
    }
}

/// The grid cell of infantry unit `unit_index` in a squad that needs
/// `needed` cells shared out as `per_cell`; `None` when the index is past the
/// squad.
pub fn infantry_cell(rows: u32, cols: u32, needed: u32, per_cell: &Vec<u32>, unit_index: u32) -> (r:
    Option<(u32, u32)>)
    requires
        cell_count(rows, cols, needed) <= per_cell.len(),
        units_before(per_cell@, cell_count(rows, cols, needed)) <= u32::MAX,
    ensures
        match r {
            Some(cell) => exists|c: int|
                0 <= c < cell_count(rows, cols, needed) && units_before(per_cell@, c) <= unit_index
                    < units_before(per_cell@, c + 1) && cell == grid_cell(rows, cols, c),
            None => units_before(per_cell@, cell_count(rows, cols, needed)) <= unit_index,
        },
{
    let cells = defender_cells(rows, cols, needed);
    match cell_for_unit(per_cell, cells.len(), unit_index) {
        Some(c) => {
            assert(cells@[c as int] == grid_cell(rows, cols, c as int));
            Some(cells[c])
        },
        None => None,
    }
}

/// The archers' row: one row in front of the last row the infantry fills
/// (rows filled from the back), floored at the front row.
pub open spec fn spec_archer_row(rows: u32, cols: u32, infantry_needed: u32) -> u32 {
    let infantry_rows: int = infantry_needed / cols + (if infantry_needed % cols != 0 { 1int } else { 0int });
    let last: int = if rows >= infantry_rows { rows - infantry_rows } else { 0 };
    (if last >= 1 { last - 1 } else { 0 }) as u32
}

pub fn archer_row(rows: u32, cols: u32, infantry_needed: u32) -> (r: u32)
    requires
        cols > 0,
    ensures
        r == spec_archer_row(rows, cols, infantry_needed),
{
    let q: u32 = infantry_needed / cols;
    proof {
        vstd::arithmetic::div_mod::lemma_fundamental_div_mod(infantry_needed as int, cols as int);
        let rem = infantry_needed % cols;
        assert(rem != 0 ==> q < u32::MAX) by (nonlinear_arith)
            requires
                cols >= 1,
                infantry_needed == cols * q + rem,
                rem >= 0,
                infantry_needed <= u32::MAX,
        ;
    }
    let infantry_rows: u32 = if infantry_needed % cols != 0 { q + 1 } else { q };
    let last = rows.saturating_sub(infantry_rows);
    last.saturating_sub(1)
}

/// How many archer cells are used: what the archers need, at most one row.
pub open spec fn archer_cell_count(cols: u32, archers_needed: u32) -> int {
    if archers_needed <= cols { archers_needed as int } else { cols as int }
}

/// The grid cell of archer `unit_index`: in the archers' row, at the column
/// whose share of archers covers the index; `None` past the last share.
pub fn archer_cell(
    rows: u32,
    cols: u32,
    infantry_needed: u32,
    archers_needed: u32,
    per_cell: &Vec<u32>,
    unit_index: u32,
) -> (r: Option<(u32, u32)>)
    requires
        cols > 0,
        archer_cell_count(cols, archers_needed) <= per_cell.len(),
        units_before(per_cell@, archer_cell_count(cols, archers_needed)) <= u32::MAX,
    ensures
        match r {
            Some(cell) => {
                &&& cell.0 == spec_archer_row(rows, cols, infantry_needed)
                &&& cell.1 < archer_cell_count(cols, archers_needed)
                &&& units_before(per_cell@, cell.1 as int) <= unit_index < units_before(
                    per_cell@,
                    cell.1 + 1,
                )
            },
            None => units_before(per_cell@, archer_cell_count(cols, archers_needed)) <= unit_index,
        },
{
    let row = archer_row(rows, cols, infantry_needed);
    let ncells: u32 = if archers_needed <= cols { archers_needed } else { cols };
    match cell_for_unit(per_cell, ncells as usize, unit_index) {
        Some(c) => Some((row, c as u32)),
        None => None,
    }
}

/// What a spawned wizard carries besides its body.
#[derive(PartialEq, Eq, Structural, Clone, Copy, Debug)]
pub struct WizardSpawnPlan {
    /// Wizards are spawned locally on both peers, so they stay out of the
    /// snapshot stream.
    pub no_snapshot: bool,
    /// This peer controls the wizard.
    pub local: bool,
    /// The host's proxy of the guest's wizard (it runs the guest's spells).
    pub guest_proxy: bool,
    /// Starts with Magic Missile primed.
    pub primed_missile: bool,
    /// Uses the co-op guest's idle sheet.
    pub guest_sprite: bool,
    /// Gets the versus-only spell-range buff.
    pub versus_range_buff: bool,
    /// Gets the Arcanorouter's bonus tracker.
    pub arcanorouter_bonuses: bool,
}

pub open spec fn spec_wizard_spawn_plan(
    wizard: WizardType,
    role: PeerRole,
    is_host_wizard: bool,
    coop: bool,
) -> WizardSpawnPlan {
    WizardSpawnPlan {
        no_snapshot: true,
        local: (is_host_wizard && role == PeerRole::Host) || (!is_host_wizard && role
            == PeerRole::Guest),
        guest_proxy: !is_host_wizard && role == PeerRole::Host,
        primed_missile: !(wizard == WizardType::Warglock || wizard == WizardType::Randomancer
            || wizard == WizardType::Shepherd),
        guest_sprite: coop && !is_host_wizard,
        versus_range_buff: !coop,
        arcanorouter_bonuses: wizard == WizardType::Arcanorouter,
    }
}

/// The markers of a multiplayer wizard: every wizard stays out of snapshots;
/// the local peer controls its own
/// wizard, the host proxies the guest's; Warglock, Randomancer and Shepherd
/// start without Magic Missile; the co-op guest gets its own sheet; only
/// versus buffs spell range.
pub fn wizard_spawn_plan(wizard: WizardType, role: PeerRole, is_host_wizard: bool, coop: bool) -> (p:
    WizardSpawnPlan)
    ensures
        p == spec_wizard_spawn_plan(wizard, role, is_host_wizard, coop),
{
    let host = match role {
        PeerRole::Host => true,
        PeerRole::Guest => false,
    };
    let primed = match wizard {
        WizardType::Warglock | WizardType::Randomancer | WizardType::Shepherd => false,
        _ => true,
    };
    let arcano = match wizard {
        WizardType::Arcanorouter => true,
        _ => false,
    };
    WizardSpawnPlan {
        no_snapshot: true,
        local: (is_host_wizard && host) || (!is_host_wizard && !host),
        guest_proxy: !is_host_wizard && host,
        primed_missile: primed,
        guest_sprite: coop && !is_host_wizard,
        versus_range_buff: !coop,
        arcanorouter_bonuses: arcano,
    }
}

/// Exactly one peer controls each wizard, and the host proxies only the
/// guest's.
pub proof fn lemma_one_controller_per_wizard(wizard: WizardType, is_host_wizard: bool, coop: bool)
    ensures
        spec_wizard_spawn_plan(wizard, PeerRole::Host, is_host_wizard, coop).local != spec_wizard_spawn_plan(
            wizard,
            PeerRole::Guest,
            is_host_wizard,
            coop,
        ).local,
        spec_wizard_spawn_plan(wizard, PeerRole::Host, is_host_wizard, coop).guest_proxy
            == !is_host_wizard,
        !spec_wizard_spawn_plan(wizard, PeerRole::Guest, is_host_wizard, coop).guest_proxy,
{
}

/// Where on the battlefield something is placed.
#[derive(PartialEq, Eq, Structural, Clone, Copy, Debug)]
pub enum Spot {
    /// The host's corner.
    Home,
    /// Beside the host (the co-op guest shares the host's side).
    BesideHome,
    /// The mirrored opposite corner (the versus guest's side).
    OppositeCorner,
}

/// How one peer lays out its copy of the battlefield.
#[derive(PartialEq, Eq, Structural, Clone, Copy, Debug)]
pub struct MpPlacement {
    /// The purely visual world is rotated half a turn, to match a mirrored camera.
    pub mirror_world: bool,
    pub guest_wizard: Spot,
    /// The cauldron stands beside the local wizard.
    pub cauldron: Spot,
}

pub open spec fn spec_mp_placement(role: PeerRole, coop: bool) -> MpPlacement {
    MpPlacement {
        mirror_world: role == PeerRole::Guest && !coop,
        guest_wizard: if coop { Spot::BesideHome } else { Spot::OppositeCorner },
        cauldron: if role == PeerRole::Host {
            Spot::Home
        } else if coop {
            Spot::BesideHome
        } else {
            Spot::OppositeCorner
        },
    }
}

/// The layout for `role`: only the versus guest mirrors the world; the
/// guest's wizard stands beside the host in co-op and in the opposite corner
/// in versus; the cauldron stands by the local wizard.
pub fn mp_placement(role: PeerRole, coop: bool) -> (p: MpPlacement)
    ensures
        p == spec_mp_placement(role, coop),
{
    let guest = match role {
        PeerRole::Guest => true,
        PeerRole::Host => false,
    };
    MpPlacement {
        mirror_world: guest && !coop,
        guest_wizard: if coop { Spot::BesideHome } else { Spot::OppositeCorner },
        cauldron: if !guest {
            Spot::Home
        } else if coop {
            Spot::BesideHome
        } else {
            Spot::OppositeCorner
        },
    }
}

/// Each peer's cauldron stands on the same side as the wizard it controls.
pub proof fn lemma_cauldron_by_local_wizard(role: PeerRole, coop: bool)
    ensures
        role == PeerRole::Guest ==> spec_mp_placement(role, coop).cauldron == spec_mp_placement(
            role,
            coop,
        ).guest_wizard,
        role == PeerRole::Host ==> spec_mp_placement(role, coop).cauldron == Spot::Home,
{
}

/// The aura filter a king's commander aura buffs.
#[derive(PartialEq, Eq, Structural, Clone, Copy, Debug)]
pub enum AuraFilter {
    Defenders,
    Attackers,
}

/// What a spawned king carries.
#[derive(PartialEq, Eq, Structural, Clone, Copy, Debug)]
pub struct KingSpawnPlan {
    pub aura: AuraFilter,
    /// Holds its ground near its spawn point (defenders) rather than advancing.
    pub holds_ground: bool,
    /// Active from the start: multiplayer has no staging phase.
    pub pre_activated: bool,
    /// Kings cannot be teleported in multiplayer.
    pub teleportable: bool,
}

pub open spec fn spec_king_spawn_plan(team: Team) -> KingSpawnPlan {
    KingSpawnPlan {
        aura: if team == Team::Attackers { AuraFilter::Attackers } else { AuraFilter::Defenders },
        holds_ground: team == Team::Defenders,
        pre_activated: team == Team::Attackers,
        teleportable: false,
    }
}

/// A multiplayer king: its aura buffs its own side (any side but the
/// attackers counts as defenders), defenders hold ground, attackers start
/// active, and no king is teleportable. Spawning it records that a king was
/// spawned.
pub fn king_spawn_plan(team: Team, king_spawned: &mut bool) -> (p: KingSpawnPlan)
    ensures
        p == spec_king_spawn_plan(team),
        *final(king_spawned),
{
    *king_spawned = true;
    match team {
        Team::Attackers => KingSpawnPlan {
            aura: AuraFilter::Attackers,
            holds_ground: false,
            pre_activated: true,
            teleportable: false,
        },
        Team::Defenders => KingSpawnPlan {
            aura: AuraFilter::Defenders,
            holds_ground: true,
            pre_activated: false,
            teleportable: false,
        },
        Team::Undead => KingSpawnPlan {
            aura: AuraFilter::Defenders,
            holds_ground: false,
            pre_activated: false,
            teleportable: false,
        },
    }
}

/// What a spawned infantry unit or archer carries besides its body.
#[derive(PartialEq, Eq, Structural, Clone, Copy, Debug)]
pub struct UnitSpawnPlan {
    pub team: Team,
    /// Starts at full health.
    pub full_health: bool,
    /// Teleport spells may move it.
    pub teleportable: bool,
    /// Its first attack is offset randomly into the attack cycle.
    pub staggered_attack: bool,
    /// Holds its ground around its spawn point (the host's side) rather than
    /// advancing (the guest's side).
    pub holds_ground: bool,
    /// Active from the start: multiplayer has no staging phase.
    pub pre_activated: bool,
}

pub open spec fn spec_unit_spawn_plan(team: Team, host_side: bool) -> UnitSpawnPlan {
    UnitSpawnPlan {
        team,
        full_health: true,
        teleportable: true,
        staggered_attack: true,
        holds_ground: host_side,
        pre_activated: team == Team::Attackers,
    }
}

/// A multiplayer infantry unit or archer: on its team, at full health,
/// teleportable, with a staggered first attack; the host's side holds ground,
/// the guest's advances; attackers start active.
pub fn unit_spawn_plan(team: Team, host_side: bool) -> (p: UnitSpawnPlan)
    ensures
        p == spec_unit_spawn_plan(team, host_side),
{
    UnitSpawnPlan {
        team,
        full_health: true,
        teleportable: true,
        staggered_attack: true,
        holds_ground: host_side,
        pre_activated: pre_activated(team),
    }
}

/// Attacking units spawn already active (multiplayer has no staging phase);
/// every other side does not.
pub fn pre_activated(team: Team) -> (r: bool)
    ensures
        r == (team == Team::Attackers),
{
    match team {
        Team::Attackers => true,
        _ => false,
    }
}

/// A wizard starts with Magic Missile primed exactly when its archetype is
/// none of Warglock, Randomancer and Shepherd, whoever spawns it and in
/// whichever mode.
pub proof fn lemma_primed_missile_by_archetype(wizard: WizardType, role: PeerRole, is_host_wizard: bool, coop: bool)
    ensures
        spec_wizard_spawn_plan(wizard, role, is_host_wizard, coop).primed_missile == !(wizard == WizardType::Warglock
            || wizard == WizardType::Randomancer || wizard == WizardType::Shepherd),
        wizard == WizardType::Randomancer ==> !spec_wizard_spawn_plan(wizard, role, is_host_wizard, coop).primed_missile,
        wizard == WizardType::BoringOleMage ==> spec_wizard_spawn_plan(wizard, role, is_host_wizard, coop).primed_missile,
{
}

/// The other wizard markers: every wizard stays out of snapshots, only the
/// co-op guest's wizard uses the guest sheet, only versus buffs spell range,
/// and only the Arcanorouter tracks its bonuses.
pub proof fn lemma_wizard_markers(wizard: WizardType, role: PeerRole, is_host_wizard: bool, coop: bool)
    ensures
        ({
            let p = spec_wizard_spawn_plan(wizard, role, is_host_wizard, coop);
            &&& p.no_snapshot
            &&& p.guest_sprite == (coop && !is_host_wizard)
            &&& p.versus_range_buff == !coop
            &&& p.arcanorouter_bonuses == (wizard == WizardType::Arcanorouter)
        }),
{
}

} // verus!
