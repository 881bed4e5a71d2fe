//! Well-formedness of a snapshot: the data-model invariants that the
//! boundary decoder enforces before any decision logic runs.
//!
//! A snapshot that fails these checks is rejected with
//! [`crate::model::AnalyzerError::DecodeError`] by the entry point.

use vstd::prelude::*;

use crate::model::Cell;
use crate::model::Game;
use crate::model::Level;
use crate::model::Loc;
use crate::model::Player;
use crate::model::Scenario;
use crate::model::Structure;
use crate::model::TechTree;
use crate::model::Unit;

verus! {

/// Research tiers unlock strictly in order: a tier may be set only when the
/// tier below it is set.
pub open spec fn tech_tree_ok(t: TechTree) -> bool {
    &&& (t.level_two is Some ==> t.level_one is Some)
    &&& (t.level_three is Some ==> t.level_two is Some)
    &&& (t.level_four is Some ==> t.level_three is Some)
}

/// A unit at its maximum level has `to_next_level == 0`; below the maximum,
/// accumulated experience stays below the threshold.
pub open spec fn level_ok(l: Level) -> bool {
    l.to_next_level == 0 || l.xp < l.to_next_level
}

/// The coordinate lies on the scenario's grid.
pub open spec fn in_bounds(s: Scenario, l: Loc) -> bool {
    l.x() < s.max_x && l.y() < s.max_y
}

/// The grid has `max_y` rows of `max_x` cells each, and every cell records
/// its own coordinate.
pub open spec fn grid_wf(s: Scenario) -> bool {
    &&& s.grid@.len() == s.max_y
    &&& (forall|y: int| 0 <= y < s.grid@.len() ==> (#[trigger] s.grid@[y])@.len() == s.max_x)
    &&& (forall|y: int, x: int|
        0 <= y < s.grid@.len() && 0 <= x < s.grid@[y]@.len() ==> (#[trigger] s.grid@[y]@[x]).loc
            == Loc::Loc(x as u32, y as u32))
}

/// A cell nobody controls carries no structure.
pub open spec fn cell_ok(c: Cell) -> bool {
    c.controlled_by is None ==> c.structure == Structure::Empty
}

/// Every cell of the grid satisfies the cell invariant.
pub open spec fn cells_wf(s: Scenario) -> bool {
    forall|y: int, x: int|
        0 <= y < s.grid@.len() && 0 <= x < s.grid@[y]@.len() ==> cell_ok(
            #[trigger] s.grid@[y]@[x],
        )
}

/// Player ids are pairwise distinct.
pub open spec fn player_ids_unique(ps: Seq<Player>) -> bool {
    forall|i: int, j: int|
        0 <= i < j < ps.len() ==> (#[trigger] ps[i]).id != (#[trigger] ps[j]).id
}

/// Some player in the list carries the given id.
pub open spec fn has_player(ps: Seq<Player>, pid: u32) -> bool {
    exists|i: int| 0 <= i < ps.len() && (#[trigger] ps[i]).id == pid
}

/// Player list invariant: unique ids and ordered tech trees.
pub open spec fn players_wf(s: Scenario) -> bool {
    &&& player_ids_unique(s.players@)
    &&& (forall|i: int|
        0 <= i < s.players@.len() ==> tech_tree_ok((#[trigger] s.players@[i]).tech_tree))
}

/// Per-unit invariant: budgets within their maxima, a valid level, an
/// on-grid coordinate, and an owner that exists in the player list.
pub open spec fn unit_ok(s: Scenario, u: Unit) -> bool {
    &&& u.moves_left <= u.max_moves
    &&& u.health <= u.max_health
    &&& level_ok(u.level)
    &&& in_bounds(s, u.loc)
    &&& has_player(s.players@, u.controlled_by)
}

/// Unit list invariant: each unit is valid, ids are pairwise distinct, and
/// no two units occupy the same cell.
pub open spec fn units_wf(s: Scenario) -> bool {
    &&& (forall|i: int| 0 <= i < s.units@.len() ==> unit_ok(s, #[trigger] s.units@[i]))
    &&& (forall|i: int, j: int|
        0 <= i < j < s.units@.len() ==> (#[trigger] s.units@[i]).id != (#[trigger] s.units@[j]).id
            && s.units@[i].loc != s.units@[j].loc)
}

/// The whole scenario satisfies the data-model invariants.
pub open spec fn scenario_wf(s: Scenario) -> bool {
    &&& grid_wf(s)
    &&& cells_wf(s)
    &&& players_wf(s)
    &&& units_wf(s)
}

/// The whole snapshot is well-formed: the authoritative scenario satisfies
/// its invariants and the top-level player list carries ordered tech trees.
pub open spec fn game_wf(g: Game) -> bool {
    &&& scenario_wf(g.scenario)
    &&& (forall|i: int|
        0 <= i < g.players@.len() ==> tech_tree_ok((#[trigger] g.players@[i]).tech_tree))
}

/// Checks that research tiers are unlocked in order.
pub fn validate_tech_tree(t: &TechTree) -> (r: bool)
    ensures
        r == tech_tree_ok(*t),
{
    (t.level_two.is_none() || t.level_one.is_some()) && (t.level_three.is_none()
        || t.level_two.is_some()) && (t.level_four.is_none() || t.level_three.is_some())
}

/// Checks the experience invariant of a unit level.
pub fn validate_level(l: &Level) -> (r: bool)
    ensures
        r == level_ok(*l),
{
    l.to_next_level == 0 || l.xp < l.to_next_level
}

/// Finds the first player with the given id, if any.
#[verifier::loop_isolation(false)]
pub fn find_player_index(players: &Vec<Player>, pid: u32) -> (r: Option<usize>)
    ensures
        match r {
            Some(i) => i < players@.len() && players@[i as int].id == pid && (forall|j: int|
                0 <= j < i ==> (#[trigger] players@[j]).id != pid),
            None => forall|j: int| 0 <= j < players@.len() ==> (#[trigger] players@[j]).id != pid,
        },
        r is Some <==> has_player(players@, pid),
{
    let mut i: usize = 0;
    while i < players.len()
        invariant
            0 <= i <= players@.len(),
            forall|j: int| 0 <= j < i ==> (#[trigger] players@[j]).id != pid,
        decreases players@.len() - i,
    {
        if players[i].id == pid {
            return Some(i);
        }
        i += 1;
    }
    None
}

/// Checks the grid shape: row and column counts match the declared bounds
/// and each cell records its own coordinate.
#[verifier::loop_isolation(false)]
fn validate_grid(s: &Scenario) -> (r: bool)
    ensures
        r == grid_wf(*s),
{
    if s.grid.len() != s.max_y as usize {
        return false;
    }
    let mut y: usize = 0;
    while y < s.grid.len()
        invariant
            0 <= y <= s.grid@.len(),
            s.grid@.len() == s.max_y,
            forall|yy: int| 0 <= yy < y ==> (#[trigger] s.grid@[yy])@.len() == s.max_x,
            forall|yy: int, x: int|
                0 <= yy < y && 0 <= x < s.grid@[yy]@.len() ==> (#[trigger] s.grid@[yy]@[x]).loc
                    == Loc::Loc(x as u32, yy as u32),
        decreases s.grid@.len() - y,
    {
        if s.grid[y].len() != s.max_x as usize {
            return false;
        }
        let mut x: usize = 0;
        while x < s.grid[y].len()
            invariant
                0 <= y < s.grid@.len(),
                0 <= x <= s.grid@[y as int]@.len(),
                s.grid@[y as int]@.len() == s.max_x,
                forall|xx: int|
                    0 <= xx < x ==> (#[trigger] s.grid@[y as int]@[xx]).loc == Loc::Loc(
                        xx as u32,
                        y as u32,
                    ),
        decreases s.grid@[y as int]@.len() - x,
        {
            if !(s.grid[y][x].loc == Loc::Loc(x as u32, y as u32)) {
                return false;
            }
            x += 1;
        }
        y += 1;
    }
    true
}

/// Checks the cell invariant over the whole grid.
#[verifier::loop_isolation(false)]
fn validate_cells(s: &Scenario) -> (r: bool)
    ensures
        r == cells_wf(*s),
{
    let mut y: usize = 0;
    while y < s.grid.len()
        invariant
            0 <= y <= s.grid@.len(),
            forall|yy: int, x: int|
                0 <= yy < y && 0 <= x < s.grid@[yy]@.len() ==> cell_ok(#[trigger] s.grid@[yy]@[x]),
        decreases s.grid@.len() - y,
    {
        let mut x: usize = 0;
        while x < s.grid[y].len()
            invariant
                0 <= y < s.grid@.len(),
                0 <= x <= s.grid@[y as int]@.len(),
                forall|xx: int|
                    0 <= xx < x ==> cell_ok(#[trigger] s.grid@[y as int]@[xx]),
            decreases s.grid@[y as int]@.len() - x,
        {
            let c = &s.grid[y][x];
            if c.controlled_by.is_none() && !(c.structure == Structure::Empty) {
                return false;
            }
            x += 1;
        }
        y += 1;
    }
    true
}

/// Checks the player list invariant.
#[verifier::loop_isolation(false)]
fn validate_players(s: &Scenario) -> (r: bool)
    ensures
        r == players_wf(*s),
{
    let mut i: usize = 0;
    while i < s.players.len()
        invariant
            0 <= i <= s.players@.len(),
            forall|a: int, b: int|
                0 <= a < b < i ==> (#[trigger] s.players@[a]).id != (#[trigger] s.players@[b]).id,
            forall|a: int|
                0 <= a < i ==> tech_tree_ok((#[trigger] s.players@[a]).tech_tree),
        decreases s.players@.len() - i,
    {
        if !validate_tech_tree(&s.players[i].tech_tree) {
            return false;
        }
        let mut j: usize = 0;
        while j < i
            invariant
                0 <= j <= i < s.players@.len(),
                forall|a: int| 0 <= a < j ==> (#[trigger] s.players@[a]).id != s.players@[i as int].id,
            decreases i - j,
        {
            if s.players[j].id == s.players[i].id {
                return false;
            }
            j += 1;
        }
        i += 1;
    }
    true
}

/// Checks the unit list invariant.
#[verifier::loop_isolation(false)]
fn validate_units(s: &Scenario) -> (r: bool)
    ensures
        r == units_wf(*s),
{
    let mut i: usize = 0;
    while i < s.units.len()
        invariant
            0 <= i <= s.units@.len(),
            forall|a: int| 0 <= a < i ==> unit_ok(*s, #[trigger] s.units@[a]),
            forall|a: int, b: int|
                0 <= a < b < i ==> (#[trigger] s.units@[a]).id != (#[trigger] s.units@[b]).id
                    && s.units@[a].loc != s.units@[b].loc,
        decreases s.units@.len() - i,
    {
        let u = &s.units[i];
        if u.moves_left > u.max_moves || u.health > u.max_health {
            return false;
        }
        if !validate_level(&u.level) {
            return false;
        }
        let Loc::Loc(ux, uy) = u.loc;
        if ux >= s.max_x || uy >= s.max_y {
            return false;
        }
        if find_player_index(&s.players, u.controlled_by).is_none() {
            return false;
        }
        let mut j: usize = 0;
        while j < i
            invariant
                0 <= j <= i < s.units@.len(),
                forall|a: int|
                    0 <= a < j ==> (#[trigger] s.units@[a]).id != s.units@[i as int].id
                        && s.units@[a].loc != s.units@[i as int].loc,
            decreases i - j,
        {
            if s.units[j].id == u.id || s.units[j].loc == u.loc {
                return false;
            }
            j += 1;
        }
        i += 1;
    }
    true
}

/// Checks every scenario invariant of the data model.
pub fn validate_scenario(s: &Scenario) -> (r: bool)
    ensures
        r == scenario_wf(*s),
{
    validate_grid(s) && validate_cells(s) && validate_players(s) && validate_units(s)
}

/// Checks the whole snapshot: the scenario's invariants plus the ordering
/// of every top-level player's tech tree.
#[verifier::loop_isolation(false)]
pub fn validate_game(g: &Game) -> (r: bool)
    ensures
        r == game_wf(*g),
{
    if !validate_scenario(&g.scenario) {
        return false;
    }
    let mut i: usize = 0;
    while i < g.players.len()
        invariant
            0 <= i <= g.players@.len(),
            scenario_wf(g.scenario),
            forall|a: int|
                0 <= a < i ==> tech_tree_ok((#[trigger] g.players@[a]).tech_tree),
        decreases g.players@.len() - i,
    {
        if !validate_tech_tree(&g.players[i].tech_tree) {
            return false;
        }
        i += 1;
    }
    true
}

} // verus!
