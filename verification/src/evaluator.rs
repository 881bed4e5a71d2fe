//! Scoring of candidate actions: a pure function from a candidate, the
//! snapshot, and a weight configuration to an integer utility.
//!
//! Every sub-score is normalized into the fixed-point interval from -100 to
//! 100 (standing for the reals from -1 to 1) before weighting, so weight
//! configurations are comparable across modes. The damage formula behind
//! the combat sub-score is a policy of this module, not fixed upstream.

use vstd::prelude::*;

use crate::model::Action;
use crate::model::Cell;
use crate::model::Loc;
use crate::model::Scenario;
use crate::model::Weights;
use crate::model::manhattan;
use crate::model::manhattan_dist;
use crate::movegen::CITADEL_COST;
use crate::movegen::cell_at;
use crate::movegen::grid_total;
use crate::movegen::loc_of;
use crate::movegen::scan_loc;
use crate::movegen::unit_cost_spec;
use crate::validate::in_bounds;
use crate::validate::scenario_wf;

verus! {

/// Clamps a value into a closed interval.
pub open spec fn clamp_spec(v: int, lo: int, hi: int) -> int {
    if v < lo {
        lo
    } else if v > hi {
        hi
    } else {
        v
    }
}

/// The cell standing at a coordinate.
pub open spec fn cell_of_loc(s: Scenario, l: Loc) -> Cell {
    s.grid@[l.y() as int]@[l.x() as int]
}

/// Index of the unit with the given id, or -1 when no unit carries it.
/// Under the snapshot invariants ids are unique, so the index is the one
/// matching position.
pub open spec fn unit_idx_by_id(s: Scenario, uid: u32) -> int {
    if exists|i: int| 0 <= i < s.units@.len() && (#[trigger] s.units@[i]).id == uid {
        choose|i: int| 0 <= i < s.units@.len() && (#[trigger] s.units@[i]).id == uid
    } else {
        -1
    }
}

/// Index of the unit standing on the given coordinate, or -1 when the cell
/// is empty. Under the snapshot invariants at most one unit stands on any
/// coordinate.
pub open spec fn unit_idx_at(s: Scenario, l: Loc) -> int {
    if exists|i: int| 0 <= i < s.units@.len() && (#[trigger] s.units@[i]).loc == l {
        choose|i: int| 0 <= i < s.units@.len() && (#[trigger] s.units@[i]).loc == l
    } else {
        -1
    }
}

/// Finds the first unit with the given id, if any.
#[verifier::loop_isolation(false)]
pub fn find_unit_by_id(s: &Scenario, uid: u32) -> (r: Option<usize>)
    ensures
        match r {
            Some(i) => i < s.units@.len() && s.units@[i as int].id == uid && (forall|j: int|
                0 <= j < i ==> (#[trigger] s.units@[j]).id != uid),
            None => forall|j: int| 0 <= j < s.units@.len() ==> (#[trigger] s.units@[j]).id != uid,
        },
{
    let mut i: usize = 0;
    while i < s.units.len()
        invariant
            0 <= i <= s.units@.len(),
            forall|j: int| 0 <= j < i ==> (#[trigger] s.units@[j]).id != uid,
        decreases s.units@.len() - i,
    {
        if s.units[i].id == uid {
            return Some(i);
        }
        i += 1;
    }
    None
}

/// Finds the first unit standing on the coordinate, if any.
#[verifier::loop_isolation(false)]
pub fn find_unit_at(s: &Scenario, l: Loc) -> (r: Option<usize>)
    ensures
        match r {
            Some(i) => i < s.units@.len() && s.units@[i as int].loc == l && (forall|j: int|
                0 <= j < i ==> (#[trigger] s.units@[j]).loc != l),
            None => forall|j: int| 0 <= j < s.units@.len() ==> (#[trigger] s.units@[j]).loc != l,
        },
{
    let mut i: usize = 0;
    while i < s.units.len()
        invariant
            0 <= i <= s.units@.len(),
            forall|j: int| 0 <= j < i ==> (#[trigger] s.units@[j]).loc != l,
        decreases s.units@.len() - i,
    {
        if s.units[i].loc == l {
            return Some(i);
        }
        i += 1;
    }
    None
}

/// With unique unit ids, any matching index is the index `unit_idx_by_id`
/// denotes.
pub proof fn lemma_unit_idx_by_id_at(s: Scenario, uid: u32, i: int)
    requires
        forall|a: int, b: int|
            0 <= a < b < s.units@.len() ==> (#[trigger] s.units@[a]).id != (
            #[trigger] s.units@[b]).id,
        0 <= i < s.units@.len(),
        s.units@[i].id == uid,
    ensures
        unit_idx_by_id(s, uid) == i,
{
    let j = choose|j: int| 0 <= j < s.units@.len() && (#[trigger] s.units@[j]).id == uid;
    if i < j {
        assert(s.units@[i].id != s.units@[j].id);
    } else if j < i {
        assert(s.units@[j].id != s.units@[i].id);
    }
}

/// With unique unit coordinates, any unit found on a coordinate is the one
/// `unit_idx_at` denotes.
pub proof fn lemma_unit_idx_at_loc(s: Scenario, l: Loc, i: int)
    requires
        forall|a: int, b: int|
            0 <= a < b < s.units@.len() ==> (#[trigger] s.units@[a]).loc != (
            #[trigger] s.units@[b]).loc,
        0 <= i < s.units@.len(),
        s.units@[i].loc == l,
    ensures
        unit_idx_at(s, l) == i,
{
    let j = choose|j: int| 0 <= j < s.units@.len() && (#[trigger] s.units@[j]).loc == l;
    if i < j {
        assert(s.units@[i].loc != s.units@[j].loc);
    } else if j < i {
        assert(s.units@[j].loc != s.units@[i].loc);
    }
}

/// The scan position holds a cell controlled by some other player.
pub open spec fn enemy_cell(s: Scenario, pid: u32, k: int) -> bool {
    match cell_at(s, k).controlled_by {
        Some(e) => e != pid,
        None => false,
    }
}

/// An unreachable distance, larger than any on-grid Manhattan distance;
/// the minimum enemy distance evaluates to it when no enemy cell exists.
pub open spec fn dist_sentinel(s: Scenario) -> int {
    s.max_x as int + s.max_y as int
}

/// The least Manhattan distance from `from` to an enemy-controlled cell
/// among the first `k` scan positions.
pub open spec fn min_enemy_cell_dist_upto(s: Scenario, pid: u32, from: Loc, k: int) -> int
    decreases k,
{
    if k <= 0 {
        dist_sentinel(s)
    } else {
        let prev = min_enemy_cell_dist_upto(s, pid, from, k - 1);
        if enemy_cell(s, pid, k - 1) && manhattan(from, loc_of(s, k - 1)) < prev {
            manhattan(from, loc_of(s, k - 1))
        } else {
            prev
        }
    }
}

/// The least Manhattan distance from `from` to any enemy-controlled cell.
pub open spec fn min_enemy_cell_dist(s: Scenario, pid: u32, from: Loc) -> int {
    min_enemy_cell_dist_upto(s, pid, from, s.max_x as int * s.max_y as int)
}

/// Computes the least distance to an enemy-controlled cell.
#[verifier::loop_isolation(false)]
pub fn nearest_enemy_cell_dist(s: &Scenario, pid: u32, from: Loc) -> (r: u64)
    requires
        scenario_wf(*s),
    ensures
        r as int == min_enemy_cell_dist(*s, pid, from),
        r as int <= dist_sentinel(*s),
{
    let total: u64 = grid_total(s);
    let sent: u64 = s.max_x as u64 + s.max_y as u64;
    let mut md: u64 = sent;
    let mut k: u64 = 0;
    while k < total
        invariant
            0 <= k <= total,
            md <= sent,
            md as int == min_enemy_cell_dist_upto(*s, pid, from, k as int),
        decreases total - k,
    {
        let l = scan_loc(s, k);
        let Loc::Loc(lx, ly) = l;
        let c = &s.grid[ly as usize][lx as usize];
        proof {
            assert(*c == cell_at(*s, k as int));
        }
        let is_enemy: bool = match c.controlled_by {
            Some(e) => e != pid,
            None => false,
        };
        if is_enemy {
            let d = manhattan_dist(from, l);
            if d < md {
                md = d;
            }
        }
        k += 1;
    }
    md
}

/// Some enemy unit could reach the coordinate and destroy a unit with the
/// given health on its next turn.
pub open spec fn threatened(s: Scenario, pid: u32, l: Loc, health: u32) -> bool {
    exists|i: int|
        0 <= i < s.units@.len() && (#[trigger] s.units@[i]).controlled_by != pid && manhattan(
            s.units@[i].loc,
            l,
        ) <= s.units@[i].range + s.units@[i].moves_left && s.units@[i].attack >= health
}

/// Checks whether an enemy unit threatens the coordinate.
#[verifier::loop_isolation(false)]
pub fn is_threatened(s: &Scenario, pid: u32, l: Loc, health: u32) -> (r: bool)
    ensures
        r == threatened(*s, pid, l, health),
{
    let mut i: usize = 0;
    while i < s.units.len()
        invariant
            0 <= i <= s.units@.len(),
            forall|j: int|
                0 <= j < i ==> !((#[trigger] s.units@[j]).controlled_by != pid && manhattan(
                    s.units@[j].loc,
                    l,
                ) <= s.units@[j].range + s.units@[j].moves_left && s.units@[j].attack >= health),
        decreases s.units@.len() - i,
    {
        let e = &s.units[i];
        if e.controlled_by != pid && manhattan_dist(e.loc, l) <= e.range as u64 + e.moves_left
            as u64 && e.attack >= health {
            return true;
        }
        i += 1;
    }
    false
}

/// Combat sub-score. An Attack is scored by the expected damage of the
/// attacker against the defender's remaining health and the cell's defense
/// bonus, normalized to the interval from 0 to 100. A Move is scored by
/// how much it closes the distance to the nearest enemy-controlled cell,
/// 25 per step, clamped to the interval from -100 to 100. Other actions
/// score 0.
pub open spec fn combat_sub(s: Scenario, pid: u32, a: Action) -> int {
    match a {
        Action::Attack(uid, target) => {
            let ui = unit_idx_by_id(s, uid);
            let di = unit_idx_at(s, target);
            if ui >= 0 && di >= 0 && in_bounds(s, target) {
                let u = s.units@[ui];
                let d = s.units@[di];
                let db = cell_of_loc(s, target).def_bonus;
                clamp_spec((u.attack as int * 100) / (d.health as int + db as int + 1), 0, 100)
            } else {
                0
            }
        },
        Action::Move(uid, dest) => {
            let ui = unit_idx_by_id(s, uid);
            if ui >= 0 {
                let d0 = min_enemy_cell_dist(s, pid, s.units@[ui].loc);
                let d1 = min_enemy_cell_dist(s, pid, dest);
                if d0 == dist_sentinel(s) {
                    0
                } else {
                    clamp_spec((d0 - d1) * 25, -100, 100)
                }
            } else {
                0
            }
        },
        _ => 0,
    }
}

/// Territory sub-score: a Move onto an enemy-controlled cell scores 100,
/// onto an uncontrolled cell 50, onto an own cell 0; other actions 0.
pub open spec fn territory_sub(s: Scenario, pid: u32, a: Action) -> int {
    match a {
        Action::Move(uid, dest) => if in_bounds(s, dest) {
            match cell_of_loc(s, dest).controlled_by {
                Some(e) => if e == pid {
                    0
                } else {
                    100
                },
                None => 50,
            }
        } else {
            0
        },
        _ => 0,
    }
}

/// Economy sub-score: a Move scores the destination's farm income (20 per
/// farm, capped at 100); Recruit and BuildStructure score the negated gold
/// cost; other actions 0.
pub open spec fn economy_sub(s: Scenario, pid: u32, a: Action) -> int {
    match a {
        Action::Move(uid, dest) => if in_bounds(s, dest) {
            clamp_spec(cell_of_loc(s, dest).farms as int * 20, 0, 100)
        } else {
            0
        },
        Action::Recruit(_, t) => -(unit_cost_spec(t) as int),
        Action::BuildStructure(_, _) => -(CITADEL_COST as int),
        _ => 0,
    }
}

/// Safety sub-score: a Move to a coordinate an enemy unit could reach and
/// destroy the mover on scores -100; everything else 0. Its weighted
/// contribution is therefore never positive.
pub open spec fn safety_sub(s: Scenario, pid: u32, a: Action) -> int {
    match a {
        Action::Move(uid, dest) => {
            let ui = unit_idx_by_id(s, uid);
            if ui >= 0 && threatened(s, pid, dest, s.units@[ui].health) {
                -100
            } else {
                0
            }
        },
        _ => 0,
    }
}

/// Expansion sub-score: Recruit scores 100, BuildStructure 80, others 0.
pub open spec fn expansion_sub(a: Action) -> int {
    match a {
        Action::Recruit(_, _) => 100,
        Action::BuildStructure(_, _) => 80,
        _ => 0,
    }
}

/// The utility of a candidate under a weight configuration: the weighted
/// sum of the five normalized sub-scores.
pub open spec fn score_spec(s: Scenario, pid: u32, w: Weights, a: Action) -> int {
    w.aggression as int * combat_sub(s, pid, a) + w.territory as int * territory_sub(s, pid, a)
        + w.economy as int * economy_sub(s, pid, a) + w.risk_aversion as int * safety_sub(
        s,
        pid,
        a,
    ) + w.expansion as int * expansion_sub(a)
}

/// Multiplies a weight coefficient with a normalized sub-score.
fn weighted(c: u32, sub: i64) -> (r: i64)
    requires
        -100 <= sub <= 100,
    ensures
        r as int == c as int * sub as int,
        -429496729500 <= r <= 429496729500,
{
    proof {
        assert(c as int * sub as int <= 429496729500int && c as int * sub as int
            >= -429496729500int) by (nonlinear_arith)
            requires
                0 <= c as int <= 4294967295int,
                -100 <= sub as int <= 100,
        ;
    }
    (c as i64) * sub
}

/// Computes the combat sub-score of a candidate.
fn combat_score(s: &Scenario, pid: u32, a: Action) -> (r: i64)
    requires
        scenario_wf(*s),
    ensures
        r as int == combat_sub(*s, pid, a),
        -100 <= r <= 100,
{
    match a {
        Action::Attack(uid, target) => {
            let ui = match find_unit_by_id(s, uid) {
                Some(i) => i,
                None => {
                    return 0;
                },
            };
            let di = match find_unit_at(s, target) {
                Some(i) => i,
                None => {
                    return 0;
                },
            };
            proof {
                lemma_unit_idx_by_id_at(*s, uid, ui as int);
                lemma_unit_idx_at_loc(*s, target, di as int);
            }
            let Loc::Loc(tx, ty) = target;
            if tx >= s.max_x || ty >= s.max_y {
                return 0;
            }
            let db = s.grid[ty as usize][tx as usize].def_bonus;
            let attack = s.units[ui].attack;
            let health = s.units[di].health;
            let q: u64 = (attack as u64 * 100) / (health as u64 + db as u64 + 1);
            if q > 100 {
                100
            } else {
                q as i64
            }
        },
        Action::Move(uid, dest) => {
            let ui = match find_unit_by_id(s, uid) {
                Some(i) => i,
                None => {
                    return 0;
                },
            };
            proof {
                lemma_unit_idx_by_id_at(*s, uid, ui as int);
            }
            let d0 = nearest_enemy_cell_dist(s, pid, s.units[ui].loc);
            let d1 = nearest_enemy_cell_dist(s, pid, dest);
            let sent: u64 = s.max_x as u64 + s.max_y as u64;
            if d0 == sent {
                0
            } else {
                let diff: i64 = (d0 as i64 - d1 as i64) * 25;
                if diff < -100 {
                    -100
                } else if diff > 100 {
                    100
                } else {
                    diff
                }
            }
        },
        _ => 0,
    }
}

/// Computes the territory sub-score of a candidate.
fn territory_score(s: &Scenario, pid: u32, a: Action) -> (r: i64)
    requires
        scenario_wf(*s),
    ensures
        r as int == territory_sub(*s, pid, a),
        -100 <= r <= 100,
{
    match a {
        Action::Move(_, dest) => {
            let Loc::Loc(dx, dy) = dest;
            if dx >= s.max_x || dy >= s.max_y {
                return 0;
            }
            match s.grid[dy as usize][dx as usize].controlled_by {
                Some(e) => if e == pid {
                    0
                } else {
                    100
                },
                None => 50,
            }
        },
        _ => 0,
    }
}

/// Computes the economy sub-score of a candidate.
fn economy_score(s: &Scenario, pid: u32, a: Action) -> (r: i64)
    requires
        scenario_wf(*s),
    ensures
        r as int == economy_sub(*s, pid, a),
        -100 <= r <= 100,
{
    match a {
        Action::Move(_, dest) => {
            let Loc::Loc(dx, dy) = dest;
            if dx >= s.max_x || dy >= s.max_y {
                return 0;
            }
            let farms = s.grid[dy as usize][dx as usize].farms;
            if farms >= 5 {
                100
            } else {
                (farms as i64) * 20
            }
        },
        Action::Recruit(_, t) => -(crate::movegen::unit_cost(t) as i64),
        Action::BuildStructure(_, _) => -(CITADEL_COST as i64),
        _ => 0,
    }
}

/// Computes the safety sub-score of a candidate.
fn safety_score(s: &Scenario, pid: u32, a: Action) -> (r: i64)
    requires
        scenario_wf(*s),
    ensures
        r as int == safety_sub(*s, pid, a),
        -100 <= r <= 0,
{
    match a {
        Action::Move(uid, dest) => {
            let ui = match find_unit_by_id(s, uid) {
                Some(i) => i,
                None => {
                    return 0;
                },
            };
            proof {
                lemma_unit_idx_by_id_at(*s, uid, ui as int);
            }
            if is_threatened(s, pid, dest, s.units[ui].health) {
                -100
            } else {
                0
            }
        },
        _ => 0,
    }
}

/// Computes the expansion sub-score of a candidate.
fn expansion_score(a: Action) -> (r: i64)
    ensures
        r as int == expansion_sub(a),
        0 <= r <= 100,
{
    match a {
        Action::Recruit(_, _) => 100,
        Action::BuildStructure(_, _) => 80,
        _ => 0,
    }
}

/// Scores a candidate action under a weight configuration: exactly
/// [`score_spec`], a pure function of its arguments, so identical inputs
/// always yield the identical score.
pub fn score_action(s: &Scenario, pid: u32, w: Weights, a: Action) -> (r: i64)
    requires
        scenario_wf(*s),
    ensures
        r as int == score_spec(*s, pid, w, a),
{
    let t1 = weighted(w.aggression, combat_score(s, pid, a));
    let t2 = weighted(w.territory, territory_score(s, pid, a));
    let t3 = weighted(w.economy, economy_score(s, pid, a));
    let t4 = weighted(w.risk_aversion, safety_score(s, pid, a));
    let t5 = weighted(w.expansion, expansion_score(a));
    t1 + t2 + t3 + t4 + t5
}

} // verus!
