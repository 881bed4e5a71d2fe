//! Candidate generation: enumerates every legal candidate action of the
//! active player in a fixed deterministic order.
//!
//! The order is: units in ascending id order, for each unit its Move
//! candidates and then its Attack candidates, each scanned over the grid in
//! ascending coordinate order (y major, then x); then, per controlled cell
//! carrying a Town or Citadel in the same grid order, Recruit candidates in
//! a fixed kind order followed by the BuildStructure upgrade; and finally
//! the unconditional EndTurn fallback.
//!
//! [`gen_spec`] is the mathematical definition of that sequence;
//! [`generate_moves`] is proved to return exactly it.

use vstd::prelude::*;
use vstd::arithmetic::div_mod::lemma_multiply_divide_lt;
use vstd::arithmetic::mul::lemma_mul_by_zero_is_zero;
use vstd::arithmetic::mul::lemma_mul_upper_bound;

use crate::model::Action;
use crate::model::Cell;
use crate::model::Loc;
use crate::model::Scenario;
use crate::model::Structure;
use crate::model::Unit;
use crate::model::UnitType;
use crate::model::manhattan;
use crate::model::manhattan_dist;
use crate::validate::find_player_index;
use crate::validate::has_player;
use crate::validate::player_ids_unique;
use crate::validate::scenario_wf;

verus! {

/// Gold needed to upgrade a Town into a Citadel.
pub const CITADEL_COST: u32 = 75;

/// Gold needed to recruit one unit of the given kind.
pub open spec fn unit_cost_spec(t: UnitType) -> u32 {
    match t {
        UnitType::Soldier => 10,
        UnitType::Warrior => 20,
        UnitType::Archer => 25,
        UnitType::Knight => 40,
        UnitType::Rogue => 30,
        UnitType::Wizard => 50,
        UnitType::Priest => 35,
    }
}

/// Returns the recruiting cost of a unit kind.
pub fn unit_cost(t: UnitType) -> (c: u32)
    ensures
        c == unit_cost_spec(t),
{
    match t {
        UnitType::Soldier => 10,
        UnitType::Warrior => 20,
        UnitType::Archer => 25,
        UnitType::Knight => 40,
        UnitType::Rogue => 30,
        UnitType::Wizard => 50,
        UnitType::Priest => 35,
    }
}

/// The fixed kind order in which Recruit candidates are generated.
pub open spec fn unit_type_of_index(j: int) -> UnitType {
    if j == 0 {
        UnitType::Soldier
    } else if j == 1 {
        UnitType::Warrior
    } else if j == 2 {
        UnitType::Archer
    } else if j == 3 {
        UnitType::Knight
    } else if j == 4 {
        UnitType::Rogue
    } else if j == 5 {
        UnitType::Wizard
    } else {
        UnitType::Priest
    }
}

/// Returns the `j`-th unit kind of the fixed recruiting order.
pub fn unit_type_by_index(j: usize) -> (t: UnitType)
    requires
        j < 7,
    ensures
        t == unit_type_of_index(j as int),
{
    if j == 0 {
        UnitType::Soldier
    } else if j == 1 {
        UnitType::Warrior
    } else if j == 2 {
        UnitType::Archer
    } else if j == 3 {
        UnitType::Knight
    } else if j == 4 {
        UnitType::Rogue
    } else if j == 5 {
        UnitType::Wizard
    } else {
        UnitType::Priest
    }
}

/// The coordinate of the `k`-th cell of the grid scan (y major, x minor).
pub open spec fn loc_of(s: Scenario, k: int) -> Loc {
    Loc::Loc((k % (s.max_x as int)) as u32, (k / (s.max_x as int)) as u32)
}

/// The cell at the `k`-th scan position.
pub open spec fn cell_at(s: Scenario, k: int) -> Cell {
    s.grid@[k / (s.max_x as int)]@[k % (s.max_x as int)]
}

/// Some unit stands on the coordinate.
pub open spec fn occupied(s: Scenario, l: Loc) -> bool {
    exists|i: int| 0 <= i < s.units@.len() && (#[trigger] s.units@[i]).loc == l
}

/// Some unit of another player stands on the coordinate.
pub open spec fn enemy_unit_at(s: Scenario, pid: u32, l: Loc) -> bool {
    exists|i: int|
        0 <= i < s.units@.len() && (#[trigger] s.units@[i]).loc == l && s.units@[i].controlled_by
            != pid
}

/// Gold held by the player with the given id (zero when absent).
pub open spec fn player_gold(s: Scenario, pid: u32) -> u32 {
    if has_player(s.players@, pid) {
        let i = choose|i: int| 0 <= i < s.players@.len() && (#[trigger] s.players@[i]).id == pid;
        s.players@[i].resources.gold
    } else {
        0
    }
}

/// With unique player ids, the gold of the player found at any matching
/// index is the gold `player_gold` denotes.
pub proof fn lemma_player_gold_at(s: Scenario, pid: u32, i: int)
    requires
        player_ids_unique(s.players@),
        0 <= i < s.players@.len(),
        s.players@[i].id == pid,
    ensures
        player_gold(s, pid) == s.players@[i].resources.gold,
{
    assert(has_player(s.players@, pid));
    let j = choose|j: int| 0 <= j < s.players@.len() && (#[trigger] s.players@[j]).id == pid;
    if i < j {
        assert(s.players@[i].id != s.players@[j].id);
    } else if j < i {
        assert(s.players@[j].id != s.players@[i].id);
    }
}

/// A Move of unit `u` to the `k`-th cell is legal: the unit has movement
/// budget, the destination is unoccupied and within Manhattan range of the
/// budget.
pub open spec fn move_ok(s: Scenario, u: Unit, k: int) -> bool {
    let l = loc_of(s, k);
    &&& u.moves_left > 0
    &&& !occupied(s, l)
    &&& manhattan(u.loc, l) <= u.moves_left
}

/// The Move candidates of unit `u` over the first `k` scan positions.
pub open spec fn move_actions_upto(s: Scenario, u: Unit, k: int) -> Seq<Action>
    decreases k,
{
    if k <= 0 {
        Seq::empty()
    } else if move_ok(s, u, k - 1) {
        move_actions_upto(s, u, k - 1).push(Action::Move(u.id, loc_of(s, k - 1)))
    } else {
        move_actions_upto(s, u, k - 1)
    }
}

/// An Attack by unit `u` on the `k`-th cell is legal: the unit has movement
/// budget and an enemy unit stands there within its attack range.
pub open spec fn attack_ok(s: Scenario, pid: u32, u: Unit, k: int) -> bool {
    let l = loc_of(s, k);
    &&& u.moves_left > 0
    &&& enemy_unit_at(s, pid, l)
    &&& manhattan(u.loc, l) <= u.range
}

/// The Attack candidates of unit `u` over the first `k` scan positions.
pub open spec fn attack_actions_upto(s: Scenario, pid: u32, u: Unit, k: int) -> Seq<Action>
    decreases k,
{
    if k <= 0 {
        Seq::empty()
    } else if attack_ok(s, pid, u, k - 1) {
        attack_actions_upto(s, pid, u, k - 1).push(Action::Attack(u.id, loc_of(s, k - 1)))
    } else {
        attack_actions_upto(s, pid, u, k - 1)
    }
}

/// All candidates of one unit: its Moves, then its Attacks.
pub open spec fn unit_actions(s: Scenario, pid: u32, u: Unit) -> Seq<Action> {
    move_actions_upto(s, u, s.max_x as int * s.max_y as int) + attack_actions_upto(
        s,
        pid,
        u,
        s.max_x as int * s.max_y as int,
    )
}

/// Inserts unit index `i` into an id-sorted index sequence, keeping ids
/// ascending; an id tie places the new index after the old ones.
pub open spec fn insert_sorted(ord: Seq<usize>, units: Seq<Unit>, i: usize) -> Seq<usize>
    decreases ord.len(),
{
    if ord.len() == 0 {
        seq![i]
    } else if units[i as int].id < units[ord[0] as int].id {
        seq![i] + ord
    } else {
        seq![ord[0]] + insert_sorted(ord.drop_first(), units, i)
    }
}

/// The id-sorted sequence of indices of the player's units among the first
/// `n` list entries.
pub open spec fn owned_order_upto(units: Seq<Unit>, pid: u32, n: int) -> Seq<usize>
    decreases n,
{
    if n <= 0 {
        Seq::empty()
    } else {
        let prev = owned_order_upto(units, pid, n - 1);
        if units[n - 1].controlled_by == pid {
            insert_sorted(prev, units, (n - 1) as usize)
        } else {
            prev
        }
    }
}

/// The id-sorted sequence of indices of all units of the player.
pub open spec fn owned_order(units: Seq<Unit>, pid: u32) -> Seq<usize> {
    owned_order_upto(units, pid, units.len() as int)
}

/// The candidates of the first `j` units of the given generation order.
pub open spec fn actions_over_order(s: Scenario, pid: u32, ord: Seq<usize>, j: int) -> Seq<Action>
    decreases j,
{
    if j <= 0 {
        Seq::empty()
    } else {
        actions_over_order(s, pid, ord, j - 1) + unit_actions(s, pid, s.units@[ord[j - 1] as int])
    }
}

/// The `k`-th cell is a recruiting site of the player: controlled by the
/// player and carrying a Town or Citadel.
pub open spec fn recruit_site(s: Scenario, pid: u32, k: int) -> bool {
    let c = cell_at(s, k);
    &&& c.controlled_by == Some(pid)
    &&& (c.structure == Structure::Town || c.structure == Structure::Citadel)
}

/// The Recruit candidates of the `k`-th cell over the first `j` unit kinds,
/// each bounded by the player's gold.
pub open spec fn recruit_actions_upto(s: Scenario, pid: u32, gold: u32, k: int, j: int) -> Seq<
    Action,
>
    decreases j,
{
    if j <= 0 {
        Seq::empty()
    } else if recruit_site(s, pid, k) && unit_cost_spec(unit_type_of_index(j - 1)) <= gold {
        recruit_actions_upto(s, pid, gold, k, j - 1).push(
            Action::Recruit(loc_of(s, k), unit_type_of_index(j - 1)),
        )
    } else {
        recruit_actions_upto(s, pid, gold, k, j - 1)
    }
}

/// The structure upgrade of the `k`-th cell is available: the cell is a
/// controlled Town (the next tier is a Citadel) and gold suffices.
pub open spec fn build_ok(s: Scenario, pid: u32, gold: u32, k: int) -> bool {
    let c = cell_at(s, k);
    &&& c.controlled_by == Some(pid)
    &&& c.structure == Structure::Town
    &&& CITADEL_COST <= gold
}

/// All candidates of the `k`-th cell: its Recruits, then its upgrade.
pub open spec fn cell_actions_at(s: Scenario, pid: u32, gold: u32, k: int) -> Seq<Action> {
    recruit_actions_upto(s, pid, gold, k, 7) + (if build_ok(s, pid, gold, k) {
        seq![Action::BuildStructure(loc_of(s, k), Structure::Citadel)]
    } else {
        Seq::empty()
    })
}

/// The cell candidates over the first `k` scan positions.
pub open spec fn cell_actions_upto(s: Scenario, pid: u32, gold: u32, k: int) -> Seq<Action>
    decreases k,
{
    if k <= 0 {
        Seq::empty()
    } else {
        cell_actions_upto(s, pid, gold, k - 1) + cell_actions_at(s, pid, gold, k - 1)
    }
}

/// The full candidate sequence of the active player: every unit's actions
/// in ascending unit id order, every controlled structure cell's actions in
/// grid order, and the EndTurn fallback last.
pub open spec fn gen_spec(s: Scenario, pid: u32) -> Seq<Action> {
    actions_over_order(s, pid, owned_order(s.units@, pid), owned_order(s.units@, pid).len() as int)
        + cell_actions_upto(s, pid, player_gold(s, pid), s.max_x as int * s.max_y as int) + seq![
        Action::EndTurn,
    ]
}

/// The generated candidate sequence is never empty and always offers the
/// EndTurn fallback, whatever the snapshot holds.
pub proof fn lemma_gen_nonempty(s: Scenario, pid: u32)
    ensures
        gen_spec(s, pid).len() > 0,
        gen_spec(s, pid).last() == Action::EndTurn,
        gen_spec(s, pid).contains(Action::EndTurn),
{
    let g = gen_spec(s, pid);
    assert(g[g.len() - 1] == Action::EndTurn);
}

/// The listed indices carry ascending unit ids.
pub open spec fn ids_ascending(ord: Seq<usize>, units: Seq<Unit>) -> bool {
    forall|a: int, b: int|
        0 <= a < b < ord.len() ==> units[(#[trigger] ord[a]) as int].id <= units[(
        #[trigger] ord[b]) as int].id
}

/// Inserting an index adds exactly that index to the members of the order.
pub proof fn lemma_insert_sorted_elems(ord: Seq<usize>, units: Seq<Unit>, i: usize)
    ensures
        forall|q: int|
            0 <= q < insert_sorted(ord, units, i).len() ==> (insert_sorted(ord, units, i)[q] == i
                || ord.contains(#[trigger] insert_sorted(ord, units, i)[q])),
        insert_sorted(ord, units, i).len() == ord.len() + 1,
    decreases ord.len(),
{
    if ord.len() == 0 {
    } else if units[i as int].id < units[ord[0] as int].id {
    } else {
        lemma_insert_sorted_elems(ord.drop_first(), units, i);
        assert forall|q: int| 0 <= q < insert_sorted(ord, units, i).len() implies (insert_sorted(
            ord,
            units,
            i,
        )[q] == i || ord.contains(#[trigger] insert_sorted(ord, units, i)[q])) by {
            let res = insert_sorted(ord, units, i);
            if q == 0 {
                assert(res[0] == ord[0]);
                assert(ord.contains(ord[0]));
            } else {
                let tailres = insert_sorted(ord.drop_first(), units, i);
                assert(res[q] == tailres[q - 1]);
                if tailres[q - 1] != i {
                    let w = choose|w: int|
                        0 <= w < ord.drop_first().len() && ord.drop_first()[w] == tailres[q - 1];
                    assert(ord[w + 1] == tailres[q - 1]);
                }
            }
        }
    }
}

/// Inserting keeps every old member and adds the new index.
pub proof fn lemma_insert_sorted_members(ord: Seq<usize>, units: Seq<Unit>, i: usize)
    ensures
        insert_sorted(ord, units, i).contains(i),
        forall|x: usize| ord.contains(x) ==> insert_sorted(ord, units, i).contains(x),
    decreases ord.len(),
{
    let res = insert_sorted(ord, units, i);
    if ord.len() == 0 {
        assert(res[0] == i);
    } else if units[i as int].id < units[ord[0] as int].id {
        assert(res[0] == i);
        assert forall|x: usize| ord.contains(x) implies res.contains(x) by {
            let w = choose|w: int| 0 <= w < ord.len() && ord[w] == x;
            assert(res[w + 1] == x);
        }
    } else {
        lemma_insert_sorted_members(ord.drop_first(), units, i);
        let tailres = insert_sorted(ord.drop_first(), units, i);
        let wi = choose|w: int| 0 <= w < tailres.len() && tailres[w] == i;
        assert(res[wi + 1] == i);
        assert forall|x: usize| ord.contains(x) implies res.contains(x) by {
            let w = choose|w: int| 0 <= w < ord.len() && ord[w] == x;
            if w == 0 {
                assert(res[0] == x);
            } else {
                assert(ord.drop_first()[w - 1] == x);
                assert(ord.drop_first().contains(x));
                let wt = choose|wt: int| 0 <= wt < tailres.len() && tailres[wt] == x;
                assert(res[wt + 1] == x);
            }
        }
    }
}

/// Inserting into an id-ascending order keeps the ids ascending.
pub proof fn lemma_insert_sorted_sorted(ord: Seq<usize>, units: Seq<Unit>, i: usize)
    requires
        ids_ascending(ord, units),
    ensures
        ids_ascending(insert_sorted(ord, units, i), units),
    decreases ord.len(),
{
    let res = insert_sorted(ord, units, i);
    if ord.len() == 0 {
    } else if units[i as int].id < units[ord[0] as int].id {
        assert forall|a: int, b: int|
            0 <= a < b < res.len() implies units[(#[trigger] res[a]) as int].id <= units[(
        #[trigger] res[b]) as int].id by {
            if a == 0 {
                assert(res[b] == ord[b - 1]);
                if b > 1 {
                    assert(units[ord[0] as int].id <= units[ord[b - 1] as int].id);
                }
            } else {
                assert(res[a] == ord[a - 1] && res[b] == ord[b - 1]);
            }
        }
    } else {
        let tail = ord.drop_first();
        assert forall|a: int, b: int|
            0 <= a < b < tail.len() implies units[(#[trigger] tail[a]) as int].id <= units[(
        #[trigger] tail[b]) as int].id by {
            assert(tail[a] == ord[a + 1] && tail[b] == ord[b + 1]);
        }
        lemma_insert_sorted_sorted(tail, units, i);
        lemma_insert_sorted_elems(tail, units, i);
        let tailres = insert_sorted(tail, units, i);
        assert forall|a: int, b: int|
            0 <= a < b < res.len() implies units[(#[trigger] res[a]) as int].id <= units[(
        #[trigger] res[b]) as int].id by {
            if a == 0 {
                assert(res[b] == tailres[b - 1]);
                if tailres[b - 1] == i {
                    assert(units[ord[0] as int].id <= units[i as int].id);
                } else {
                    assert(tail.contains(tailres[b - 1]));
                    let w = choose|w: int| 0 <= w < tail.len() && tail[w] == tailres[b - 1];
                    assert(tail[w] == ord[w + 1]);
                    assert(units[ord[0] as int].id <= units[ord[w + 1] as int].id);
                }
            } else {
                assert(res[a] == tailres[a - 1] && res[b] == tailres[b - 1]);
            }
        }
    }
}

/// The generation order lists the player's units in ascending id order.
pub proof fn lemma_owned_order_sorted(units: Seq<Unit>, pid: u32, n: int)
    requires
        0 <= n <= units.len(),
    ensures
        ids_ascending(owned_order_upto(units, pid, n), units),
    decreases n,
{
    if n > 0 {
        lemma_owned_order_sorted(units, pid, n - 1);
        if units[n - 1].controlled_by == pid {
            lemma_insert_sorted_sorted(owned_order_upto(units, pid, n - 1), units, (n - 1) as usize);
        }
    }
}

/// The generation order is complete: every unit of the player appears.
pub proof fn lemma_owned_order_complete(units: Seq<Unit>, pid: u32, n: int)
    requires
        0 <= n <= units.len(),
        n <= usize::MAX,
    ensures
        forall|i: int|
            0 <= i < n && units[i].controlled_by == pid ==> owned_order_upto(
                units,
                pid,
                n,
            ).contains(i as usize),
    decreases n,
{
    if n > 0 {
        lemma_owned_order_complete(units, pid, n - 1);
        let prev = owned_order_upto(units, pid, n - 1);
        let cur = owned_order_upto(units, pid, n);
        if units[n - 1].controlled_by == pid {
            lemma_insert_sorted_members(prev, units, (n - 1) as usize);
            assert forall|i: int| 0 <= i < n && units[i].controlled_by == pid implies cur.contains(
                i as usize,
            ) by {
                if i < n - 1 {
                    assert(prev.contains(i as usize));
                }
            }
        }
    }
}

/// Every member of the generation order is a valid index of a unit the
/// player controls.
pub proof fn lemma_owned_order_elems(units: Seq<Unit>, pid: u32, n: int)
    requires
        0 <= n <= units.len(),
        n <= usize::MAX,
    ensures
        forall|q: int|
            0 <= q < owned_order_upto(units, pid, n).len() ==> (
            #[trigger] owned_order_upto(units, pid, n)[q]) < n && units[owned_order_upto(
                units,
                pid,
                n,
            )[q] as int].controlled_by == pid,
    decreases n,
{
    if n > 0 {
        lemma_owned_order_elems(units, pid, n - 1);
        let prev = owned_order_upto(units, pid, n - 1);
        let cur = owned_order_upto(units, pid, n);
        if units[n - 1].controlled_by == pid {
            assert(cur == insert_sorted(prev, units, (n - 1) as usize));
            lemma_insert_sorted_elems(prev, units, (n - 1) as usize);
            assert forall|q: int| 0 <= q < cur.len() implies (#[trigger] cur[q]) < n
                && units[cur[q] as int].controlled_by == pid by {
                assert(cur[q] == insert_sorted(prev, units, (n - 1) as usize)[q]);
                if cur[q] != (n - 1) as usize {
                    assert(prev.contains(cur[q]));
                    let w = choose|w: int| 0 <= w < prev.len() && prev[w] == cur[q];
                    assert(prev[w] < n - 1 && units[prev[w] as int].controlled_by == pid);
                }
            }
        }
    }
}

/// Inserting at the position the insertion scan finds matches the
/// recursive definition of the sorted insert.
proof fn lemma_insert_sorted_at(ord: Seq<usize>, units: Seq<Unit>, i: usize, p: int)
    requires
        0 <= p <= ord.len(),
        forall|q: int| 0 <= q < p ==> !(units[i as int].id < units[(#[trigger] ord[q]) as int].id),
        p < ord.len() ==> units[i as int].id < units[ord[p] as int].id,
    ensures
        insert_sorted(ord, units, i) == ord.insert(p, i),
    decreases ord.len(),
{
    if ord.len() == 0 {
        assert(insert_sorted(ord, units, i) =~= ord.insert(p, i));
    } else if p == 0 {
        assert(insert_sorted(ord, units, i) =~= ord.insert(p, i));
    } else {
        assert(!(units[i as int].id < units[ord[0] as int].id));
        assert forall|q: int|
            0 <= q < p - 1 implies !(units[i as int].id < units[(#[trigger] ord.drop_first()[q])
            as int].id) by {
            assert(ord.drop_first()[q] == ord[q + 1]);
        }
        lemma_insert_sorted_at(ord.drop_first(), units, i, p - 1);
        assert(insert_sorted(ord, units, i) =~= ord.insert(p, i));
    }
}

/// Whether any unit stands on the coordinate.
#[verifier::loop_isolation(false)]
fn occupied_at(s: &Scenario, l: Loc) -> (r: bool)
    ensures
        r == occupied(*s, l),
{
    let mut t: usize = 0;
    while t < s.units.len()
        invariant
            0 <= t <= s.units@.len(),
            forall|i: int| 0 <= i < t ==> (#[trigger] s.units@[i]).loc != l,
        decreases s.units@.len() - t,
    {
        if s.units[t].loc == l {
            return true;
        }
        t += 1;
    }
    false
}

/// Whether a unit of another player stands on the coordinate.
#[verifier::loop_isolation(false)]
fn enemy_at(s: &Scenario, pid: u32, l: Loc) -> (r: bool)
    ensures
        r == enemy_unit_at(*s, pid, l),
{
    let mut t: usize = 0;
    while t < s.units.len()
        invariant
            0 <= t <= s.units@.len(),
            forall|i: int|
                0 <= i < t ==> !((#[trigger] s.units@[i]).loc == l && s.units@[i].controlled_by
                    != pid),
        decreases s.units@.len() - t,
    {
        if s.units[t].loc == l && s.units[t].controlled_by != pid {
            return true;
        }
        t += 1;
    }
    false
}

/// Builds the id-sorted index order of the player's units.
#[verifier::loop_isolation(false)]
fn owned_sorted_indices(s: &Scenario, pid: u32) -> (v: Vec<usize>)
    ensures
        v@ == owned_order(s.units@, pid),
{
    let mut v: Vec<usize> = Vec::new();
    let mut i: usize = 0;
    while i < s.units.len()
        invariant
            0 <= i <= s.units@.len(),
            v@ == owned_order_upto(s.units@, pid, i as int),
        decreases s.units@.len() - i,
    {
        proof {
            lemma_owned_order_elems(s.units@, pid, i as int);
        }
        if s.units[i].controlled_by == pid {
            let mut p: usize = 0;
            while p < v.len() && s.units[v[p]].id <= s.units[i].id
                invariant
                    0 <= p <= v@.len(),
                    forall|q: int|
                        0 <= q < p ==> !(s.units@[i as int].id < s.units@[(#[trigger] v@[q])
                            as int].id),
                decreases v@.len() - p,
            {
                p += 1;
            }
            proof {
                lemma_insert_sorted_at(v@, s.units@, i, p as int);
            }
            v.insert(p, i);
        }
        i += 1;
    }
    v
}

/// Computes the number of grid cells, `max_x * max_y`.
pub(crate) fn grid_total(s: &Scenario) -> (t: u64)
    ensures
        t as int == (s.max_x as int) * (s.max_y as int),
{
    proof {
        lemma_mul_upper_bound(s.max_x as int, 0xffff_ffffint, s.max_y as int, 0xffff_ffffint);
    }
    (s.max_x as u64) * (s.max_y as u64)
}

/// Computes the coordinate of the `k`-th grid scan position.
pub(crate) fn scan_loc(s: &Scenario, k: u64) -> (l: Loc)
    requires
        (k as int) < (s.max_x as int) * (s.max_y as int),
    ensures
        l == loc_of(*s, k as int),
        l.x() < s.max_x,
        l.y() < s.max_y,
        l.x() as int == (k as int) % (s.max_x as int),
        l.y() as int == (k as int) / (s.max_x as int),
{
    proof {
        if s.max_x == 0 {
            lemma_mul_by_zero_is_zero(s.max_y as int);
        }
    }
    let w: u64 = s.max_x as u64;
    let x: u64 = k % w;
    let y: u64 = k / w;
    proof {
        lemma_multiply_divide_lt(k as int, w as int, s.max_y as int);
    }
    Loc::Loc(x as u32, y as u32)
}

/// Appends the Move and Attack candidates of the unit at index `ui`.
#[verifier::loop_isolation(false)]
fn push_unit_actions(out: &mut Vec<Action>, s: &Scenario, pid: u32, ui: usize)
    requires
        ui < s.units@.len(),
    ensures
        final(out)@ == old(out)@ + unit_actions(*s, pid, s.units@[ui as int]),
{
    let total: u64 = grid_total(s);
    let mut k: u64 = 0;
    while k < total
        invariant
            0 <= k <= total,
            out@ == old(out)@ + move_actions_upto(*s, s.units@[ui as int], k as int),
        decreases total - k,
    {
        let l = scan_loc(s, k);
        let u = &s.units[ui];
        if u.moves_left > 0 && !occupied_at(s, l) && manhattan_dist(u.loc, l) <= u.moves_left
            as u64 {
            out.push(Action::Move(u.id, l));
        }
        k += 1;
    }
    let mut k2: u64 = 0;
    while k2 < total
        invariant
            0 <= k2 <= total,
            out@ == old(out)@ + move_actions_upto(*s, s.units@[ui as int], total as int)
                + attack_actions_upto(*s, pid, s.units@[ui as int], k2 as int),
        decreases total - k2,
    {
        let l = scan_loc(s, k2);
        let u = &s.units[ui];
        if u.moves_left > 0 && enemy_at(s, pid, l) && manhattan_dist(u.loc, l) <= u.range as u64 {
            out.push(Action::Attack(u.id, l));
        }
        k2 += 1;
    }
}

/// Appends the Recruit and BuildStructure candidates of every controlled
/// structure cell, in grid order.
#[verifier::loop_isolation(false)]
fn push_cell_actions(out: &mut Vec<Action>, s: &Scenario, pid: u32, gold: u32)
    requires
        scenario_wf(*s),
    ensures
        final(out)@ == old(out)@ + cell_actions_upto(
            *s,
            pid,
            gold,
            (s.max_x as int) * (s.max_y as int),
        ),
{
    let total: u64 = grid_total(s);
    let mut k: u64 = 0;
    while k < total
        invariant
            0 <= k <= total,
            out@ == old(out)@ + cell_actions_upto(*s, pid, gold, k as int),
        decreases total - k,
    {
        let l = scan_loc(s, k);
        let Loc::Loc(lx, ly) = l;
        let c = &s.grid[ly as usize][lx as usize];
        proof {
            assert(*c == cell_at(*s, k as int));
        }
        let controlled: bool = match c.controlled_by {
            Some(p) => p == pid,
            None => false,
        };
        let site: bool = controlled && (c.structure == Structure::Town || c.structure
            == Structure::Citadel);
        let mut j: usize = 0;
        while j < 7
            invariant
                0 <= j <= 7,
                out@ == old(out)@ + cell_actions_upto(*s, pid, gold, k as int)
                    + recruit_actions_upto(*s, pid, gold, k as int, j as int),
            decreases 7 - j,
        {
            let t = unit_type_by_index(j);
            if site && unit_cost(t) <= gold {
                out.push(Action::Recruit(l, t));
            }
            j += 1;
        }
        if controlled && c.structure == Structure::Town && CITADEL_COST <= gold {
            out.push(Action::BuildStructure(l, Structure::Citadel));
        }
        proof {
            assert(out@ =~= old(out)@ + cell_actions_upto(*s, pid, gold, k as int)
                + cell_actions_at(*s, pid, gold, k as int));
            assert(out@ =~= old(out)@ + cell_actions_upto(*s, pid, gold, k as int + 1));
        }
        k += 1;
    }
}

/// Enumerates every candidate action of the given player over the
/// snapshot, in the fixed deterministic generation order; the result is
/// exactly [`gen_spec`], is never empty, and always ends with the EndTurn
/// fallback.
#[verifier::loop_isolation(false)]
pub fn generate_moves(s: &Scenario, pid: u32) -> (r: Vec<Action>)
    requires
        scenario_wf(*s),
    ensures
        r@ == gen_spec(*s, pid),
        r@.len() > 0,
        r@.last() == Action::EndTurn,
        r@.contains(Action::EndTurn),
{
    let gold: u32 = match find_player_index(&s.players, pid) {
        Some(i) => {
            proof {
                lemma_player_gold_at(*s, pid, i as int);
            }
            s.players[i].resources.gold
        },
        None => 0,
    };
    let ord = owned_sorted_indices(s, pid);
    let n_units: usize = s.units.len();
    proof {
        lemma_owned_order_elems(s.units@, pid, n_units as int);
    }
    let mut out: Vec<Action> = Vec::new();
    let mut j: usize = 0;
    while j < ord.len()
        invariant
            0 <= j <= ord@.len(),
            out@ == actions_over_order(*s, pid, ord@, j as int),
        decreases ord@.len() - j,
    {
        push_unit_actions(&mut out, s, pid, ord[j]);
        j += 1;
    }
    push_cell_actions(&mut out, s, pid, gold);
    out.push(Action::EndTurn);
    proof {
        assert(out@ =~= gen_spec(*s, pid));
        lemma_gen_nonempty(*s, pid);
    }
    out
}

} // verus!
