//! The decision engine: generates the candidate actions of the active
//! player, scores each under the player's behavioral profile, and selects
//! the best-scoring one, ties broken by generation order (first-generated
//! wins).
//!
//! The engine is stateless: one snapshot in, one action out, nothing kept
//! between invocations. [`decide_spec`] pins the decision down as a
//! mathematical function of the snapshot alone, which is what makes the
//! engine deterministic and replay-safe.

use vstd::prelude::*;

use crate::evaluator::combat_sub;
use crate::evaluator::score_action;
use crate::evaluator::score_spec;
use crate::model::Action;
use crate::model::AnalyzerError;
use crate::model::Game;
use crate::model::Player;
use crate::model::Scenario;
use crate::model::Weights;
use crate::movegen::gen_spec;
use crate::movegen::generate_moves;
use crate::movegen::lemma_gen_nonempty;
use crate::profile::weights_of_mode;
use crate::profile::weights_of_mode_spec;
use crate::validate::game_wf;
use crate::validate::has_player;
use crate::validate::scenario_wf;
use crate::validate::validate_game;

verus! {

/// The index of the best-scoring candidate among the first `n`, ties
/// broken toward the earliest index.
pub open spec fn best_idx_upto(s: Scenario, pid: u32, w: Weights, cands: Seq<Action>, n: int) -> int
    decreases n,
{
    if n <= 1 {
        0
    } else {
        let b = best_idx_upto(s, pid, w, cands, n - 1);
        if score_spec(s, pid, w, cands[n - 1]) > score_spec(s, pid, w, cands[b]) {
            n - 1
        } else {
            b
        }
    }
}

/// The index of the best-scoring candidate, ties broken toward the
/// earliest index.
pub open spec fn best_idx(s: Scenario, pid: u32, w: Weights, cands: Seq<Action>) -> int {
    best_idx_upto(s, pid, w, cands, cands.len() as int)
}

/// The selected index is in range, no candidate scores strictly higher,
/// and every earlier candidate scores strictly lower: the selection is the
/// first maximum of the generation order.
pub proof fn lemma_best_idx_props(s: Scenario, pid: u32, w: Weights, cands: Seq<Action>, n: int)
    requires
        1 <= n <= cands.len(),
    ensures
        0 <= best_idx_upto(s, pid, w, cands, n) < n,
        forall|i: int|
            0 <= i < n ==> score_spec(s, pid, w, #[trigger] cands[i]) <= score_spec(
                s,
                pid,
                w,
                cands[best_idx_upto(s, pid, w, cands, n)],
            ),
        forall|i: int|
            0 <= i < best_idx_upto(s, pid, w, cands, n) ==> score_spec(s, pid, w, #[trigger] cands[i])
                < score_spec(s, pid, w, cands[best_idx_upto(s, pid, w, cands, n)]),
    decreases n,
{
    if n > 1 {
        lemma_best_idx_props(s, pid, w, cands, n - 1);
    }
}

/// The candidate the engine selects for the given player under the given
/// weight configuration.
pub open spec fn selected_candidate(s: Scenario, pid: u32, w: Weights) -> Action {
    gen_spec(s, pid)[best_idx(s, pid, w, gen_spec(s, pid))]
}

/// The active player of the snapshot, when the id resolves to one.
pub open spec fn active_player_of(s: Scenario) -> Player {
    choose|p: Player| s.players@.contains(p) && p.id == s.active_player_id
}

/// The invocation is valid: the active player exists and is not human.
pub open spec fn active_ok(s: Scenario) -> bool {
    &&& has_player(s.players@, s.active_player_id)
    &&& !active_player_of(s).is_human
}

/// The weight configuration the engine applies: the active player's
/// analyzer mode's profile.
pub open spec fn active_weights(s: Scenario) -> Weights {
    weights_of_mode_spec(active_player_of(s).analyzer)
}

/// What the engine decides on a scenario: an `InvalidInvocation` error
/// when the active player is missing or human, otherwise the selected
/// candidate under the active player's profile.
pub open spec fn decide_spec(s: Scenario) -> Result<Action, AnalyzerError> {
    if !active_ok(s) {
        Err(AnalyzerError::InvalidInvocation)
    } else {
        Ok(selected_candidate(s, s.active_player_id, active_weights(s)))
    }
}

/// With unique player ids, the player found at any index carrying the
/// active id is the active player.
pub proof fn lemma_active_player_at(s: Scenario, i: int)
    requires
        crate::validate::player_ids_unique(s.players@),
        0 <= i < s.players@.len(),
        s.players@[i].id == s.active_player_id,
    ensures
        active_player_of(s) == s.players@[i],
{
    assert(s.players@.contains(s.players@[i]));
    let p = active_player_of(s);
    let j = choose|j: int| 0 <= j < s.players@.len() && s.players@[j] == p;
    if i < j {
        assert(s.players@[i].id != s.players@[j].id);
    } else if j < i {
        assert(s.players@[j].id != s.players@[i].id);
    }
}

/// Decides the action of the active player: exactly [`decide_spec`]. The
/// selected candidate is drawn from the generated sequence, no candidate
/// scores strictly higher than it, and it is the first of its score; the
/// call fails if and only if the active player is missing or human. The
/// generator is proved to always offer EndTurn, so the defensive
/// zero-candidate fallback of the error taxonomy is unreachable and the
/// engine always has an action to return.
#[verifier::loop_isolation(false)]
pub fn decide_scenario(s: &Scenario) -> (r: Result<Action, AnalyzerError>)
    requires
        scenario_wf(*s),
    ensures
        r == decide_spec(*s),
        r is Ok <==> active_ok(*s),
        r matches Ok(a) ==> gen_spec(*s, s.active_player_id).contains(a),
        r matches Ok(a) ==> forall|i: int|
            0 <= i < gen_spec(*s, s.active_player_id).len() ==> score_spec(
                *s,
                s.active_player_id,
                active_weights(*s),
                #[trigger] gen_spec(*s, s.active_player_id)[i],
            ) <= score_spec(*s, s.active_player_id, active_weights(*s), a),
{
    let pid = s.active_player_id;
    let pi = match crate::validate::find_player_index(&s.players, pid) {
        Some(i) => i,
        None => {
            return Err(AnalyzerError::InvalidInvocation);
        },
    };
    proof {
        lemma_active_player_at(*s, pi as int);
    }
    if s.players[pi].is_human {
        return Err(AnalyzerError::InvalidInvocation);
    }
    let w = weights_of_mode(s.players[pi].analyzer);
    let cands = generate_moves(s, pid);
    let mut best: usize = 0;
    let mut best_score: i64 = score_action(s, pid, w, cands[0]);
    let mut i: usize = 1;
    while i < cands.len()
        invariant
            1 <= i <= cands@.len(),
            0 <= best < i,
            best as int == best_idx_upto(*s, pid, w, cands@, i as int),
            best_score as int == score_spec(*s, pid, w, cands@[best as int]),
        decreases cands@.len() - i,
    {
        let sc = score_action(s, pid, w, cands[i]);
        if sc > best_score {
            best = i;
            best_score = sc;
        }
        i += 1;
    }
    proof {
        lemma_best_idx_props(*s, pid, w, cands@, cands@.len() as int);
    }
    Ok(cands[best])
}

/// What the analyzer returns on a full snapshot: a `DecodeError` when the
/// snapshot violates the data-model invariants, otherwise the decision on
/// its scenario.
pub open spec fn analyze_spec(g: Game) -> Result<Action, AnalyzerError> {
    if !game_wf(g) {
        Err(AnalyzerError::DecodeError)
    } else {
        decide_spec(g.scenario)
    }
}

/// The analyzer's entry point over a decoded snapshot: validates the
/// data-model invariants, then decides. Returns exactly [`analyze_spec`].
pub fn analyze_snapshot(g: &Game) -> (r: Result<Action, AnalyzerError>)
    ensures
        r == analyze_spec(*g),
        !game_wf(*g) ==> r == Err::<Action, AnalyzerError>(AnalyzerError::DecodeError),
        game_wf(*g) ==> r == decide_spec(g.scenario),
{
    if !validate_game(g) {
        return Err(AnalyzerError::DecodeError);
    }
    decide_scenario(&g.scenario)
}

/// Determinism: the decision is a mathematical function of the snapshot
/// alone, so two invocations on identical snapshots yield the identical
/// result. The executable entry points return exactly [`analyze_spec`],
/// which carries this law over to them.
pub proof fn lemma_decide_deterministic(a: Game, b: Game)
    requires
        a == b,
    ensures
        analyze_spec(a) == analyze_spec(b),
{
}

/// Aggression dominance: under a weight configuration whose coefficients
/// are all zero except a positive aggression, the engine never selects a
/// candidate while an alternative with a strictly higher combat sub-score
/// exists — the selected candidate's combat sub-score is maximal.
pub proof fn lemma_aggression_dominates(s: Scenario, pid: u32, w: Weights, i: int)
    requires
        w.territory == 0,
        w.economy == 0,
        w.risk_aversion == 0,
        w.expansion == 0,
        w.aggression >= 1,
        0 <= i < gen_spec(s, pid).len(),
    ensures
        combat_sub(s, pid, gen_spec(s, pid)[i]) <= combat_sub(
            s,
            pid,
            selected_candidate(s, pid, w),
        ),
{
    let cands = gen_spec(s, pid);
    lemma_gen_nonempty(s, pid);
    lemma_best_idx_props(s, pid, w, cands, cands.len() as int);
    let b = best_idx(s, pid, w, cands);
    let a = w.aggression as int;
    let c1 = combat_sub(s, pid, cands[i]);
    let c2 = combat_sub(s, pid, cands[b]);
    assert(score_spec(s, pid, w, cands[i]) <= score_spec(s, pid, w, cands[b]));
    assert(score_spec(s, pid, w, cands[i]) == a * c1);
    assert(score_spec(s, pid, w, cands[b]) == a * c2);
    assert(c1 <= c2) by (nonlinear_arith)
        requires
            a >= 1,
            a * c1 <= a * c2,
    ;
}

/// A snapshot holding a player whose tech tree has the third tier set but
/// the second unset violates the tier ordering and is rejected by the
/// decoder with a `DecodeError`.
pub proof fn lemma_tech_tree_order_rejected(g: Game, i: int)
    requires
        0 <= i < g.scenario.players@.len(),
        g.scenario.players@[i].tech_tree.level_three is Some,
        g.scenario.players@[i].tech_tree.level_two is None,
    ensures
        analyze_spec(g) == Err::<Action, AnalyzerError>(AnalyzerError::DecodeError),
{
    assert(!crate::validate::tech_tree_ok(g.scenario.players@[i].tech_tree));
}

} // verus!
