use juralen_analyzer::add;
use juralen_analyzer::engine::analyze_snapshot;
use juralen_analyzer::engine::decide_scenario;
use juralen_analyzer::evaluator::score_action;
use juralen_analyzer::model::Action;
use juralen_analyzer::model::AnalyzerError;
use juralen_analyzer::model::AnalyzerMode;
use juralen_analyzer::model::Cell;
use juralen_analyzer::model::Game;
use juralen_analyzer::model::Level;
use juralen_analyzer::model::Loc;
use juralen_analyzer::model::Player;
use juralen_analyzer::model::Resources;
use juralen_analyzer::model::Scenario;
use juralen_analyzer::model::Structure;
use juralen_analyzer::model::TechTree;
use juralen_analyzer::model::Unit;
use juralen_analyzer::model::UnitType;
use juralen_analyzer::model::Weights;
use juralen_analyzer::model::manhattan_dist;
use juralen_analyzer::movegen::generate_moves;
use juralen_analyzer::movegen::unit_cost;
use juralen_analyzer::profile::mode_of_name;
use juralen_analyzer::profile::structure_of_name;
use juralen_analyzer::profile::unit_type_of_name;
use juralen_analyzer::profile::weights_of_mode;
use juralen_analyzer::validate::validate_game;
use juralen_analyzer::validate::validate_level;
use juralen_analyzer::validate::validate_scenario;
use juralen_analyzer::validate::validate_tech_tree;

fn empty_cell(x: u32, y: u32) -> Cell {
    Cell {
        cell_type: "Plains".to_string(),
        controlled_by: None,
        def_bonus: 0,
        structure: Structure::Empty,
        farms: 0,
        towers: 0,
        loc: Loc::Loc(x, y),
    }
}

fn grid(w: u32, h: u32) -> Vec<Vec<Cell>> {
    let mut rows = Vec::new();
    for y in 0..h {
        let mut row = Vec::new();
        for x in 0..w {
            row.push(empty_cell(x, y));
        }
        rows.push(row);
    }
    rows
}

fn tech_none() -> TechTree {
    TechTree {
        level_one: None,
        level_two: None,
        level_three: None,
        level_four: None,
    }
}

fn player(id: u32, is_human: bool, mode: AnalyzerMode, gold: u32) -> Player {
    Player {
        id,
        name: format!("p{}", id),
        resources: Resources { actions: 100, gold },
        is_human,
        analyzer: mode,
        color: "red".to_string(),
        tech_tree: tech_none(),
    }
}

fn unit(id: u32, owner: u32, x: u32, y: u32, attack: u32, health: u32, range: u32, moves: u32) -> Unit {
    Unit {
        id,
        unit_type: UnitType::Soldier,
        moves_left: moves,
        max_moves: moves,
        attack,
        health,
        max_health: health,
        range,
        controlled_by: owner,
        loc: Loc::Loc(x, y),
        level: Level { level: 1, xp: 0, to_next_level: 10 },
    }
}

fn scenario(w: u32, h: u32, players: Vec<Player>, units: Vec<Unit>, cells: Vec<Vec<Cell>>) -> Scenario {
    Scenario {
        scenario_type: "Conquest".to_string(),
        max_x: w,
        max_y: h,
        current_x: 0,
        current_y: 0,
        finished: false,
        player_count: players.len() as u32,
        new_players: Vec::new(),
        players,
        units,
        grid: cells,
        next_id: 100,
        active_player_id: 1,
    }
}

fn game(s: Scenario) -> Game {
    Game {
        next_id: s.next_id,
        turn: 1,
        grid: Vec::new(),
        selected_cell: String::new(),
        selected_units: Vec::new(),
        players: s.players.clone(),
        active_player: s.active_player_id,
        units: Vec::new(),
        scenario: s,
        ai_speed: 100,
    }
}

#[test]
fn add_small_numbers() {
    assert_eq!(add(2, 3), 5);
    assert_eq!(add(-7, 7), 0);
}

#[test]
fn manhattan_examples() {
    assert_eq!(manhattan_dist(Loc::Loc(0, 0), Loc::Loc(2, 3)), 5);
    assert_eq!(manhattan_dist(Loc::Loc(4, 1), Loc::Loc(1, 1)), 3);
    assert_eq!(manhattan_dist(Loc::Loc(2, 2), Loc::Loc(2, 2)), 0);
}

#[test]
fn mode_names_decode() {
    assert_eq!(mode_of_name(&"Aggressive".to_string()), AnalyzerMode::Aggressive);
    assert_eq!(mode_of_name(&"Defensive".to_string()), AnalyzerMode::Defensive);
    assert_eq!(mode_of_name(&"Passive".to_string()), AnalyzerMode::Passive);
    assert_eq!(mode_of_name(&"Expansionist".to_string()), AnalyzerMode::Expansionist);
    assert_eq!(mode_of_name(&"Default".to_string()), AnalyzerMode::Default);
}

#[test]
fn unknown_mode_falls_back_to_default() {
    // An unrecognized analyzer mode string falls back to the Default
    // profile instead of aborting the cycle.
    assert_eq!(mode_of_name(&"Berserk".to_string()), AnalyzerMode::Default);
    assert_eq!(
        weights_of_mode(mode_of_name(&"Berserk".to_string())),
        weights_of_mode(AnalyzerMode::Default)
    );
}

#[test]
fn unknown_mode_decision_proceeds() {
    // A player whose mode string was unrecognized decides under Default
    // weights without an error.
    let mut cells = grid(2, 2);
    cells[0][0].controlled_by = Some(1);
    cells[0][0].structure = Structure::Town;
    let s = scenario(
        2,
        2,
        vec![player(1, false, mode_of_name(&"Mystery".to_string()), 50)],
        vec![],
        cells,
    );
    let r = decide_scenario(&s);
    assert!(r.is_ok());
}

#[test]
fn weight_tables() {
    let d = weights_of_mode(AnalyzerMode::Default);
    assert_eq!(
        d,
        Weights { aggression: 50, territory: 50, economy: 50, risk_aversion: 50, expansion: 50 }
    );
    let a = weights_of_mode(AnalyzerMode::Aggressive);
    assert_eq!(
        a,
        Weights { aggression: 100, territory: 60, economy: 20, risk_aversion: 10, expansion: 30 }
    );
    let e = weights_of_mode(AnalyzerMode::Expansionist);
    assert_eq!(
        e,
        Weights { aggression: 30, territory: 80, economy: 60, risk_aversion: 20, expansion: 100 }
    );
    let f = weights_of_mode(AnalyzerMode::Defensive);
    assert_eq!(f.risk_aversion, 100);
    let p = weights_of_mode(AnalyzerMode::Passive);
    assert_eq!(p.aggression, 0);
}

#[test]
fn unit_and_structure_names_decode() {
    assert_eq!(unit_type_of_name(&"Soldier".to_string()), Some(UnitType::Soldier));
    assert_eq!(unit_type_of_name(&"Wizard".to_string()), Some(UnitType::Wizard));
    assert_eq!(unit_type_of_name(&"Dragon".to_string()), None);
    assert_eq!(structure_of_name(&"Town".to_string()), Some(Structure::Town));
    assert_eq!(structure_of_name(&"Citadel".to_string()), Some(Structure::Citadel));
    assert_eq!(structure_of_name(&"None".to_string()), Some(Structure::Empty));
    assert_eq!(structure_of_name(&"Fort".to_string()), None);
}

#[test]
fn unit_costs() {
    assert_eq!(unit_cost(UnitType::Soldier), 10);
    assert_eq!(unit_cost(UnitType::Warrior), 20);
    assert_eq!(unit_cost(UnitType::Archer), 25);
    assert_eq!(unit_cost(UnitType::Knight), 40);
    assert_eq!(unit_cost(UnitType::Rogue), 30);
    assert_eq!(unit_cost(UnitType::Wizard), 50);
    assert_eq!(unit_cost(UnitType::Priest), 35);
}

#[test]
fn tech_tree_order_enforced() {
    let ok = TechTree {
        level_one: Some("farming".to_string()),
        level_two: Some("masonry".to_string()),
        level_three: None,
        level_four: None,
    };
    assert!(validate_tech_tree(&ok));
    let bad = TechTree {
        level_one: Some("farming".to_string()),
        level_two: None,
        level_three: Some("archery".to_string()),
        level_four: None,
    };
    assert!(!validate_tech_tree(&bad));
}

#[test]
fn tech_tree_violation_rejected_by_decoder() {
    // A snapshot with the third tier set and the second unset is refused
    // before any decision logic runs.
    let mut p = player(1, false, AnalyzerMode::Default, 0);
    p.tech_tree.level_three = Some("archery".to_string());
    let s = scenario(2, 2, vec![p], vec![], grid(2, 2));
    let g = game(s);
    assert!(!validate_game(&g));
    assert_eq!(analyze_snapshot(&g), Err(AnalyzerError::DecodeError));
}

#[test]
fn level_invariant() {
    assert!(validate_level(&Level { level: 3, xp: 4, to_next_level: 10 }));
    assert!(validate_level(&Level { level: 9, xp: 0, to_next_level: 0 }));
    assert!(!validate_level(&Level { level: 3, xp: 10, to_next_level: 10 }));
}

#[test]
fn validation_rejects_bad_units() {
    let p = vec![player(1, false, AnalyzerMode::Default, 0)];
    // moves_left above max_moves
    let mut u = unit(1, 1, 0, 0, 1, 1, 1, 1);
    u.moves_left = 2;
    u.max_moves = 1;
    assert!(!validate_scenario(&scenario(2, 2, p.clone(), vec![u], grid(2, 2))));
    // out of bounds coordinate
    let u = unit(1, 1, 5, 0, 1, 1, 1, 1);
    assert!(!validate_scenario(&scenario(2, 2, p.clone(), vec![u], grid(2, 2))));
    // owner not in the player list
    let u = unit(1, 9, 0, 0, 1, 1, 1, 1);
    assert!(!validate_scenario(&scenario(2, 2, p.clone(), vec![u], grid(2, 2))));
    // duplicate unit ids
    let us = vec![unit(1, 1, 0, 0, 1, 1, 1, 1), unit(1, 1, 1, 0, 1, 1, 1, 1)];
    assert!(!validate_scenario(&scenario(2, 2, p.clone(), us, grid(2, 2))));
    // two units on one cell
    let us = vec![unit(1, 1, 0, 0, 1, 1, 1, 1), unit(2, 1, 0, 0, 1, 1, 1, 1)];
    assert!(!validate_scenario(&scenario(2, 2, p.clone(), us, grid(2, 2))));
    // a well-formed one passes
    let us = vec![unit(1, 1, 0, 0, 1, 1, 1, 1)];
    assert!(validate_scenario(&scenario(2, 2, p, us, grid(2, 2))));
}

#[test]
fn validation_rejects_structure_without_controller() {
    let mut cells = grid(2, 2);
    cells[1][1].structure = Structure::Town;
    let s = scenario(2, 2, vec![player(1, false, AnalyzerMode::Default, 0)], vec![], cells);
    assert!(!validate_scenario(&s));
}

#[test]
fn validation_rejects_wrong_grid_shape() {
    let s = scenario(3, 2, vec![player(1, false, AnalyzerMode::Default, 0)], vec![], grid(2, 2));
    assert!(!validate_scenario(&s));
}

#[test]
fn generator_always_offers_end_turn() {
    // No units, no structures, not even a grid: EndTurn is still offered.
    let s = scenario(0, 0, vec![], vec![], Vec::new());
    let c = generate_moves(&s, 1);
    assert!(!c.is_empty());
    assert_eq!(*c.last().unwrap(), Action::EndTurn);
    // A populated snapshot ends with EndTurn too.
    let s = scenario(
        2,
        2,
        vec![player(1, false, AnalyzerMode::Default, 0)],
        vec![unit(1, 1, 0, 0, 1, 1, 1, 1)],
        grid(2, 2),
    );
    let c = generate_moves(&s, 1);
    assert!(c.contains(&Action::EndTurn));
    assert_eq!(*c.last().unwrap(), Action::EndTurn);
}

#[test]
fn generator_moves_in_grid_order() {
    // One unit with one move point on an empty 2 by 2 grid: the two
    // reachable cells come in y-major, x-minor order, then EndTurn.
    let s = scenario(
        2,
        2,
        vec![player(1, false, AnalyzerMode::Default, 0)],
        vec![unit(1, 1, 0, 0, 1, 1, 1, 1)],
        grid(2, 2),
    );
    let c = generate_moves(&s, 1);
    assert_eq!(
        c,
        vec![
            Action::Move(1, Loc::Loc(1, 0)),
            Action::Move(1, Loc::Loc(0, 1)),
            Action::EndTurn,
        ]
    );
}

#[test]
fn generator_attacks_enemies_in_range() {
    let players = vec![
        player(1, false, AnalyzerMode::Default, 0),
        player(2, false, AnalyzerMode::Default, 0),
    ];
    let units = vec![
        unit(1, 1, 0, 0, 3, 10, 1, 0), // no movement budget: no Move candidates
        unit(2, 2, 0, 1, 1, 1, 1, 1),
    ];
    let mut s = scenario(2, 2, players, units, grid(2, 2));
    let c = generate_moves(&s, 1);
    // moves_left is 0, so the unit neither moves nor attacks
    assert_eq!(c, vec![Action::EndTurn]);
    // give it a move point: the adjacent enemy becomes a target
    s.units[0].moves_left = 1;
    s.units[0].max_moves = 1;
    let c = generate_moves(&s, 1);
    assert!(c.contains(&Action::Attack(1, Loc::Loc(0, 1))));
}

#[test]
fn generator_recruits_bounded_by_gold() {
    let mut cells = grid(2, 1);
    cells[0][0].controlled_by = Some(1);
    cells[0][0].structure = Structure::Town;
    let s = scenario(2, 1, vec![player(1, false, AnalyzerMode::Default, 15)], vec![], cells);
    let c = generate_moves(&s, 1);
    // gold 15 affords only the Soldier; a Citadel costs 75
    assert_eq!(
        c,
        vec![Action::Recruit(Loc::Loc(0, 0), UnitType::Soldier), Action::EndTurn]
    );
}

#[test]
fn generator_recruits_all_kinds_and_upgrade() {
    let mut cells = grid(2, 1);
    cells[0][0].controlled_by = Some(1);
    cells[0][0].structure = Structure::Town;
    let s = scenario(2, 1, vec![player(1, false, AnalyzerMode::Default, 100)], vec![], cells);
    let c = generate_moves(&s, 1);
    let l = Loc::Loc(0, 0);
    assert_eq!(
        c,
        vec![
            Action::Recruit(l, UnitType::Soldier),
            Action::Recruit(l, UnitType::Warrior),
            Action::Recruit(l, UnitType::Archer),
            Action::Recruit(l, UnitType::Knight),
            Action::Recruit(l, UnitType::Rogue),
            Action::Recruit(l, UnitType::Wizard),
            Action::Recruit(l, UnitType::Priest),
            Action::BuildStructure(l, Structure::Citadel),
            Action::EndTurn,
        ]
    );
}

#[test]
fn generator_no_upgrade_on_citadel() {
    let mut cells = grid(1, 1);
    cells[0][0].controlled_by = Some(1);
    cells[0][0].structure = Structure::Citadel;
    let s = scenario(1, 1, vec![player(1, false, AnalyzerMode::Default, 200)], vec![], cells);
    let c = generate_moves(&s, 1);
    assert!(c.iter().all(|a| !matches!(a, Action::BuildStructure(_, _))));
    assert!(c.contains(&Action::Recruit(Loc::Loc(0, 0), UnitType::Wizard)));
}

#[test]
fn generator_units_in_id_order() {
    // Two units listed out of id order: candidates of unit 1 come first.
    let players = vec![player(1, false, AnalyzerMode::Default, 0)];
    let units = vec![unit(2, 1, 0, 1, 1, 1, 1, 1), unit(1, 1, 0, 0, 1, 1, 1, 1)];
    let s = scenario(1, 2, vec![players[0].clone()], units, grid(1, 2));
    let c = generate_moves(&s, 1);
    // each unit can only stay in its column; no unoccupied reachable cells
    // except none (both cells taken), so only EndTurn remains
    assert_eq!(c, vec![Action::EndTurn]);
    // widen the grid: moves of unit 1 must precede moves of unit 2
    let units = vec![unit(2, 1, 1, 1, 1, 1, 1, 1), unit(1, 1, 0, 0, 1, 1, 1, 1)];
    let s = scenario(2, 2, vec![player(1, false, AnalyzerMode::Default, 0)], units, grid(2, 2));
    let c = generate_moves(&s, 1);
    assert_eq!(
        c,
        vec![
            Action::Move(1, Loc::Loc(1, 0)),
            Action::Move(1, Loc::Loc(0, 1)),
            Action::Move(2, Loc::Loc(1, 0)),
            Action::Move(2, Loc::Loc(0, 1)),
            Action::EndTurn,
        ]
    );
}

#[test]
fn decide_rejects_missing_player() {
    let mut s = scenario(2, 2, vec![player(1, false, AnalyzerMode::Default, 0)], vec![], grid(2, 2));
    s.active_player_id = 9;
    assert_eq!(decide_scenario(&s), Err(AnalyzerError::InvalidInvocation));
}

#[test]
fn decide_rejects_human_player() {
    let s = scenario(2, 2, vec![player(1, true, AnalyzerMode::Default, 0)], vec![], grid(2, 2));
    assert_eq!(decide_scenario(&s), Err(AnalyzerError::InvalidInvocation));
}

#[test]
fn decide_is_deterministic() {
    // Two invocations over identical snapshots yield identical output.
    let mut cells = grid(3, 3);
    cells[1][1].controlled_by = Some(2);
    let s = scenario(
        3,
        3,
        vec![player(1, false, AnalyzerMode::Aggressive, 40), player(2, false, AnalyzerMode::Default, 0)],
        vec![unit(1, 1, 0, 0, 3, 10, 1, 2)],
        cells,
    );
    let g1 = game(s);
    let g2 = game(g1.scenario.clone());
    let r1 = analyze_snapshot(&g1);
    let r2 = analyze_snapshot(&g2);
    assert_eq!(r1, r2);
    assert!(r1.is_ok());
}

#[test]
fn aggressive_attacks_when_possible() {
    // Under pure-aggression weights, the attack out-scores every move.
    let players = vec![
        player(1, false, AnalyzerMode::Aggressive, 0),
        player(2, false, AnalyzerMode::Default, 0),
    ];
    let units = vec![unit(1, 1, 0, 0, 5, 10, 1, 1), unit(2, 2, 0, 1, 0, 1, 0, 0)];
    let s = scenario(2, 2, players, units, grid(2, 2));
    let w = Weights { aggression: 100, territory: 0, economy: 0, risk_aversion: 0, expansion: 0 };
    let c = generate_moves(&s, 1);
    let attack = Action::Attack(1, Loc::Loc(0, 1));
    assert!(c.contains(&attack));
    let attack_score = score_action(&s, 1, w, attack);
    for a in &c {
        assert!(score_action(&s, 1, w, *a) <= attack_score);
    }
    // and the engine selects it under the Aggressive profile
    assert_eq!(decide_scenario(&s), Ok(attack));
}

#[test]
fn aggressive_moves_toward_nearest_enemy_cell() {
    // One Soldier (attack 3, range 1), no adjacent enemies, empty
    // treasury, Aggressive mode: the engine moves toward the nearest
    // enemy-controlled cell instead of ending the turn.
    let mut cells = grid(4, 1);
    cells[0][3].controlled_by = Some(2);
    let s = scenario(
        4,
        1,
        vec![player(1, false, AnalyzerMode::Aggressive, 0), player(2, false, AnalyzerMode::Default, 0)],
        vec![unit(1, 1, 0, 0, 3, 10, 1, 2)],
        cells,
    );
    let r = decide_scenario(&s);
    assert_eq!(r, Ok(Action::Move(1, Loc::Loc(2, 0))));
    // the destination is strictly closer to the enemy cell than the start
    match r.unwrap() {
        Action::Move(_, dest) => {
            let before = manhattan_dist(Loc::Loc(0, 0), Loc::Loc(3, 0));
            let after = manhattan_dist(dest, Loc::Loc(3, 0));
            assert!(after < before);
        }
        other => panic!("expected a Move, got {:?}", other),
    }
}

#[test]
fn expansionist_recruits_with_gold_and_town() {
    // Sufficient gold, an owned Town, no units: the engine recruits and
    // never ends the turn.
    let mut cells = grid(2, 2);
    cells[0][0].controlled_by = Some(1);
    cells[0][0].structure = Structure::Town;
    let s = scenario(2, 2, vec![player(1, false, AnalyzerMode::Expansionist, 100)], vec![], cells);
    let r = decide_scenario(&s);
    assert!(matches!(r, Ok(Action::Recruit(_, _))));
    assert_eq!(r, Ok(Action::Recruit(Loc::Loc(0, 0), UnitType::Soldier)));
}

#[test]
fn recruit_score_exact_value() {
    // Expansionist weights: expansion 100 * 100 plus economy 60 * (-10).
    let mut cells = grid(2, 2);
    cells[0][0].controlled_by = Some(1);
    cells[0][0].structure = Structure::Town;
    let s = scenario(2, 2, vec![player(1, false, AnalyzerMode::Expansionist, 100)], vec![], cells);
    let w = weights_of_mode(AnalyzerMode::Expansionist);
    let sc = score_action(&s, 1, w, Action::Recruit(Loc::Loc(0, 0), UnitType::Soldier));
    assert_eq!(sc, 100 * 100 + 60 * (-10));
    let sc_end = score_action(&s, 1, w, Action::EndTurn);
    assert_eq!(sc_end, 0);
}

#[test]
fn attack_score_exact_value() {
    // attack 5 against health 1 on a cell with defense bonus 0:
    // 5 * 100 / (1 + 0 + 1) = 250, clamped to 100.
    let players = vec![
        player(1, false, AnalyzerMode::Default, 0),
        player(2, false, AnalyzerMode::Default, 0),
    ];
    let units = vec![unit(1, 1, 0, 0, 5, 10, 1, 1), unit(2, 2, 0, 1, 0, 1, 0, 0)];
    let s = scenario(2, 2, players, units, grid(2, 2));
    let w = Weights { aggression: 1, territory: 0, economy: 0, risk_aversion: 0, expansion: 0 };
    assert_eq!(score_action(&s, 1, w, Action::Attack(1, Loc::Loc(0, 1))), 100);
    // attack 1 against health 5 behind defense bonus 0: 100 / 6 = 16.
    let units = vec![unit(1, 1, 0, 0, 1, 10, 1, 1), unit(2, 2, 0, 1, 0, 5, 0, 0)];
    let s = scenario(2, 2,
        vec![player(1, false, AnalyzerMode::Default, 0), player(2, false, AnalyzerMode::Default, 0)],
        units, grid(2, 2));
    assert_eq!(score_action(&s, 1, w, Action::Attack(1, Loc::Loc(0, 1))), 16);
}

#[test]
fn risk_aversion_penalizes_threatened_cells() {
    // A lethal enemy next to the destination makes the safety term bite.
    let players = vec![
        player(1, false, AnalyzerMode::Default, 0),
        player(2, false, AnalyzerMode::Default, 0),
    ];
    // the enemy reaches (2,0): range 1 + moves 1, and attack 10 >= health 5
    let units = vec![unit(1, 1, 0, 0, 1, 5, 1, 2), unit(2, 2, 3, 0, 10, 10, 1, 1)];
    let s = scenario(4, 1, players, units, grid(4, 1));
    let w = Weights { aggression: 0, territory: 0, economy: 0, risk_aversion: 100, expansion: 0 };
    let sc = score_action(&s, 1, w, Action::Move(1, Loc::Loc(2, 0)));
    assert_eq!(sc, 100 * (-100));
    let also_threatened = score_action(&s, 1, w, Action::Move(1, Loc::Loc(1, 0)));
    assert_eq!(also_threatened, 100 * (-100));
    // out of everyone's reach on a wider board
    let units = vec![unit(1, 1, 0, 0, 1, 5, 1, 1), unit(2, 2, 5, 0, 10, 10, 1, 1)];
    let s = scenario(6, 1,
        vec![player(1, false, AnalyzerMode::Default, 0), player(2, false, AnalyzerMode::Default, 0)],
        units, grid(6, 1));
    assert_eq!(score_action(&s, 1, w, Action::Move(1, Loc::Loc(1, 0))), 0);
}

#[test]
fn ties_break_toward_first_generated() {
    // Two symmetric moves score identically; the first-generated wins.
    let s = scenario(
        3,
        1,
        vec![player(1, false, AnalyzerMode::Default, 0)],
        vec![unit(1, 1, 1, 0, 1, 1, 1, 1)],
        grid(3, 1),
    );
    let r = decide_scenario(&s);
    assert_eq!(r, Ok(Action::Move(1, Loc::Loc(0, 0))));
}

#[test]
fn analyze_snapshot_full_cycle() {
    let mut cells = grid(2, 2);
    cells[0][0].controlled_by = Some(1);
    cells[0][0].structure = Structure::Town;
    let s = scenario(2, 2, vec![player(1, false, AnalyzerMode::Expansionist, 100)], vec![], cells);
    let g = game(s);
    assert!(validate_game(&g));
    assert_eq!(analyze_snapshot(&g), Ok(Action::Recruit(Loc::Loc(0, 0), UnitType::Soldier)));
}

#[test]
fn farm_income_rewards_moves() {
    // two farms at the destination: economy sub-score 40
    let mut cells = grid(2, 1);
    cells[0][1].controlled_by = Some(1);
    cells[0][1].farms = 2;
    let s = scenario(
        2,
        1,
        vec![player(1, false, AnalyzerMode::Default, 0)],
        vec![unit(1, 1, 0, 0, 1, 1, 1, 1)],
        cells,
    );
    let w = Weights { aggression: 0, territory: 0, economy: 100, risk_aversion: 0, expansion: 0 };
    assert_eq!(score_action(&s, 1, w, Action::Move(1, Loc::Loc(1, 0))), 100 * 40);
    // six farms cap the sub-score at 100
    let mut cells = grid(2, 1);
    cells[0][1].controlled_by = Some(1);
    cells[0][1].farms = 6;
    let s = scenario(
        2,
        1,
        vec![player(1, false, AnalyzerMode::Default, 0)],
        vec![unit(1, 1, 0, 0, 1, 1, 1, 1)],
        cells,
    );
    assert_eq!(score_action(&s, 1, w, Action::Move(1, Loc::Loc(1, 0))), 100 * 100);
}

#[test]
fn territory_prefers_enemy_cells() {
    let mut cells = grid(3, 1);
    cells[0][0].controlled_by = Some(2);
    let s = scenario(
        3,
        1,
        vec![player(1, false, AnalyzerMode::Default, 0), player(2, false, AnalyzerMode::Default, 0)],
        vec![unit(1, 1, 1, 0, 1, 1, 1, 1)],
        cells,
    );
    let w = Weights { aggression: 0, territory: 100, economy: 0, risk_aversion: 0, expansion: 0 };
    // onto the enemy-controlled cell: sub-score 100
    assert_eq!(score_action(&s, 1, w, Action::Move(1, Loc::Loc(0, 0))), 100 * 100);
    // onto an uncontrolled cell: sub-score 50
    assert_eq!(score_action(&s, 1, w, Action::Move(1, Loc::Loc(2, 0))), 100 * 50);
}

#[test]
fn end_turn_scores_zero_under_every_mode() {
    let s = scenario(1, 1, vec![player(1, false, AnalyzerMode::Default, 0)], vec![], grid(1, 1));
    for mode in [
        AnalyzerMode::Default,
        AnalyzerMode::Aggressive,
        AnalyzerMode::Defensive,
        AnalyzerMode::Passive,
        AnalyzerMode::Expansionist,
    ] {
        assert_eq!(score_action(&s, 1, weights_of_mode(mode), Action::EndTurn), 0);
    }
}

#[test]
fn validation_rejects_mismatched_cell_coordinates() {
    let mut cells = grid(2, 2);
    cells[0][0].loc = Loc::Loc(1, 1);
    let s = scenario(2, 2, vec![player(1, false, AnalyzerMode::Default, 0)], vec![], cells);
    assert!(!validate_scenario(&s));
}

#[test]
fn validation_rejects_duplicate_player_ids() {
    let ps = vec![
        player(1, false, AnalyzerMode::Default, 0),
        player(1, false, AnalyzerMode::Aggressive, 0),
    ];
    let s = scenario(2, 2, ps, vec![], grid(2, 2));
    assert!(!validate_scenario(&s));
}

#[test]
fn generator_is_deterministic() {
    let mut cells = grid(3, 3);
    cells[1][1].controlled_by = Some(1);
    cells[1][1].structure = Structure::Town;
    let s = scenario(
        3,
        3,
        vec![player(1, false, AnalyzerMode::Default, 60)],
        vec![unit(1, 1, 0, 0, 2, 5, 1, 2)],
        cells,
    );
    assert_eq!(generate_moves(&s, 1), generate_moves(&s, 1));
}
