//! Data model for the analyzer: an immutable snapshot of the game state
//! (grid, cells, units, players, scenario) plus the candidate actions the
//! decision engine produces.
//!
//! Fractional quantities of the wire format (action points, analyzer speed)
//! are carried as fixed-point integers in hundredths, so that every value
//! the analyzer reasons about is a plain integer.

use vstd::prelude::*;

verus! {

/// A grid coordinate: `Loc(x, y)`.
#[derive(Clone, Copy, Debug, PartialEq, Eq, Structural)]
pub enum Loc {
    Loc(u32, u32),
}

impl Loc {
    /// The x component.
    pub open spec fn x(self) -> u32 {
        match self {
            Loc::Loc(x, _) => x,
        }
    }

    /// The y component.
    pub open spec fn y(self) -> u32 {
        match self {
            Loc::Loc(_, y) => y,
        }
    }
}

/// The structure standing on a cell, if any. `Empty` marks a cell that
/// carries no structure.
#[derive(Clone, Copy, Debug, PartialEq, Eq, Structural)]
pub enum Structure {
    Town,
    Citadel,
    Empty,
}

/// The kinds of unit that can be recruited and fielded.
#[derive(Clone, Copy, Debug, PartialEq, Eq, Structural)]
pub enum UnitType {
    Soldier,
    Warrior,
    Archer,
    Knight,
    Rogue,
    Wizard,
    Priest,
}

/// Behavioral profile of a non-human player.
#[derive(Clone, Copy, Debug, PartialEq, Eq, Structural)]
pub enum AnalyzerMode {
    Default,
    Aggressive,
    Defensive,
    Passive,
    Expansionist,
}

/// Experience state of a unit. A unit with `to_next_level == 0` is at its
/// maximum level; otherwise `xp` must stay below `to_next_level`.
#[derive(Clone, Copy, Debug, PartialEq, Eq, Structural)]
pub struct Level {
    pub level: u32,
    pub xp: u32,
    pub to_next_level: u32,
}

/// Unlocked research tiers. Tiers unlock strictly in order: a tier may be
/// set only if every lower tier is set.
#[derive(Clone, Debug)]
pub struct TechTree {
    pub level_one: Option<String>,
    pub level_two: Option<String>,
    pub level_three: Option<String>,
    pub level_four: Option<String>,
}

/// A player's spendable resources. `actions` is a fixed-point count of
/// action points in hundredths.
#[derive(Clone, Copy, Debug, PartialEq, Eq, Structural)]
pub struct Resources {
    pub actions: u32,
    pub gold: u32,
}

/// A participant in the game.
#[derive(Clone, Debug)]
pub struct Player {
    pub id: u32,
    pub name: String,
    pub resources: Resources,
    pub is_human: bool,
    pub analyzer: AnalyzerMode,
    pub color: String,
    pub tech_tree: TechTree,
}

/// A player still to be materialized when the scenario starts.
#[derive(Clone, Debug)]
pub struct NewPlayer {
    pub id: u32,
    pub name: String,
    pub color: String,
    pub is_human: bool,
    pub analyzer: AnalyzerMode,
}

/// A unit on the grid.
#[derive(Clone, Debug)]
pub struct Unit {
    pub id: u32,
    pub unit_type: UnitType,
    pub moves_left: u32,
    pub max_moves: u32,
    pub attack: u32,
    pub health: u32,
    pub max_health: u32,
    pub range: u32,
    pub controlled_by: u32,
    pub loc: Loc,
    pub level: Level,
}

/// One cell of the grid.
#[derive(Clone, Debug)]
pub struct Cell {
    pub cell_type: String,
    pub controlled_by: Option<u32>,
    pub def_bonus: u32,
    pub structure: Structure,
    pub farms: u32,
    pub towers: u32,
    pub loc: Loc,
}

/// The authoritative game state for one session: grid bounds and contents,
/// the canonical player and unit lists, and the turn bookkeeping.
#[derive(Clone, Debug)]
pub struct Scenario {
    pub scenario_type: String,
    pub max_x: u32,
    pub max_y: u32,
    pub current_x: u32,
    pub current_y: u32,
    pub finished: bool,
    pub player_count: u32,
    pub new_players: Vec<NewPlayer>,
    pub players: Vec<Player>,
    pub units: Vec<Unit>,
    pub grid: Vec<Vec<Cell>>,
    pub next_id: u32,
    pub active_player_id: u32,
}

/// The full snapshot handed to the analyzer for one decision cycle.
/// `ai_speed` is a fixed-point factor in hundredths.
#[derive(Clone, Debug)]
pub struct Game {
    pub next_id: u32,
    pub turn: u32,
    pub grid: Vec<Vec<Cell>>,
    pub selected_cell: String,
    pub selected_units: Vec<u32>,
    pub players: Vec<Player>,
    pub active_player: u32,
    pub units: Vec<Unit>,
    pub scenario: Scenario,
    pub ai_speed: u32,
}

/// A candidate action the engine may recommend. Produced and consumed
/// within a single decision cycle.
#[derive(Clone, Copy, Debug, PartialEq, Eq, Structural)]
pub enum Action {
    /// Move the unit with the given id to the destination coordinate.
    Move(u32, Loc),
    /// Attack the enemy unit standing at the target coordinate.
    Attack(u32, Loc),
    /// Recruit a unit of the given kind at the cell coordinate.
    Recruit(Loc, UnitType),
    /// Erect or upgrade to the given structure at the cell coordinate.
    BuildStructure(Loc, Structure),
    /// Do nothing further this turn; always a legal fallback.
    EndTurn,
}

/// Why a decision cycle was refused.
#[derive(Clone, Copy, Debug, PartialEq, Eq, Structural)]
pub enum AnalyzerError {
    /// The snapshot does not satisfy the data model's invariants.
    DecodeError,
    /// The active player is missing from the snapshot or is human.
    InvalidInvocation,
}

/// Evaluator weight configuration: each coefficient is a fixed-point value
/// in hundredths, ranging over `0 ..= 100` (that is, `0.0 ..= 1.0`).
#[derive(Clone, Copy, Debug, PartialEq, Eq, Structural)]
pub struct Weights {
    pub aggression: u32,
    pub territory: u32,
    pub economy: u32,
    pub risk_aversion: u32,
    pub expansion: u32,
}

/// The fixed-point scale: `100` stands for the real weight `1.0`.
pub const WEIGHT_SCALE: u32 = 100;

/// Manhattan distance between two coordinates.
pub open spec fn manhattan(a: Loc, b: Loc) -> int {
    abs_diff_spec(a.x() as int, b.x() as int) + abs_diff_spec(a.y() as int, b.y() as int)
}

/// Absolute difference of two mathematical integers.
pub open spec fn abs_diff_spec(a: int, b: int) -> int {
    if a >= b {
        a - b
    } else {
        b - a
    }
}

/// Computes the Manhattan distance between two coordinates.
pub fn manhattan_dist(a: Loc, b: Loc) -> (r: u64)
    ensures
        r as int == manhattan(a, b),
{
    let Loc::Loc(ax, ay) = a;
    let Loc::Loc(bx, by) = b;
    let dx: u64 = if ax >= bx {
        (ax - bx) as u64
    } else {
        (bx - ax) as u64
    };
    let dy: u64 = if ay >= by {
        (ay - by) as u64
    } else {
        (by - ay) as u64
    };
    dx + dy
}

} // verus!
