//! Behavioral profiles: the mapping from an analyzer mode to the evaluator
//! weight configuration, and the decoding of the wire format's stringly
//! typed enumerations into the closed enums of the data model.

use vstd::prelude::*;

use crate::model::AnalyzerMode;
use crate::model::Structure;
use crate::model::UnitType;
use crate::model::WEIGHT_SCALE;
use crate::model::Weights;

verus! {

/// Every coefficient stays within the fixed-point scale, i.e. within the
/// real interval from zero to one.
pub open spec fn weights_wf(w: Weights) -> bool {
    &&& w.aggression <= WEIGHT_SCALE
    &&& w.territory <= WEIGHT_SCALE
    &&& w.economy <= WEIGHT_SCALE
    &&& w.risk_aversion <= WEIGHT_SCALE
    &&& w.expansion <= WEIGHT_SCALE
}

/// The fixed weight configuration of each analyzer mode.
pub open spec fn weights_of_mode_spec(m: AnalyzerMode) -> Weights {
    match m {
        AnalyzerMode::Default => Weights {
            aggression: 50,
            territory: 50,
            economy: 50,
            risk_aversion: 50,
            expansion: 50,
        },
        AnalyzerMode::Aggressive => Weights {
            aggression: 100,
            territory: 60,
            economy: 20,
            risk_aversion: 10,
            expansion: 30,
        },
        AnalyzerMode::Defensive => Weights {
            aggression: 20,
            territory: 40,
            economy: 60,
            risk_aversion: 100,
            expansion: 30,
        },
        AnalyzerMode::Passive => Weights {
            aggression: 0,
            territory: 20,
            economy: 80,
            risk_aversion: 80,
            expansion: 20,
        },
        AnalyzerMode::Expansionist => Weights {
            aggression: 30,
            territory: 80,
            economy: 60,
            risk_aversion: 20,
            expansion: 100,
        },
    }
}

/// Maps an analyzer mode to its weight configuration.
pub fn weights_of_mode(m: AnalyzerMode) -> (w: Weights)
    ensures
        w == weights_of_mode_spec(m),
        weights_wf(w),
{
    match m {
        AnalyzerMode::Default => Weights {
            aggression: 50,
            territory: 50,
            economy: 50,
            risk_aversion: 50,
            expansion: 50,
        },
        AnalyzerMode::Aggressive => Weights {
            aggression: 100,
            territory: 60,
            economy: 20,
            risk_aversion: 10,
            expansion: 30,
        },
        AnalyzerMode::Defensive => Weights {
            aggression: 20,
            territory: 40,
            economy: 60,
            risk_aversion: 100,
            expansion: 30,
        },
        AnalyzerMode::Passive => Weights {
            aggression: 0,
            territory: 20,
            economy: 80,
            risk_aversion: 80,
            expansion: 20,
        },
        AnalyzerMode::Expansionist => Weights {
            aggression: 30,
            territory: 80,
            economy: 60,
            risk_aversion: 20,
            expansion: 100,
        },
    }
}

/// Whether a string equals one of the wire format's tokens.
fn str_matches(name: &String, token: &str) -> (r: bool)
    ensures
        r == (name@ == token@),
{
    let owned: String = token.to_owned();
    *name == owned
}

/// The analyzer mode a wire-format name denotes. Any unrecognized name
/// falls back to the default profile, so a decision cycle never aborts on
/// an unknown mode.
pub open spec fn mode_of_name_spec(s: Seq<char>) -> AnalyzerMode {
    if s == "Aggressive"@ {
        AnalyzerMode::Aggressive
    } else if s == "Defensive"@ {
        AnalyzerMode::Defensive
    } else if s == "Passive"@ {
        AnalyzerMode::Passive
    } else if s == "Expansionist"@ {
        AnalyzerMode::Expansionist
    } else {
        AnalyzerMode::Default
    }
}

/// Decodes an analyzer mode name, falling back to `Default` on anything
/// unrecognized.
pub fn mode_of_name(name: &String) -> (m: AnalyzerMode)
    ensures
        m == mode_of_name_spec(name@),
{
    if str_matches(name, "Aggressive") {
        AnalyzerMode::Aggressive
    } else if str_matches(name, "Defensive") {
        AnalyzerMode::Defensive
    } else if str_matches(name, "Passive") {
        AnalyzerMode::Passive
    } else if str_matches(name, "Expansionist") {
        AnalyzerMode::Expansionist
    } else {
        AnalyzerMode::Default
    }
}

/// The unit kind a wire-format name denotes, if any.
pub open spec fn unit_type_of_name_spec(s: Seq<char>) -> Option<UnitType> {
    if s == "Soldier"@ {
        Some(UnitType::Soldier)
    } else if s == "Warrior"@ {
        Some(UnitType::Warrior)
    } else if s == "Archer"@ {
        Some(UnitType::Archer)
    } else if s == "Knight"@ {
        Some(UnitType::Knight)
    } else if s == "Rogue"@ {
        Some(UnitType::Rogue)
    } else if s == "Wizard"@ {
        Some(UnitType::Wizard)
    } else if s == "Priest"@ {
        Some(UnitType::Priest)
    } else {
        None
    }
}

/// Decodes a unit kind name; an unrecognized name is a schema mismatch.
pub fn unit_type_of_name(name: &String) -> (t: Option<UnitType>)
    ensures
        t == unit_type_of_name_spec(name@),
{
    if str_matches(name, "Soldier") {
        Some(UnitType::Soldier)
    } else if str_matches(name, "Warrior") {
        Some(UnitType::Warrior)
    } else if str_matches(name, "Archer") {
        Some(UnitType::Archer)
    } else if str_matches(name, "Knight") {
        Some(UnitType::Knight)
    } else if str_matches(name, "Rogue") {
        Some(UnitType::Rogue)
    } else if str_matches(name, "Wizard") {
        Some(UnitType::Wizard)
    } else if str_matches(name, "Priest") {
        Some(UnitType::Priest)
    } else {
        None
    }
}

/// The structure kind a wire-format name denotes, if any.
pub open spec fn structure_of_name_spec(s: Seq<char>) -> Option<Structure> {
    if s == "Town"@ {
        Some(Structure::Town)
    } else if s == "Citadel"@ {
        Some(Structure::Citadel)
    } else if s == "None"@ {
        Some(Structure::Empty)
    } else {
        None
    }
}

/// Decodes a structure name; the wire format writes `"None"` for a cell
/// without a structure.
pub fn structure_of_name(name: &String) -> (t: Option<Structure>)
    ensures
        t == structure_of_name_spec(name@),
{
    if str_matches(name, "Town") {
        Some(Structure::Town)
    } else if str_matches(name, "Citadel") {
        Some(Structure::Citadel)
    } else if str_matches(name, "None") {
        Some(Structure::Empty)
    } else {
        None
    }
}

} // verus!
