//! The battery charger's two status pins and what they report.
use vstd::prelude::*;

verus! {

/// The logic level read on a pin.
#[derive(Clone, Copy, PartialEq, Eq, Structural, Debug)]
pub enum Level {
    Low,
    High,
}

/// What the charger reports through its two status pins.
#[derive(Clone, Copy, PartialEq, Eq, Structural, Debug)]
pub enum ChargeState {
    /// Both pins high.
    ShutdownOrStandby,
    /// First pin high, second low.
    ChargeComplete,
    /// First pin low, second high.
    Charging,
    /// Both pins low.
    Fault,
}

/// The levels of the charger's two status pins.
pub struct BatteryStatus {
    stat1: Level,
    stat2: Level,
}

/// The code of a pair of status levels: 1 for high/high, 2 for high/low,
/// 3 for low/high and 4 for low/low.
pub open spec fn status_code(stat1: Level, stat2: Level) -> u8 {
    match (stat1, stat2) {
        (Level::High, Level::High) => 1,
        (Level::High, Level::Low) => 2,
        (Level::Low, Level::High) => 3,
        (Level::Low, Level::Low) => 4,
    }
}

/// The charge state a pair of status levels reports.
pub open spec fn charge_state_of(stat1: Level, stat2: Level) -> ChargeState {
    match (stat1, stat2) {
        (Level::High, Level::High) => ChargeState::ShutdownOrStandby,
        (Level::High, Level::Low) => ChargeState::ChargeComplete,
        (Level::Low, Level::High) => ChargeState::Charging,
        (Level::Low, Level::Low) => ChargeState::Fault,
    }
}

impl BatteryStatus {
    /// The level of the first status pin.
    pub closed spec fn first(self) -> Level {
        self.stat1
    }

    /// The level of the second status pin.
    pub closed spec fn second(self) -> Level {
        self.stat2
    }

    /// The status read from the two pins.
    pub fn new(stat1: Level, stat2: Level) -> (status: Self)
        ensures
            status.first() == stat1,
            status.second() == stat2,
    {
        BatteryStatus { stat1, stat2 }
    }

    /// What the two pins report.
    pub fn charge_state(&self) -> (state: ChargeState)
        ensures
            state == charge_state_of(self.first(), self.second()),
    {
        match (self.stat1, self.stat2) {
            (Level::High, Level::High) => ChargeState::ShutdownOrStandby,
            (Level::High, Level::Low) => ChargeState::ChargeComplete,
            (Level::Low, Level::High) => ChargeState::Charging,
            (Level::Low, Level::Low) => ChargeState::Fault,
        }
    }
}

impl ChargeState {
    /// The text logged for this state.
    pub fn message(self) -> (text: &'static str)
        ensures
            self == ChargeState::ShutdownOrStandby ==> text@ == "shutdown/standby"@,
            self == ChargeState::ChargeComplete ==> text@ == "charge complete"@,
            self == ChargeState::Charging ==> text@ == "preconditioning/fast charge"@,
            self == ChargeState::Fault ==> text@ == "temp/timer fault"@,
    {
        match self {
            ChargeState::ShutdownOrStandby => "shutdown/standby",
            ChargeState::ChargeComplete => "charge complete",
            ChargeState::Charging => "preconditioning/fast charge",
            ChargeState::Fault => "temp/timer fault",
        }
    }
}

impl From<BatteryStatus> for u8 {
    fn from(status: BatteryStatus) -> (code: u8) {
        match (status.stat1, status.stat2) {
            (Level::High, Level::High) => 1,
            (Level::High, Level::Low) => 2,
            (Level::Low, Level::High) => 3,
            (Level::Low, Level::Low) => 4,
        }
    }
}

impl vstd::std_specs::convert::FromSpecImpl<BatteryStatus> for u8 {
    open spec fn obeys_from_spec() -> bool {
        true
    }

    open spec fn from_spec(status: BatteryStatus) -> u8 {
        status_code(status.first(), status.second())
    }
}

/// The status code tells the two pin levels apart: distinct level pairs have
/// distinct codes, and every code lies in `1..=4`.
pub proof fn lemma_status_code_distinguishes(a1: Level, a2: Level, b1: Level, b2: Level)
    ensures
        1 <= status_code(a1, a2) <= 4,
        status_code(a1, a2) == status_code(b1, b2) ==> a1 == b1 && a2 == b2,
{
}

/// The status code and the charge state agree: the code is one more than the
/// position of the charge state in the order standby, complete, charging, fault.
pub proof fn lemma_status_code_matches_charge_state(stat1: Level, stat2: Level)
    ensures
        status_code(stat1, stat2) == 1 <==> charge_state_of(stat1, stat2) == ChargeState::ShutdownOrStandby,
        status_code(stat1, stat2) == 2 <==> charge_state_of(stat1, stat2) == ChargeState::ChargeComplete,
        status_code(stat1, stat2) == 3 <==> charge_state_of(stat1, stat2) == ChargeState::Charging,
        status_code(stat1, stat2) == 4 <==> charge_state_of(stat1, stat2) == ChargeState::Fault,
{
}

} // verus!
