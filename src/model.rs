use vstd::prelude::*;

verus! {

/// The three prize colors; each cycle splits its draws evenly among them.
#[derive(Debug, Clone, Copy, PartialEq, Eq, Structural)]
pub enum PrizeColor {
    Red,
    Yellow,
    Blue,
}

/// One entry of the prize catalog.
#[derive(Debug, Clone)]
pub struct Prize {
    pub id: String,
    pub color: PrizeColor,
    pub name: String,
    pub description: Option<String>,
    pub icon: Option<String>,
}

/// One recorded draw of a cycle.
#[derive(Debug, Clone)]
pub struct LotteryResult {
    pub prize_id: String,
    /// Milliseconds since the Unix epoch.
    pub timestamp: i64,
    pub cycle_id: String,
    pub draw_number: u32,
}

/// Draws left in the current cycle, per color.
#[derive(Debug, Clone, Copy, PartialEq, Eq, Structural)]
pub struct RemainingDraws {
    pub red: u32,
    pub yellow: u32,
    pub blue: u32,
}

/// One round of the game.
#[derive(Debug, Clone)]
pub struct LotteryCycle {
    pub id: String,
    pub start_time: i64,
    /// Absent while the cycle is still open.
    pub end_time: Option<i64>,
    pub results: Vec<LotteryResult>,
    pub completed: bool,
    pub remaining_draws: RemainingDraws,
}

/// Game settings.
#[derive(Debug, Clone, Copy, PartialEq, Eq, Structural)]
pub struct LotteryConfig {
    pub draws_per_cycle: u32,
    pub draws_per_color: u32,
    pub enable_animations: bool,
    pub animation_duration: u32,
}

/// The whole persisted game state.
#[derive(Debug, Clone)]
pub struct LotteryState {
    pub current_cycle: LotteryCycle,
    /// Completed cycles, most recent last.
    pub history: Vec<LotteryCycle>,
    pub available_prizes: Vec<Prize>,
    pub config: LotteryConfig,
}

impl RemainingDraws {
    /// Draws left over all three colors.
    pub open spec fn total(self) -> int {
        self.red as int + self.yellow as int + self.blue as int
    }
}

impl LotteryConfig {
    /// Both counts are nonzero and a cycle is exactly three colors' worth of draws.
    pub open spec fn well_formed(self) -> bool {
        &&& self.draws_per_cycle != 0
        &&& self.draws_per_color != 0
        &&& self.draws_per_cycle as int == self.draws_per_color as int * 3
    }
}

impl LotteryCycle {
    /// Every draw of the cycle is either recorded or still remaining.
    pub open spec fn draws_accounted(self, config: LotteryConfig) -> bool {
        self.results@.len() + self.remaining_draws.total() == config.draws_per_cycle as int
    }
}

impl LotteryState {
    /// The logical consistency rules of a state.
    pub open spec fn logically_valid(self) -> bool {
        &&& self.config.well_formed()
        &&& self.current_cycle.draws_accounted(self.config)
        &&& self.available_prizes@.len() > 0
    }
}

} // verus!
