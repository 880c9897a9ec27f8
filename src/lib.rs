//! Persistence and integrity layer of a prize-drawing game: the state model,
//! its consistency rules, the fresh default state, and the decisions of the
//! save / load / backup / restore / validate protocol, which a host drives by
//! performing the file work each step asks for.
pub mod coordinator;
pub mod defaults;
pub mod model;
pub mod validate;

pub use coordinator::{Action, Event, Operation, Phase, Reply, Session, StoreError};
pub use defaults::{create_default_prizes, create_default_state};
pub use model::{LotteryConfig, LotteryCycle, LotteryResult, LotteryState, Prize, PrizeColor, RemainingDraws};
pub use validate::validate_lottery_state;
