use vstd::prelude::*;
use crate::defaults::is_default_state;
use crate::model::LotteryState;

verus! {

/// Checks the logical consistency of `state`; the answer is `Ok(true)` exactly
/// when the configuration is well formed, every draw of the current cycle is
/// accounted for, and the prize catalog is not empty. It never fails.
pub fn validate_lottery_state(state: &LotteryState) -> (r: Result<bool, String>)
    ensures
        r == Ok::<bool, String>(state.logically_valid()),
{
    let config = &state.config;
    if config.draws_per_cycle == 0 || config.draws_per_color == 0
        || config.draws_per_cycle as u64 != config.draws_per_color as u64 * 3 {
        return Ok(false);
    }
    let cycle = &state.current_cycle;
    let remaining: u64 = cycle.remaining_draws.red as u64 + cycle.remaining_draws.yellow as u64
        + cycle.remaining_draws.blue as u64;
    let recorded: u128 = cycle.results.len() as u128;
    if recorded + remaining as u128 != config.draws_per_cycle as u128 {
        return Ok(false);
    }
    if state.available_prizes.len() == 0 {
        return Ok(false);
    }
    Ok(true)
}

/// A state of the fresh-installation shape passes validation, whatever the
/// identifier and start time of its cycle.
pub proof fn lemma_default_shape_is_valid(s: LotteryState)
    requires
        is_default_state(s),
    ensures
        s.logically_valid(),
{
}

/// Validation depends on the state's value alone: equal states get the same
/// answer, on every call.
pub proof fn lemma_validation_is_a_function(a: LotteryState, b: LotteryState)
    requires
        a == b,
    ensures
        a.logically_valid() == b.logically_valid(),
{
}

/// In a valid state every draw of the current cycle is recorded or remaining,
/// and a state whose cycle does not account for its draws is rejected.
pub proof fn lemma_draw_count_conservation(s: LotteryState)
    ensures
        s.logically_valid() ==> s.current_cycle.results@.len() + s.current_cycle.remaining_draws.red
            + s.current_cycle.remaining_draws.yellow + s.current_cycle.remaining_draws.blue
            == s.config.draws_per_cycle,
        s.current_cycle.results@.len() + s.current_cycle.remaining_draws.red
            + s.current_cycle.remaining_draws.yellow + s.current_cycle.remaining_draws.blue
            != s.config.draws_per_cycle ==> !s.logically_valid(),
{
}

/// A configuration whose draws per cycle are not three times its draws per
/// color, or that holds a zero count, makes the state invalid.
pub proof fn lemma_config_ratio(s: LotteryState)
    ensures
        s.config.draws_per_cycle != s.config.draws_per_color * 3 ==> !s.logically_valid(),
        s.config.draws_per_cycle == 0 ==> !s.logically_valid(),
        s.config.draws_per_color == 0 ==> !s.logically_valid(),
{
}

} // verus!
