use vstd::prelude::*;
use vstd::string::StringExecFns;
use crate::model::{LotteryConfig, LotteryCycle, LotteryState, Prize, PrizeColor, RemainingDraws};

verus! {

/// Draws each color gets in a fresh cycle.
pub const DEFAULT_DRAWS_PER_COLOR: u32 = 2;

/// Draws in a fresh cycle: three colors' worth.
pub const DEFAULT_DRAWS_PER_CYCLE: u32 = 6;

/// Animation length of the default configuration, in milliseconds.
pub const DEFAULT_ANIMATION_DURATION: u32 = 2000;

/// The character of a decimal digit.
pub open spec fn digit_char(d: nat) -> char {
    if d == 0 { '0' } else if d == 1 { '1' } else if d == 2 { '2' } else if d == 3 { '3' }
    else if d == 4 { '4' } else if d == 5 { '5' } else if d == 6 { '6' } else if d == 7 { '7' }
    else if d == 8 { '8' } else { '9' }
}

/// The decimal digits of `n`, most significant first, without leading zeros.
pub open spec fn decimal_digits(n: nat) -> Seq<char>
    decreases n,
{
    if n < 10 {
        seq![digit_char(n)]
    } else {
        decimal_digits(n / 10) + seq![digit_char(n % 10)]
    }
}

/// The decimal text of an integer, with a leading `-` when it is negative.
pub open spec fn decimal_text(n: int) -> Seq<char> {
    if n < 0 {
        seq!['-'] + decimal_digits((-n) as nat)
    } else {
        decimal_digits(n as nat)
    }
}

/// The identifier of a cycle started at `now` with the random token `token`:
/// `cycle_<now>_<token>`.
pub open spec fn cycle_id_text(now: i64, token: Seq<char>) -> Seq<char> {
    seq!['c', 'y', 'c', 'l', 'e', '_'] + decimal_text(now as int) + seq!['_'] + token
}

/// A lowercase hexadecimal digit.
pub open spec fn is_lower_hex(c: char) -> bool {
    ('0' <= c && c <= '9') || ('a' <= c && c <= 'f')
}

/// `p` is the catalog entry with these fields, a description and no icon.
pub open spec fn is_prize(p: Prize, id: Seq<char>, color: PrizeColor, name: Seq<char>, desc: Seq<char>) -> bool {
    &&& p.id@ == id
    &&& p.color == color
    &&& p.name@ == name
    &&& p.description matches Some(d) && d@ == desc
    &&& p.icon.is_none()
}

/// The prize catalog of a fresh installation: two prizes per color, with ids
/// `prize_<color>_<n>`.
pub open spec fn is_default_catalog(p: Seq<Prize>) -> bool {
    &&& p.len() == 6
    &&& is_prize(p[0], "prize_red_1"@, PrizeColor::Red, "红色大奖"@, "价值丰厚的红色奖品"@)
    &&& is_prize(p[1], "prize_red_2"@, PrizeColor::Red, "红色好礼"@, "精美的红色礼品"@)
    &&& is_prize(p[2], "prize_yellow_1"@, PrizeColor::Yellow, "黄色大奖"@, "价值丰厚的黄色奖品"@)
    &&& is_prize(p[3], "prize_yellow_2"@, PrizeColor::Yellow, "黄色好礼"@, "精美的黄色礼品"@)
    &&& is_prize(p[4], "prize_blue_1"@, PrizeColor::Blue, "蓝色大奖"@, "价值丰厚的蓝色奖品"@)
    &&& is_prize(p[5], "prize_blue_2"@, PrizeColor::Blue, "蓝色好礼"@, "精美的蓝色礼品"@)
}

/// Builds one catalog entry.
fn make_prize(id: &str, color: PrizeColor, name: &str, desc: &str) -> (p: Prize)
    ensures
        is_prize(p, id@, color, name@, desc@),
{
    Prize {
        id: String::from_str(id),
        color,
        name: String::from_str(name),
        description: Some(String::from_str(desc)),
        icon: None,
    }
}

/// The prize catalog of a fresh installation.
pub fn create_default_prizes() -> (r: Vec<Prize>)
    ensures
        is_default_catalog(r@),
{
    let mut r: Vec<Prize> = Vec::new();
    r.push(make_prize("prize_red_1", PrizeColor::Red, "红色大奖", "价值丰厚的红色奖品"));
    r.push(make_prize("prize_red_2", PrizeColor::Red, "红色好礼", "精美的红色礼品"));
    r.push(make_prize("prize_yellow_1", PrizeColor::Yellow, "黄色大奖", "价值丰厚的黄色奖品"));
    r.push(make_prize("prize_yellow_2", PrizeColor::Yellow, "黄色好礼", "精美的黄色礼品"));
    r.push(make_prize("prize_blue_1", PrizeColor::Blue, "蓝色大奖", "价值丰厚的蓝色奖品"));
    r.push(make_prize("prize_blue_2", PrizeColor::Blue, "蓝色好礼", "精美的蓝色礼品"));
    r
}

/// The shape of a fresh state, apart from the identifier and start time of its cycle.
pub open spec fn is_default_state(s: LotteryState) -> bool {
    &&& s.current_cycle.end_time.is_none()
    &&& s.current_cycle.results@.len() == 0
    &&& !s.current_cycle.completed
    &&& s.current_cycle.remaining_draws == (RemainingDraws { red: 2, yellow: 2, blue: 2 })
    &&& s.history@.len() == 0
    &&& is_default_catalog(s.available_prizes@)
    &&& s.config == (LotteryConfig {
        draws_per_cycle: 6,
        draws_per_color: 2,
        enable_animations: true,
        animation_duration: 2000,
    })
}

/// The token of a fresh cycle: 32 lowercase hexadecimal digits.
pub open spec fn is_cycle_token(t: Seq<char>) -> bool {
    &&& t.len() == 32
    &&& forall|i: int| 0 <= i < 32 ==> is_lower_hex(#[trigger] t[i])
}

/// Relies on chrono's `Utc::now` and `DateTime::timestamp_millis`: the current
/// time in milliseconds since the Unix epoch. `Utc::now` panics on a clock set
/// before the epoch, so what comes back is never negative.
#[verifier::external_body]
fn utc_now_millis() -> (r: i64)
    ensures
        r >= 0,
{
    chrono::Utc::now().timestamp_millis()
}

/// Relies on uuid's `Uuid::new_v4` and the `Display` of `Uuid::simple`: a random
/// UUID written as 32 lowercase hexadecimal digits without hyphens.
#[verifier::external_body]
fn random_cycle_token() -> (r: String)
    ensures
        is_cycle_token(r@),
{
    uuid::Uuid::new_v4().simple().to_string()
}

/// The text of one decimal digit.
fn digit_str(d: u64) -> (r: &'static str)
    requires
        d < 10,
    ensures
        r@ == seq![digit_char(d as nat)],
{
    proof {
        reveal_strlit("0");
        reveal_strlit("1");
        reveal_strlit("2");
        reveal_strlit("3");
        reveal_strlit("4");
        reveal_strlit("5");
        reveal_strlit("6");
        reveal_strlit("7");
        reveal_strlit("8");
        reveal_strlit("9");
    }
    match d {
        0 => "0",
        1 => "1",
        2 => "2",
        3 => "3",
        4 => "4",
        5 => "5",
        6 => "6",
        7 => "7",
        8 => "8",
        _ => "9",
    }
}

/// Appends the decimal digits of `n` to `out`.
fn append_digits(out: &mut String, n: u64)
    ensures
        final(out)@ == old(out)@ + decimal_digits(n as nat),
    decreases n,
{
    if n >= 10 {
        append_digits(out, n / 10);
    }
    out.append(digit_str(n % 10));
    proof {
        if n >= 10 {
            assert(decimal_digits(n as nat) == decimal_digits((n / 10) as nat) + seq![digit_char((n % 10) as nat)]);
            assert(final(out)@ =~= old(out)@ + decimal_digits(n as nat));
        } else {
            assert(final(out)@ =~= old(out)@ + decimal_digits(n as nat));
        }
    }
}

/// Appends the decimal text of `n` to `out`.
fn append_decimal(out: &mut String, n: i64)
    ensures
        final(out)@ == old(out)@ + decimal_text(n as int),
{
    proof {
        reveal_strlit("-");
    }
    if n < 0 {
        out.append("-");
        let magnitude: u64 = (0i128 - n as i128) as u64;
        append_digits(out, magnitude);
        assert(final(out)@ =~= old(out)@ + decimal_text(n as int));
    } else {
        append_digits(out, n as u64);
    }
}

/// The identifier `cycle_<now>_<token>` of a cycle.
pub fn cycle_id(now: i64, token: &str) -> (r: String)
    ensures
        r@ == cycle_id_text(now, token@),
{
    proof {
        reveal_strlit("cycle_");
        reveal_strlit("_");
    }
    let mut id = String::from_str("cycle_");
    append_decimal(&mut id, now);
    id.append("_");
    id.append(token);
    assert(id@ =~= cycle_id_text(now, token@));
    id
}

/// The fresh state of an installation whose first cycle starts at `now` and
/// carries the random token `token`.
pub fn default_state_at(now: i64, token: &str) -> (r: LotteryState)
    ensures
        is_default_state(r),
        r.current_cycle.start_time == now,
        r.current_cycle.id@ == cycle_id_text(now, token@),
        r.logically_valid(),
{
    LotteryState {
        current_cycle: LotteryCycle {
            id: cycle_id(now, token),
            start_time: now,
            end_time: None,
            results: Vec::new(),
            completed: false,
            remaining_draws: RemainingDraws {
                red: DEFAULT_DRAWS_PER_COLOR,
                yellow: DEFAULT_DRAWS_PER_COLOR,
                blue: DEFAULT_DRAWS_PER_COLOR,
            },
        },
        history: Vec::new(),
        available_prizes: create_default_prizes(),
        config: LotteryConfig {
            draws_per_cycle: DEFAULT_DRAWS_PER_CYCLE,
            draws_per_color: DEFAULT_DRAWS_PER_COLOR,
            enable_animations: true,
            animation_duration: DEFAULT_ANIMATION_DURATION,
        },
    }
}

/// The fresh state of a new installation: its first cycle starts now and
/// carries a fresh random token.
pub fn create_default_state() -> (r: LotteryState)
    ensures
        is_default_state(r),
        r.logically_valid(),
        r.current_cycle.start_time >= 0,
        exists|t: Seq<char>|
            is_cycle_token(t) && r.current_cycle.id@ == #[trigger] cycle_id_text(r.current_cycle.start_time, t),
{
    let now = utc_now_millis();
    let token = random_cycle_token();
    default_state_at(now, token.as_str())
}

} // verus!
