//! The score of a stake: its amount weighted by how long it stayed in the
//! market and by how early it came.

use vstd::prelude::*;
use crate::opportunity_market::error::ErrorCode;

verus! {

/// From this many seconds after the opening on, being earlier earns nothing
/// more.
pub const EARLINESS_INTERSECTION_POINT_SECONDS: u64 = 86_400;

/// The scale of the fixed-point factors: 10 000 stands for 1.0.
pub const PRECISION: u64 = 10_000;

/// Whether the three times are in order: the market opens, the stake is
/// placed, the market closes.
pub open spec fn times_in_order(
    market_opened: u64,
    market_closed: u64,
    user_staked_at: u64,
) -> bool {
    market_opened <= user_staked_at <= market_closed
}

/// The share of the market's duration that the stake was in it, in percent,
/// rounded down and at least 1.
pub open spec fn stake_time_percentage(
    market_opened: u64,
    market_closed: u64,
    user_staked_at: u64,
) -> int {
    let total = market_closed - market_opened;
    let percentage = ((market_closed - user_staked_at) * 100) / (if total >= 1 {
        total
    } else {
        1
    });
    if percentage >= 1 {
        percentage
    } else {
        1
    }
}

/// The factor for being early, scaled by [`PRECISION`]: 2.0 at the opening,
/// falling linearly to 1.0 at the intersection point and staying there. A
/// stake in the very second of the opening counts as one second late.
pub open spec fn earliness_factor(market_opened: u64, user_staked_at: u64) -> int {
    let since_opening = user_staked_at - market_opened;
    let late = if since_opening >= 1 {
        since_opening
    } else {
        1
    };
    let capped = if late <= EARLINESS_INTERSECTION_POINT_SECONDS {
        late
    } else {
        EARLINESS_INTERSECTION_POINT_SECONDS as int
    };
    2 * PRECISION - (capped * PRECISION) / (EARLINESS_INTERSECTION_POINT_SECONDS as int)
}

/// The score before it is cut to 64 bits: amount times percentage times
/// earliness, with the scale taken out again.
pub open spec fn user_score(
    market_opened: u64,
    market_closed: u64,
    user_staked_at: u64,
    stake_amount: u64,
) -> int {
    (stake_amount * stake_time_percentage(market_opened, market_closed, user_staked_at)
        * earliness_factor(market_opened, user_staked_at)) / (PRECISION as int)
}

/// The percentage lies between 1 and 100, the earliness factor between 1.0
/// and 2.0.
pub proof fn lemma_score_components_in_range(
    market_opened: u64,
    market_closed: u64,
    user_staked_at: u64,
)
    requires
        times_in_order(market_opened, market_closed, user_staked_at),
    ensures
        1 <= stake_time_percentage(market_opened, market_closed, user_staked_at) <= 100,
        PRECISION <= earliness_factor(market_opened, user_staked_at) <= 2 * PRECISION,
{
    let total = market_closed - market_opened;
    let duration = market_closed - user_staked_at;
    let divisor = if total >= 1 {
        total
    } else {
        1
    };
    assert(duration * 100 <= divisor * 100);
    assert((duration * 100) / divisor <= 100) by (nonlinear_arith)
        requires
            duration * 100 <= divisor * 100,
            divisor >= 1,
            duration >= 0,
    ;
    let since_opening = user_staked_at - market_opened;
    let late = if since_opening >= 1 {
        since_opening
    } else {
        1
    };
    let capped = if late <= 86_400 {
        late
    } else {
        86_400
    };
    assert(0 <= (capped * 10_000) / 86_400 <= 10_000);
}

/// The three components of a stake's score: the amount itself, the share of
/// the market's duration it was staked for, in percent, and the factor for
/// being early. Rejected as an overflow when the times are out of order.
pub fn calculate_user_score_components(
    market_opened: u64,
    market_closed: u64,
    user_staked_at: u64,
    stake_amount: u64,
) -> (result: Result<(u64, u64, u64), ErrorCode>)
    ensures
        match result {
            Ok((amount, time_percentage, earliness)) => {
                &&& times_in_order(market_opened, market_closed, user_staked_at)
                &&& amount == stake_amount
                &&& time_percentage == stake_time_percentage(
                    market_opened,
                    market_closed,
                    user_staked_at,
                )
                &&& earliness == earliness_factor(market_opened, user_staked_at)
            },
            Err(e) => {
                &&& e == ErrorCode::Overflow
                &&& !times_in_order(market_opened, market_closed, user_staked_at)
            },
        },
{
    let total_market_time = match market_closed.checked_sub(market_opened) {
        Some(t) => t,
        None => return Err(ErrorCode::Overflow),
    };
    let since_opening = match user_staked_at.checked_sub(market_opened) {
        Some(t) => t,
        None => return Err(ErrorCode::Overflow),
    };
    let stake_since_opening = if since_opening >= 1 {
        since_opening
    } else {
        1
    };
    let actual_stake_duration = match market_closed.checked_sub(user_staked_at) {
        Some(t) => t,
        None => return Err(ErrorCode::Overflow),
    };
    let capped = if stake_since_opening <= EARLINESS_INTERSECTION_POINT_SECONDS {
        stake_since_opening
    } else {
        EARLINESS_INTERSECTION_POINT_SECONDS
    };
    let earliness_factor = 2 * PRECISION - (capped * PRECISION)
        / EARLINESS_INTERSECTION_POINT_SECONDS;

    let divisor: u128 = if total_market_time >= 1 {
        total_market_time as u128
    } else {
        1
    };
    let percentage: u128 = (actual_stake_duration as u128 * 100) / divisor;
    proof {
        lemma_score_components_in_range(market_opened, market_closed, user_staked_at);
    }
    let stake_time_percentage: u64 = if percentage >= 1 {
        percentage as u64
    } else {
        1
    };
    Ok((stake_amount, stake_time_percentage, earliness_factor))
}

/// The score of a stake. Rejected as an overflow when the times are out of
/// order or the score does not fit in 64 bits.
pub fn calculate_user_score(
    market_opened: u64,
    market_closed: u64,
    user_staked_at: u64,
    stake_amount: u64,
) -> (result: Result<u64, ErrorCode>)
    ensures
        match result {
            Ok(score) => {
                &&& times_in_order(market_opened, market_closed, user_staked_at)
                &&& score == user_score(market_opened, market_closed, user_staked_at, stake_amount)
            },
            Err(e) => {
                &&& e == ErrorCode::Overflow
                &&& (!times_in_order(market_opened, market_closed, user_staked_at) || user_score(
                    market_opened,
                    market_closed,
                    user_staked_at,
                    stake_amount,
                ) > u64::MAX)
            },
        },
{
    let (amount, time_pct, earliness) = match calculate_user_score_components(
        market_opened,
        market_closed,
        user_staked_at,
        stake_amount,
    ) {
        Ok(components) => components,
        Err(e) => return Err(e),
    };
    proof {
        lemma_score_components_in_range(market_opened, market_closed, user_staked_at);
        assert(amount * time_pct <= 0xffff_ffff_ffff_ffff * 100) by (nonlinear_arith)
            requires
                amount <= 0xffff_ffff_ffff_ffff,
                time_pct <= 100,
        ;
        assert(amount * time_pct * earliness <= 0xffff_ffff_ffff_ffff * 100 * 20_000)
            by (nonlinear_arith)
            requires
                0 <= amount * time_pct <= 0xffff_ffff_ffff_ffff * 100,
                earliness <= 20_000,
        ;
    }
    let weighted: u128 = (amount as u128) * (time_pct as u128);
    let scaled: u128 = weighted * (earliness as u128);
    let score: u128 = scaled / (PRECISION as u128);
    if score > u64::MAX as u128 {
        return Err(ErrorCode::Overflow);
    }
    Ok(score as u64)
}

} // verus!
