use crate::error::ErrorCode;
use crate::item::{BasicItemEffect, BasicItemEffectType, BasicItemEffectView, Item};
use crate::rebalance::{
    fits_i64, quotient, rebalance_basic_stat, rebalanced, RebalanceBasicStatArgs, StatChange,
};
use crate::stat::{BasicStat, BasicStatState, BasicStatStateView, BasicStatTemplate, BasicStatTypeView};
use vstd::prelude::*;

verus! {

/// Whether an effect lowers its stat.
pub open spec fn is_decrement(kind: BasicItemEffectType) -> bool {
    kind == BasicItemEffectType::Decrement || kind == BasicItemEffectType::DecrementPercent || kind
        == BasicItemEffectType::DecrementPercentFromBase
}

/// What the tokens staked on an item add to an effect: the staked amount times the
/// numerator, divided by the divisor, each where it is present. `None` where the product
/// leaves the range of `u64` or the divisor is zero. Nothing staked adds nothing.
pub open spec fn staking_bonus(
    tokens_staked: u64,
    numerator: Option<u64>,
    divisor: Option<u64>,
) -> Option<int> {
    if tokens_staked == 0 {
        Some(0)
    } else {
        let scaled = match numerator {
            Some(n) => tokens_staked * n,
            None => tokens_staked as int,
        };
        if scaled > u64::MAX {
            None
        } else {
            match divisor {
                Some(d) => if d == 0 {
                    None
                } else {
                    Some(scaled / (d as int))
                },
                None => Some(scaled),
            }
        }
    }
}

/// The size of an effect before its sign: the quantity times the amount of the effect,
/// plus the staking bonus. `None` where a factor, the product, the bonus or the sum leaves
/// the range of `i64`.
pub open spec fn effect_magnitude(
    amount: u64,
    tokens_staked: u64,
    effect: BasicItemEffectView,
) -> Option<int> {
    let base = amount * effect.amount;
    if amount > i64::MAX || effect.amount > i64::MAX || base > i64::MAX {
        None
    } else {
        match staking_bonus(
            tokens_staked,
            effect.staking_amount_numerator,
            effect.staking_amount_divisor,
        ) {
            Some(bonus) => if bonus > i64::MAX || base + bonus > i64::MAX {
                None
            } else {
                Some(base + bonus)
            },
            None => None,
        }
    }
}

/// The signed amount of an effect: its magnitude, negated for a decrement and negated
/// again where the effect is taken away.
pub open spec fn modded_amount(
    amount: u64,
    tokens_staked: u64,
    effect: BasicItemEffectView,
    adding: bool,
) -> Option<int> {
    match effect_magnitude(amount, tokens_staked, effect) {
        Some(magnitude) => Some(
            if is_decrement(effect.item_effect_type) == adding {
                -magnitude
            } else {
                magnitude
            },
        ),
        None => None,
    }
}

/// An effect, the quantity it is applied with and the item whose staked tokens add to it.
pub struct GetModdedAmountGivenTokensStakedOnItemArgs<'a, 'b> {
    pub amount: u64,
    pub item: &'b Item,
    pub bie: &'a BasicItemEffect,
    pub adding: bool,
}

/// Computes the signed amount by which an effect changes its stat.
pub fn get_modded_amount_given_tokens_staked_on_item(
    args: GetModdedAmountGivenTokensStakedOnItemArgs,
) -> (res: Result<i64, ErrorCode>)
    ensures
        match modded_amount(
            args.amount,
            args.item.tokens_staked,
            args.bie.deep_view(),
            args.adding,
        ) {
            Some(m) => res == Ok::<i64, ErrorCode>(m as i64) && fits_i64(m),
            None => res == Err::<i64, ErrorCode>(ErrorCode::NumericalOverflow),
        },
{
    let GetModdedAmountGivenTokensStakedOnItemArgs { amount, item, bie, adding } = args;
    if amount > 0x7fff_ffff_ffff_ffff || bie.amount > 0x7fff_ffff_ffff_ffff {
        return Err(ErrorCode::NumericalOverflow);
    }
    let mut modded_amount: i64 = match (amount as i64).checked_mul(bie.amount as i64) {
        Some(v) => v,
        None => {
            return Err(ErrorCode::NumericalOverflow);
        },
    };
    if item.tokens_staked > 0 {
        let mut to_add: u64 = item.tokens_staked;
        if let Some(san) = bie.staking_amount_numerator {
            to_add = match to_add.checked_mul(san) {
                Some(v) => v,
                None => {
                    return Err(ErrorCode::NumericalOverflow);
                },
            };
        }
        if let Some(sad) = bie.staking_amount_divisor {
            to_add = match to_add.checked_div(sad) {
                Some(v) => v,
                None => {
                    return Err(ErrorCode::NumericalOverflow);
                },
            };
        }
        if to_add > 0x7fff_ffff_ffff_ffff {
            return Err(ErrorCode::NumericalOverflow);
        }
        modded_amount = match modded_amount.checked_add(to_add as i64) {
            Some(v) => v,
            None => {
                return Err(ErrorCode::NumericalOverflow);
            },
        };
    }
    let decrement = match bie.item_effect_type {
        BasicItemEffectType::Decrement => true,
        BasicItemEffectType::DecrementPercent => true,
        BasicItemEffectType::DecrementPercentFromBase => true,
        _ => false,
    };
    if decrement {
        modded_amount = -modded_amount;
    }
    if !adding {
        modded_amount = -modded_amount;
    }
    Ok(modded_amount)
}

/// The change that an effect makes for good, as a consumable without a duration does.
/// Percentage effects need an integer stat.
pub open spec fn permanent_change(
    kind: BasicItemEffectType,
    state: BasicStatStateView,
    modded: i64,
) -> Result<StatChange, ErrorCode> {
    match kind {
        BasicItemEffectType::Increment | BasicItemEffectType::Decrement => Ok(
            StatChange {
                current_change: modded,
                ci_change: 0,
                new_calculated_numerator: 1,
                new_calculated_divisor: 1,
            },
        ),
        BasicItemEffectType::IncrementPercent | BasicItemEffectType::DecrementPercent => match state {
            BasicStatStateView::Integer { current, calculated, .. } => {
                let factor = 100 + modded;
                let product = calculated * factor;
                let share = quotient(product, 100);
                let delta = current + share;
                if fits_i64(factor) && fits_i64(product) && fits_i64(delta) {
                    Ok(
                        StatChange {
                            current_change: delta as i64,
                            ci_change: 0,
                            new_calculated_numerator: 1,
                            new_calculated_divisor: 1,
                        },
                    )
                } else {
                    Err(ErrorCode::NumericalOverflow)
                }
            },
            _ => Err(ErrorCode::CannotAlterThisTypeNumerically),
        },
        BasicItemEffectType::IncrementPercentFromBase
        | BasicItemEffectType::DecrementPercentFromBase => match state {
            BasicStatStateView::Integer { current, .. } => {
                let product = modded * current;
                if fits_i64(product) {
                    Ok(
                        StatChange {
                            current_change: quotient(product, 100) as i64,
                            ci_change: 0,
                            new_calculated_numerator: 1,
                            new_calculated_divisor: 1,
                        },
                    )
                } else {
                    Err(ErrorCode::NumericalOverflow)
                }
            },
            _ => Err(ErrorCode::CannotAlterThisTypeNumerically),
        },
    }
}

/// The change that an effect makes while an item is worn or active. A flat effect moves
/// the intermediate value; a percentage scales the calculated value by `(100 + p) / 100`
/// when it is added and by `100 / (100 + p)` when it is taken away, `p` being the signed
/// amount of the effect when added; a percentage of the base moves the intermediate value
/// by that share of the base. Every percentage needs an integer stat.
pub open spec fn temporary_change(
    kind: BasicItemEffectType,
    state: BasicStatStateView,
    modded: i64,
    adding: bool,
) -> Result<StatChange, ErrorCode> {
    match kind {
        BasicItemEffectType::Increment | BasicItemEffectType::Decrement => Ok(
            StatChange {
                current_change: 0,
                ci_change: modded,
                new_calculated_numerator: 1,
                new_calculated_divisor: 1,
            },
        ),
        BasicItemEffectType::IncrementPercent | BasicItemEffectType::DecrementPercent => match state {
            BasicStatStateView::Integer { .. } => {
                let percent = if adding {
                    modded as int
                } else {
                    -modded
                };
                let factor = 100 + percent;
                if fits_i64(percent) && fits_i64(factor) {
                    Ok(
                        StatChange {
                            current_change: 0,
                            ci_change: 0,
                            new_calculated_numerator: if adding {
                                factor as i64
                            } else {
                                100
                            },
                            new_calculated_divisor: if adding {
                                100
                            } else {
                                factor as i64
                            },
                        },
                    )
                } else {
                    Err(ErrorCode::NumericalOverflow)
                }
            },
            _ => Err(ErrorCode::CannotAlterThisTypeNumerically),
        },
        BasicItemEffectType::IncrementPercentFromBase
        | BasicItemEffectType::DecrementPercentFromBase => match state {
            BasicStatStateView::Integer { current, .. } => {
                let product = modded * current;
                if fits_i64(product) {
                    Ok(
                        StatChange {
                            current_change: 0,
                            ci_change: quotient(product, 100) as i64,
                            new_calculated_numerator: 1,
                            new_calculated_divisor: 1,
                        },
                    )
                } else {
                    Err(ErrorCode::NumericalOverflow)
                }
            },
            _ => Err(ErrorCode::CannotAlterThisTypeNumerically),
        },
    }
}

/// The state of a stat after a change was worked out and applied, or the error of the
/// step that failed.
pub open spec fn state_after(
    change: Result<StatChange, ErrorCode>,
    state: BasicStatStateView,
    stat_type: BasicStatTypeView,
) -> Result<BasicStatStateView, ErrorCode> {
    match change {
        Ok(c) => match rebalanced(state, stat_type, c) {
            Some(after) => Ok(after),
            None => Err(ErrorCode::NumericalOverflow),
        },
        Err(e) => Err(e),
    }
}

/// Whether a stat was taken from `before` to the given outcome: on success its state is
/// the new state and its index is kept, on failure nothing of it has changed.
pub open spec fn stat_outcome(
    res: Result<(), ErrorCode>,
    before: BasicStat,
    after: BasicStat,
    expected: Result<BasicStatStateView, ErrorCode>,
) -> bool {
    match expected {
        Ok(state) => res is Ok && after.state.deep_view() == state && after.index == before.index,
        Err(e) => res == Err::<(), ErrorCode>(e) && after == before,
    }
}

/// The quotient of a number of `i64` by 100 fits `i64`.
proof fn lemma_hundredth_fits(x: int)
    requires
        fits_i64(x),
    ensures
        fits_i64(quotient(x, 100)),
{
}

/// A stat, its template, and the effect that changes its base by the signed amount.
pub struct RebalanceStatPermanentlyArgs<'a> {
    pub bie: &'a BasicItemEffect,
    pub bs: &'a mut BasicStat,
    pub bst: &'a BasicStatTemplate,
    pub modded_amount: i64,
}

/// Applies an effect to the base of a stat.
pub fn rebalance_stat_permanently(args: RebalanceStatPermanentlyArgs) -> (res: Result<
    (),
    ErrorCode,
>)
    ensures
        stat_outcome(
            res,
            *old(args.bs),
            *final(args.bs),
            state_after(
                permanent_change(
                    args.bie.item_effect_type,
                    old(args.bs).state.deep_view(),
                    args.modded_amount,
                ),
                old(args.bs).state.deep_view(),
                args.bst.stat_type.deep_view(),
            ),
        ),
{
    let RebalanceStatPermanentlyArgs { bie, bs, bst, modded_amount } = args;
    let current_change: i64 = match bie.item_effect_type {
        BasicItemEffectType::Increment | BasicItemEffectType::Decrement => modded_amount,
        BasicItemEffectType::IncrementPercent | BasicItemEffectType::DecrementPercent => {
            match &bs.state {
                BasicStatState::Integer { current, calculated, .. } => {
                    let factor = match 100i64.checked_add(modded_amount) {
                        Some(v) => v,
                        None => {
                            return Err(ErrorCode::NumericalOverflow);
                        },
                    };
                    let product = match calculated.checked_mul(factor) {
                        Some(v) => v,
                        None => {
                            return Err(ErrorCode::NumericalOverflow);
                        },
                    };
                    proof {
                        lemma_hundredth_fits(product as int);
                    }
                    let share = match product.checked_div(100) {
                        Some(v) => v,
                        None => {
                            return Err(ErrorCode::NumericalOverflow);
                        },
                    };
                    match current.checked_add(share) {
                        Some(v) => v,
                        None => {
                            return Err(ErrorCode::NumericalOverflow);
                        },
                    }
                },
                _ => {
                    return Err(ErrorCode::CannotAlterThisTypeNumerically);
                },
            }
        },
        BasicItemEffectType::IncrementPercentFromBase
        | BasicItemEffectType::DecrementPercentFromBase => match &bs.state {
            BasicStatState::Integer { current, .. } => {
                let product = match modded_amount.checked_mul(*current) {
                    Some(v) => v,
                    None => {
                        return Err(ErrorCode::NumericalOverflow);
                    },
                };
                proof {
                    lemma_hundredth_fits(product as int);
                }
                match product.checked_div(100) {
                    Some(v) => v,
                    None => {
                        return Err(ErrorCode::NumericalOverflow);
                    },
                }
            },
            _ => {
                return Err(ErrorCode::CannotAlterThisTypeNumerically);
            },
        },
    };
    rebalance_basic_stat(
        RebalanceBasicStatArgs {
            basic_stat: bs,
            basic_stat_template: bst,
            current_change,
            ci_change: 0,
            new_calculated_numerator: 1,
            new_calculated_divisor: 1,
        },
    )
}

/// A stat, its template, and the effect that is added to it or taken away from it with
/// the signed amount.
pub struct RebalanceStatTemporarilyArgs<'a> {
    pub bie: &'a BasicItemEffect,
    pub bs: &'a mut BasicStat,
    pub bst: &'a BasicStatTemplate,
    pub modded_amount: i64,
    pub adding: bool,
}

/// Applies an effect to the intermediate or to the calculated value of a stat, so that
/// taking the effect away can undo it.
pub fn rebalance_stat_temporarily(args: RebalanceStatTemporarilyArgs) -> (res: Result<
    (),
    ErrorCode,
>)
    ensures
        stat_outcome(
            res,
            *old(args.bs),
            *final(args.bs),
            state_after(
                temporary_change(
                    args.bie.item_effect_type,
                    old(args.bs).state.deep_view(),
                    args.modded_amount,
                    args.adding,
                ),
                old(args.bs).state.deep_view(),
                args.bst.stat_type.deep_view(),
            ),
        ),
{
    let RebalanceStatTemporarilyArgs { bie, bs, bst, modded_amount, adding } = args;
    let change: StatChange = match bie.item_effect_type {
        BasicItemEffectType::Increment | BasicItemEffectType::Decrement => StatChange {
            current_change: 0,
            ci_change: modded_amount,
            new_calculated_numerator: 1,
            new_calculated_divisor: 1,
        },
        BasicItemEffectType::IncrementPercent | BasicItemEffectType::DecrementPercent => match &bs.state {
            BasicStatState::Integer { .. } => {
                let percent = if adding {
                    modded_amount
                } else {
                    match modded_amount.checked_mul(-1) {
                        Some(v) => v,
                        None => {
                            return Err(ErrorCode::NumericalOverflow);
                        },
                    }
                };
                let factor = match 100i64.checked_add(percent) {
                    Some(v) => v,
                    None => {
                        return Err(ErrorCode::NumericalOverflow);
                    },
                };
                StatChange {
                    current_change: 0,
                    ci_change: 0,
                    new_calculated_numerator: if adding {
                        factor
                    } else {
                        100
                    },
                    new_calculated_divisor: if adding {
                        100
                    } else {
                        factor
                    },
                }
            },
            _ => {
                return Err(ErrorCode::CannotAlterThisTypeNumerically);
            },
        },
        BasicItemEffectType::IncrementPercentFromBase
        | BasicItemEffectType::DecrementPercentFromBase => match &bs.state {
            BasicStatState::Integer { current, .. } => {
                let product = match modded_amount.checked_mul(*current) {
                    Some(v) => v,
                    None => {
                        return Err(ErrorCode::NumericalOverflow);
                    },
                };
                proof {
                    lemma_hundredth_fits(product as int);
                }
                let share = match product.checked_div(100) {
                    Some(v) => v,
                    None => {
                        return Err(ErrorCode::NumericalOverflow);
                    },
                };
                StatChange {
                    current_change: 0,
                    ci_change: share,
                    new_calculated_numerator: 1,
                    new_calculated_divisor: 1,
                }
            },
            _ => {
                return Err(ErrorCode::CannotAlterThisTypeNumerically);
            },
        },
    };
    rebalance_basic_stat(
        RebalanceBasicStatArgs {
            basic_stat: bs,
            basic_stat_template: bst,
            current_change: change.current_change,
            ci_change: change.ci_change,
            new_calculated_numerator: change.new_calculated_numerator,
            new_calculated_divisor: change.new_calculated_divisor,
        },
    )
}

} // verus!
