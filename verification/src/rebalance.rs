use crate::error::ErrorCode;
use crate::stat::{BasicStat, BasicStatState, BasicStatStateView, BasicStatTemplate, BasicStatType, BasicStatTypeView};
use vstd::prelude::*;

verus! {

/// Whether a number lies in the range of `i64`.
pub open spec fn fits_i64(v: int) -> bool {
    i64::MIN <= v <= i64::MAX
}

/// `v` cut to the upper bound first and to the lower bound after it.
pub open spec fn clamp(v: int, min: Option<i64>, max: Option<i64>) -> int {
    let capped = match max {
        Some(hi) => if hi < v {
            hi as int
        } else {
            v
        },
        None => v,
    };
    match min {
        Some(lo) => if lo > capped {
            lo as int
        } else {
            capped
        },
        None => capped,
    }
}

/// Whether a number lies between the bounds that are present.
pub open spec fn within_bounds(v: int, min: Option<i64>, max: Option<i64>) -> bool {
    (min matches Some(lo) ==> lo <= v) && (max matches Some(hi) ==> v <= hi)
}

/// Whether the lower bound is not above the upper bound.
pub open spec fn bounds_valid(min: Option<i64>, max: Option<i64>) -> bool {
    min matches Some(lo) && max matches Some(hi) ==> lo <= hi
}

/// The quotient of `x` by `d`, rounded towards zero. It is 0 where `d` is 0.
pub open spec fn quotient(x: int, d: int) -> int {
    if d == 0 || x == 0 {
        0
    } else if x > 0 && d > 0 {
        x / d
    } else if x < 0 && d < 0 {
        (x * -1) / (d * -1)
    } else if x < 0 {
        ((x * -1) / d) * -1
    } else {
        (x / (d * -1)) * -1
    }
}

/// What one rebalancing step adds to the base and to the intermediate value of a stat,
/// and the ratio by which it scales the calculated value.
#[derive(Clone, Copy, Debug, PartialEq, Eq, Structural)]
pub struct StatChange {
    pub current_change: i64,
    pub ci_change: i64,
    pub new_calculated_numerator: i64,
    pub new_calculated_divisor: i64,
}

/// The change that adds nothing and scales by one. It still cuts a stat to the bounds of
/// its template.
pub open spec fn no_change() -> StatChange {
    StatChange {
        current_change: 0,
        ci_change: 0,
        new_calculated_numerator: 1,
        new_calculated_divisor: 1,
    }
}

/// The three numbers of an integer stat.
pub struct IntegerStat {
    pub current: int,
    pub calculated_intermediate: int,
    pub calculated: int,
}

/// An integer stat after a rebalancing step, or `None` where a sum or a product leaves the
/// range of `i64` or a divisor is zero. The base takes the permanent change; the
/// intermediate value takes the temporary and the permanent change; the calculated value
/// follows the intermediate value in proportion and is then scaled by the ratio. All three
/// are cut to the bounds.
pub open spec fn rebalanced_integer(
    stat: IntegerStat,
    min: Option<i64>,
    max: Option<i64>,
    change: StatChange,
) -> Option<IntegerStat> {
    let new_current = stat.current + change.current_change;
    let with_temporary = stat.calculated_intermediate + change.ci_change;
    let with_both = with_temporary + change.current_change;
    let new_intermediate = clamp(with_both, min, max);
    let product = stat.calculated * new_intermediate;
    let followed = quotient(product, stat.calculated_intermediate);
    let scaled = followed * change.new_calculated_numerator;
    let new_calculated = quotient(scaled, change.new_calculated_divisor as int);
    if fits_i64(new_current) && fits_i64(with_temporary) && fits_i64(with_both) && fits_i64(
        product,
    ) && stat.calculated_intermediate != 0 && fits_i64(followed) && fits_i64(scaled)
        && change.new_calculated_divisor != 0 && fits_i64(new_calculated) {
        Some(
            IntegerStat {
                current: clamp(new_current, min, max),
                calculated_intermediate: new_intermediate,
                calculated: clamp(new_calculated, min, max),
            },
        )
    } else {
        None
    }
}

/// The state of a stat after a rebalancing step, or `None` where the step overflows.
/// Only an integer state under an integer template is rebalanced; every other state is
/// left as it is.
pub open spec fn rebalanced(
    state: BasicStatStateView,
    stat_type: BasicStatTypeView,
    change: StatChange,
) -> Option<BasicStatStateView> {
    match (state, stat_type) {
        (
            BasicStatStateView::Integer { current, calculated_intermediate, calculated },
            BasicStatTypeView::Integer { min, max, .. },
        ) => match rebalanced_integer(
            IntegerStat {
                current: current as int,
                calculated_intermediate: calculated_intermediate as int,
                calculated: calculated as int,
            },
            min,
            max,
            change,
        ) {
            Some(stat) => Some(
                BasicStatStateView::Integer {
                    current: stat.current as i64,
                    calculated_intermediate: stat.calculated_intermediate as i64,
                    calculated: stat.calculated as i64,
                },
            ),
            None => None,
        },
        _ => Some(state),
    }
}

/// A clamped number lies within valid bounds, and a number within the bounds is not
/// changed by clamping.
pub proof fn lemma_clamp(v: int, min: Option<i64>, max: Option<i64>)
    ensures
        bounds_valid(min, max) ==> within_bounds(clamp(v, min, max), min, max),
        within_bounds(v, min, max) ==> clamp(v, min, max) == v,
        fits_i64(v) ==> fits_i64(clamp(v, min, max)),
{
}

/// The clamp invariant: after every rebalancing step that succeeds, the base, the
/// intermediate and the calculated value of an integer stat lie within the bounds of its
/// template, provided the lower bound is not above the upper bound.
pub proof fn lemma_rebalanced_within_bounds(
    stat: IntegerStat,
    min: Option<i64>,
    max: Option<i64>,
    change: StatChange,
)
    requires
        bounds_valid(min, max),
    ensures
        rebalanced_integer(stat, min, max, change) matches Some(after) ==> {
            &&& within_bounds(after.current, min, max)
            &&& within_bounds(after.calculated_intermediate, min, max)
            &&& within_bounds(after.calculated, min, max)
        },
{
    if let Some(after) = rebalanced_integer(stat, min, max, change) {
        lemma_clamp(stat.current + change.current_change, min, max);
        lemma_clamp(
            stat.calculated_intermediate + change.ci_change + change.current_change,
            min,
            max,
        );
    }
}

/// The quotient of a product by one of its factors is the other factor.
pub proof fn lemma_quotient_of_multiple(a: int, b: int)
    requires
        b != 0,
    ensures
        quotient(a * b, b) == a,
{
    if a == 0 {
        assert(a * b == 0) by (nonlinear_arith)
            requires
                a == 0,
        ;
    } else if a > 0 && b > 0 {
        assert(a * b > 0 && (a * b) / b == a) by (nonlinear_arith)
            requires
                a > 0,
                b > 0,
        ;
    } else if a < 0 && b < 0 {
        assert(a * b > 0 && (a * b) / (b * -1) == -a) by (nonlinear_arith)
            requires
                a < 0,
                b < 0,
        ;
    } else if a > 0 {
        assert(a * b < 0 && ((a * b) * -1) / (b * -1) == a) by (nonlinear_arith)
            requires
                a > 0,
                b < 0,
        ;
    } else {
        assert(a * b < 0 && ((a * b) * -1) / b == -a) by (nonlinear_arith)
            requires
                a < 0,
                b > 0,
        ;
    }
}

/// Rounding towards zero commutes with negation.
pub proof fn lemma_quotient_negated(x: int, d: int)
    ensures
        quotient(-x, d) == -quotient(x, d),
{
}

/// Dividing by one changes nothing.
pub proof fn lemma_quotient_by_one(x: int)
    ensures
        quotient(x, 1) == x,
        quotient(x * 1, 1) == x,
{
}

/// Clamping a second time changes nothing.
pub proof fn lemma_clamp_idempotent(v: int, min: Option<i64>, max: Option<i64>)
    ensures
        clamp(clamp(v, min, max), min, max) == clamp(v, min, max),
{
}

/// A stat that was rebalanced without a change is left as it is by a second such step,
/// unless that step overflows.
pub proof fn lemma_rebalance_without_change_idempotent(
    stat: IntegerStat,
    min: Option<i64>,
    max: Option<i64>,
)
    requires
        rebalanced_integer(stat, min, max, no_change()) is Some,
    ensures
        rebalanced_integer(rebalanced_integer(stat, min, max, no_change())->0, min, max, no_change())
            matches Some(again) ==> again == rebalanced_integer(stat, min, max, no_change())->0,
{
    let once = rebalanced_integer(stat, min, max, no_change())->0;
    if let Some(again) = rebalanced_integer(once, min, max, no_change()) {
        lemma_clamp_idempotent(stat.current + 0, min, max);
        lemma_clamp_idempotent(stat.calculated_intermediate + 0 + 0, min, max);
        let k = once.calculated;
        let i = once.calculated_intermediate;
        lemma_quotient_of_multiple(k, i);
        lemma_quotient_by_one(k);
        assert(k * 1 == k) by (nonlinear_arith);
        let followed = quotient(stat.calculated * i, stat.calculated_intermediate);
        lemma_quotient_by_one(followed);
        assert(followed * 1 == followed) by (nonlinear_arith);
        lemma_clamp_idempotent(followed, min, max);
        assert(again.current == once.current);
        assert(again.calculated_intermediate == once.calculated_intermediate);
        assert(again.calculated == once.calculated);
    }
}

/// The smaller of a bound and a value, as the clamp takes it.
fn cap(max: Option<i64>, v: i64) -> (r: i64)
    ensures
        r == (match max {
            Some(hi) => if hi < v {
                hi
            } else {
                v
            },
            None => v,
        }),
{
    match max {
        Some(m) => if m < v {
            m
        } else {
            v
        },
        None => v,
    }
}

/// Cuts a value to the upper bound and then to the lower bound.
fn clamp_to(v: i64, min: Option<i64>, max: Option<i64>) -> (r: i64)
    ensures
        r == clamp(v as int, min, max),
{
    let capped = cap(max, v);
    match min {
        Some(m) => if m > capped {
            m
        } else {
            capped
        },
        None => capped,
    }
}

/// A stat, its template, and the change to apply.
pub struct RebalanceBasicStatArgs<'a> {
    pub basic_stat: &'a mut BasicStat,
    pub basic_stat_template: &'a BasicStatTemplate,
    pub current_change: i64,
    pub ci_change: i64,
    pub new_calculated_numerator: i64,
    pub new_calculated_divisor: i64,
}

impl<'a> RebalanceBasicStatArgs<'a> {
    /// The change that the arguments ask for.
    pub open spec fn change(self) -> StatChange {
        StatChange {
            current_change: self.current_change,
            ci_change: self.ci_change,
            new_calculated_numerator: self.new_calculated_numerator,
            new_calculated_divisor: self.new_calculated_divisor,
        }
    }
}

/// Applies a permanent change, a temporary additive change and a ratio to a stat. The
/// stat is rebalanced as a whole or not at all.
pub fn rebalance_basic_stat(args: RebalanceBasicStatArgs) -> (res: Result<(), ErrorCode>)
    ensures
        match rebalanced(
            old(args.basic_stat).state.deep_view(),
            args.basic_stat_template.stat_type.deep_view(),
            args.change(),
        ) {
            Some(state) => {
                &&& res is Ok
                &&& final(args.basic_stat).state.deep_view() == state
                &&& final(args.basic_stat).index == old(args.basic_stat).index
            },
            None => {
                &&& res == Err::<(), ErrorCode>(ErrorCode::NumericalOverflow)
                &&& *final(args.basic_stat) == *old(args.basic_stat)
            },
        },
{
    let RebalanceBasicStatArgs {
        basic_stat,
        basic_stat_template,
        current_change,
        ci_change,
        new_calculated_numerator,
        new_calculated_divisor,
    } = args;
    match &basic_stat.state {
        BasicStatState::Integer { current, calculated_intermediate, calculated } => {
            match &basic_stat_template.stat_type {
                BasicStatType::Integer { min, max, .. } => {
                    let min = *min;
                    let max = *max;
                    let current = *current;
                    let calculated_intermediate = *calculated_intermediate;
                    let calculated = *calculated;
                    let new_current = match current.checked_add(current_change) {
                        Some(v) => clamp_to(v, min, max),
                        None => {
                            return Err(ErrorCode::NumericalOverflow);
                        },
                    };
                    let with_temporary = match calculated_intermediate.checked_add(ci_change) {
                        Some(v) => v,
                        None => {
                            return Err(ErrorCode::NumericalOverflow);
                        },
                    };
                    let new_calculated_intermediate = match with_temporary.checked_add(
                        current_change,
                    ) {
                        Some(v) => clamp_to(v, min, max),
                        None => {
                            return Err(ErrorCode::NumericalOverflow);
                        },
                    };
                    let product = match calculated.checked_mul(new_calculated_intermediate) {
                        Some(v) => v,
                        None => {
                            return Err(ErrorCode::NumericalOverflow);
                        },
                    };
                    let followed = match product.checked_div(calculated_intermediate) {
                        Some(v) => v,
                        None => {
                            return Err(ErrorCode::NumericalOverflow);
                        },
                    };
                    let scaled = match followed.checked_mul(new_calculated_numerator) {
                        Some(v) => v,
                        None => {
                            return Err(ErrorCode::NumericalOverflow);
                        },
                    };
                    let new_calculated = match scaled.checked_div(new_calculated_divisor) {
                        Some(v) => clamp_to(v, min, max),
                        None => {
                            return Err(ErrorCode::NumericalOverflow);
                        },
                    };
                    basic_stat.state = BasicStatState::Integer {
                        current: new_current,
                        calculated_intermediate: new_calculated_intermediate,
                        calculated: new_calculated,
                    };
                    Ok(())
                },
                _ => Ok(()),
            }
        },
        _ => Ok(()),
    }
}

} // verus!
