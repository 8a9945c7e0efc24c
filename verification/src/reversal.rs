use crate::effect::{modded_amount, temporary_change};
use crate::inheritance::Tagged;
use crate::reconcile::{distinct_indices, is_covered};
use crate::stat::{BasicStatTemplateView, BasicStatView};
use crate::error::ErrorCode;
use crate::item::{BasicItemEffectType, BasicItemEffectView};
use crate::rebalance::{
    fits_i64, lemma_quotient_by_one, lemma_quotient_negated, lemma_quotient_of_multiple,
    quotient, rebalanced_integer, within_bounds, IntegerStat, StatChange,
};
use crate::stat::{BasicStatStateView, BasicStatTypeView};
use crate::toggle::{
    effect_applied, effects_applied, is_permanent, slots_cover, stats_after_effects, StatDiffType,
};
use vstd::prelude::*;

verus! {

/// A temporary change that a stat takes without loss: the stat lies within its bounds,
/// the change takes the intermediate and the calculated value to no bound, and neither
/// the proportional step nor the ratio leaves a remainder.
pub open spec fn applies_without_loss(
    stat: IntegerStat,
    min: Option<i64>,
    max: Option<i64>,
    change: StatChange,
) -> bool {
    let new_intermediate = stat.calculated_intermediate + change.ci_change;
    let product = stat.calculated * new_intermediate;
    let followed = quotient(product, stat.calculated_intermediate);
    let scaled = followed * change.new_calculated_numerator;
    let new_calculated = quotient(scaled, change.new_calculated_divisor as int);
    &&& within_bounds(stat.current, min, max)
    &&& within_bounds(stat.calculated_intermediate, min, max)
    &&& within_bounds(stat.calculated, min, max)
    &&& within_bounds(new_intermediate, min, max)
    &&& within_bounds(new_calculated, min, max)
    &&& followed * stat.calculated_intermediate == product
    &&& new_calculated * change.new_calculated_divisor == scaled
}

/// The change that undoes a temporary change: the opposite shift and the inverse ratio.
pub open spec fn inverse_change(change: StatChange) -> StatChange {
    StatChange {
        current_change: 0,
        ci_change: (-change.ci_change) as i64,
        new_calculated_numerator: change.new_calculated_divisor,
        new_calculated_divisor: change.new_calculated_numerator,
    }
}

/// A temporary change that is a pure shift or a pure ratio, taken without loss, is undone
/// by its inverse wherever the inverse can be applied.
pub proof fn lemma_rebalance_reversible(
    stat: IntegerStat,
    min: Option<i64>,
    max: Option<i64>,
    change: StatChange,
)
    requires
        change.current_change == 0,
        change.ci_change == 0 || (change.new_calculated_numerator == 1
            && change.new_calculated_divisor == 1),
        change.ci_change != i64::MIN,
        applies_without_loss(stat, min, max, change),
        rebalanced_integer(stat, min, max, change) matches Some(changed) && rebalanced_integer(
            changed,
            min,
            max,
            inverse_change(change),
        ) is Some,
    ensures
        rebalanced_integer(
            rebalanced_integer(stat, min, max, change)->0,
            min,
            max,
            inverse_change(change),
        ) == Some(stat),
{
    let changed = rebalanced_integer(stat, min, max, change)->0;
    let back = inverse_change(change);
    let restored = rebalanced_integer(changed, min, max, back)->0;
    let i0 = stat.calculated_intermediate;
    let k0 = stat.calculated;
    let i1 = i0 + change.ci_change;
    let followed = quotient(k0 * i1, i0);
    let k1 = quotient(
        followed * change.new_calculated_numerator,
        change.new_calculated_divisor as int,
    );
    assert(changed.current == stat.current);
    assert(changed.calculated_intermediate == i1);
    assert(changed.calculated == k1);
    assert(restored.current == stat.current);
    assert(restored.calculated_intermediate == i0);
    if change.ci_change == 0 {
        let n = change.new_calculated_numerator as int;
        let d = change.new_calculated_divisor as int;
        lemma_quotient_of_multiple(k0, i0);
        assert(followed == k0);
        assert(k1 * d == k0 * n);
        lemma_quotient_of_multiple(k1, i0);
        assert(quotient(k1 * i0, i0) == k1);
        lemma_quotient_of_multiple(k0, n);
        assert(quotient(k1 * d, n) == k0);
    } else {
        lemma_quotient_by_one(followed);
        assert(followed * 1 == followed) by (nonlinear_arith);
        assert(k1 == followed);
        assert(k1 * i0 == k0 * i1);
        lemma_quotient_of_multiple(k0, i1);
        assert(quotient(k1 * i0, i1) == k0);
        lemma_quotient_by_one(k0);
        assert(k0 * 1 == k0) by (nonlinear_arith);
    }
    assert(restored.calculated == k0);
}

/// A pure shift that was taken without loss can be taken back, and taking it back gives
/// the stat as it was, unless the shift has brought the intermediate value to zero.
pub proof fn lemma_shift_is_undone(
    stat: IntegerStat,
    min: Option<i64>,
    max: Option<i64>,
    change: StatChange,
)
    requires
        change.current_change == 0,
        change.new_calculated_numerator == 1,
        change.new_calculated_divisor == 1,
        change.ci_change != i64::MIN,
        fits_i64(stat.calculated_intermediate),
        fits_i64(stat.calculated),
        applies_without_loss(stat, min, max, change),
        rebalanced_integer(stat, min, max, change) matches Some(changed)
            && changed.calculated_intermediate != 0,
    ensures
        rebalanced_integer(
            rebalanced_integer(stat, min, max, change)->0,
            min,
            max,
            inverse_change(change),
        ) == Some(stat),
{
    let changed = rebalanced_integer(stat, min, max, change)->0;
    let i0 = stat.calculated_intermediate;
    let k0 = stat.calculated;
    let i1 = i0 + change.ci_change;
    let followed = quotient(k0 * i1, i0);
    lemma_quotient_by_one(followed);
    assert(followed * 1 == followed) by (nonlinear_arith);
    assert(changed.calculated == followed);
    assert(changed.calculated_intermediate == i1);
    assert(followed * i0 == k0 * i1);
    lemma_quotient_of_multiple(k0, i1);
    lemma_quotient_by_one(k0);
    assert(k0 * 1 == k0) by (nonlinear_arith);
    assert(rebalanced_integer(changed, min, max, inverse_change(change)) is Some);
    lemma_rebalance_reversible(stat, min, max, change);
}

/// The three numbers of an integer state.
pub open spec fn integer_of(state: BasicStatStateView) -> IntegerStat {
    match state {
        BasicStatStateView::Integer {
            current,
            calculated_intermediate,
            calculated,
        } => IntegerStat {
            current: current as int,
            calculated_intermediate: calculated_intermediate as int,
            calculated: calculated as int,
        },
        _ => IntegerStat { current: 0, calculated_intermediate: 0, calculated: 0 },
    }
}

/// Whether adding an effect to an integer stat loses nothing: the change that the effect
/// asks for is taken without loss.
pub open spec fn added_without_loss(
    state: BasicStatStateView,
    stat_type: BasicStatTypeView,
    effect: BasicItemEffectView,
    amount: u64,
    tokens_staked: u64,
) -> bool {
    match (
        stat_type,
        modded_amount(amount, tokens_staked, effect, true),
    ) {
        (BasicStatTypeView::Integer { min, max, .. }, Some(m)) => match temporary_change(
            effect.item_effect_type,
            state,
            m as i64,
            true,
        ) {
            Ok(change) => applies_without_loss(integer_of(state), min, max, change),
            Err(_) => false,
        },
        _ => false,
    }
}

/// Reversibility: an effect of any of the six kinds that is added to an integer stat
/// and then taken away again, with the same quantity and the same staked amount, leaves
/// the base, the intermediate and the calculated value as they were. This holds of
/// temporary effects that are added without loss; a stat that was cut to a bound or a
/// quotient that was rounded cannot be restored.
pub proof fn lemma_effect_reversible(
    state: BasicStatStateView,
    stat_type: BasicStatTypeView,
    effect: BasicItemEffectView,
    amount: u64,
    tokens_staked: u64,
    stat_diff_type: StatDiffType,
)
    requires
        state is Integer,
        stat_type is Integer,
        !is_permanent(effect, stat_diff_type),
        added_without_loss(state, stat_type, effect, amount, tokens_staked),
        effect_applied(state, stat_type, effect, amount, tokens_staked, true, stat_diff_type)
            matches Ok(added) && effect_applied(
            added,
            stat_type,
            effect,
            amount,
            tokens_staked,
            false,
            stat_diff_type,
        ) is Ok,
    ensures
        effect_applied(
            effect_applied(state, stat_type, effect, amount, tokens_staked, true, stat_diff_type)->Ok_0,
            stat_type,
            effect,
            amount,
            tokens_staked,
            false,
            stat_diff_type,
        ) == Ok::<BasicStatStateView, ErrorCode>(state),
{
    let kind = effect.item_effect_type;
    let m = modded_amount(amount, tokens_staked, effect, true)->0;
    let back_m = modded_amount(amount, tokens_staked, effect, false)->0;
    assert(back_m == -m);
    let change = temporary_change(kind, state, m as i64, true)->Ok_0;
    let added = effect_applied(
        state,
        stat_type,
        effect,
        amount,
        tokens_staked,
        true,
        stat_diff_type,
    )->Ok_0;
    let (min, max) = match stat_type {
        BasicStatTypeView::Integer { min, max, .. } => (min, max),
        _ => (None, None),
    };
    let stat = integer_of(state);
    let changed = rebalanced_integer(stat, min, max, change)->0;
    assert(integer_of(added) == changed);
    assert(changed.current == stat.current);
    let back = temporary_change(kind, added, back_m as i64, false)->Ok_0;
    match kind {
        BasicItemEffectType::Increment | BasicItemEffectType::Decrement => {
            assert(back == inverse_change(change));
        },
        BasicItemEffectType::IncrementPercent | BasicItemEffectType::DecrementPercent => {
            assert(back == inverse_change(change));
        },
        BasicItemEffectType::IncrementPercentFromBase
        | BasicItemEffectType::DecrementPercentFromBase => {
            lemma_quotient_negated(m * stat.current, 100);
            assert(back_m * stat.current == -(m * stat.current)) by (nonlinear_arith)
                requires
                    back_m == -m,
            ;
            assert(back == inverse_change(change));
        },
    }
    lemma_rebalance_reversible(stat, min, max, change);
}

/// Reversibility of a flat effect: an increment or a decrement that an integer stat has
/// taken without loss can always be taken away again, and the stat is then as it was,
/// unless the effect has brought the intermediate value to zero.
pub proof fn lemma_flat_effect_reversible(
    state: BasicStatStateView,
    stat_type: BasicStatTypeView,
    effect: BasicItemEffectView,
    amount: u64,
    tokens_staked: u64,
    stat_diff_type: StatDiffType,
)
    requires
        state is Integer,
        stat_type is Integer,
        effect.item_effect_type == BasicItemEffectType::Increment || effect.item_effect_type
            == BasicItemEffectType::Decrement,
        !is_permanent(effect, stat_diff_type),
        added_without_loss(state, stat_type, effect, amount, tokens_staked),
        effect_applied(state, stat_type, effect, amount, tokens_staked, true, stat_diff_type)
            matches Ok(added) && integer_of(added).calculated_intermediate != 0,
    ensures
        effect_applied(
            effect_applied(state, stat_type, effect, amount, tokens_staked, true, stat_diff_type)->Ok_0,
            stat_type,
            effect,
            amount,
            tokens_staked,
            false,
            stat_diff_type,
        ) == Ok::<BasicStatStateView, ErrorCode>(state),
{
    let m = modded_amount(amount, tokens_staked, effect, true)->0;
    let change = temporary_change(effect.item_effect_type, state, m as i64, true)->Ok_0;
    let (min, max) = match stat_type {
        BasicStatTypeView::Integer { min, max, .. } => (min, max),
        _ => (None, None),
    };
    let stat = integer_of(state);
    lemma_shift_is_undone(stat, min, max, change);
    let added = effect_applied(
        state,
        stat_type,
        effect,
        amount,
        tokens_staked,
        true,
        stat_diff_type,
    )->Ok_0;
    assert(integer_of(added) == rebalanced_integer(stat, min, max, change)->0);
    let back_m = modded_amount(amount, tokens_staked, effect, false)->0;
    assert(back_m == -m);
    assert(temporary_change(effect.item_effect_type, added, back_m as i64, false)->Ok_0
        == inverse_change(change));
    lemma_effect_reversible(state, stat_type, effect, amount, tokens_staked, stat_diff_type);
}

/// Whether the effects of a usage are undone at one stat: adding them succeeds, and
/// taking them away from what was added gives the state back.
pub open spec fn slot_undone(
    state: BasicStatStateView,
    template: BasicStatTemplateView,
    effects: Seq<BasicItemEffectView>,
    amount: u64,
    tokens_staked: u64,
    stat_diff_type: StatDiffType,
) -> bool {
    effects_applied(state, template, effects, amount, tokens_staked, true, stat_diff_type)
        matches Ok(added) && effects_applied(
        added,
        template,
        effects,
        amount,
        tokens_staked,
        false,
        stat_diff_type,
    ) == Ok::<BasicStatStateView, ErrorCode>(state)
}

/// A usage with a single effect is undone at a stat that the effect does not name, and at
/// an integer stat that it names and that takes the effect without loss, provided the
/// effect is temporary and both steps succeed.
pub proof fn lemma_single_effect_undone(
    state: BasicStatStateView,
    template: BasicStatTemplateView,
    effect: BasicItemEffectView,
    amount: u64,
    tokens_staked: u64,
    stat_diff_type: StatDiffType,
)
    requires
        effect.stat == template.name ==> {
            &&& state is Integer
            &&& template.stat_type is Integer
            &&& !is_permanent(effect, stat_diff_type)
            &&& added_without_loss(state, template.stat_type, effect, amount, tokens_staked)
            &&& effect_applied(
                state,
                template.stat_type,
                effect,
                amount,
                tokens_staked,
                true,
                stat_diff_type,
            ) matches Ok(added) && effect_applied(
                added,
                template.stat_type,
                effect,
                amount,
                tokens_staked,
                false,
                stat_diff_type,
            ) is Ok
        },
    ensures
        slot_undone(state, template, seq![effect], amount, tokens_staked, stat_diff_type),
{
    let effects = seq![effect];
    let none = Seq::<BasicItemEffectView>::empty();
    assert(effects.drop_last() =~= none);
    assert(effects.last() == effect);
    assert(effects_applied(state, template, none, amount, tokens_staked, true, stat_diff_type)
        == Ok::<BasicStatStateView, ErrorCode>(state));
    let added = effects_applied(
        state,
        template,
        effects,
        amount,
        tokens_staked,
        true,
        stat_diff_type,
    )->Ok_0;
    assert(effects_applied(added, template, none, amount, tokens_staked, false, stat_diff_type)
        == Ok::<BasicStatStateView, ErrorCode>(added));
    if effect.stat == template.name {
        lemma_effect_reversible(
            state,
            template.stat_type,
            effect,
            amount,
            tokens_staked,
            stat_diff_type,
        );
    }
}

/// The stats after a pass over the first `n` templates, where the index of every template
/// is distinct: each template has worked on the slot at its index and on no other.
proof fn lemma_pass_known(
    stats: Seq<BasicStatView>,
    templates: Seq<Tagged<BasicStatTemplateView>>,
    n: int,
    effects: Seq<BasicItemEffectView>,
    amount: u64,
    tokens_staked: u64,
    adding: bool,
    stat_diff_type: StatDiffType,
)
    requires
        slots_cover(templates, stats.len()),
        distinct_indices(templates),
        0 <= n <= templates.len(),
        forall|j: int|
            0 <= j < n ==> effects_applied(
                stats[(#[trigger] templates[j]).value.index as int].state,
                templates[j].value,
                effects,
                amount,
                tokens_staked,
                adding,
                stat_diff_type,
            ) is Ok,
    ensures
        stats_after_effects(
            stats,
            templates.take(n),
            effects,
            amount,
            tokens_staked,
            adding,
            stat_diff_type,
        ) matches Ok(after) && after.len() == stats.len() && (forall|j: int|
            0 <= j < n ==> after[(#[trigger] templates[j]).value.index as int] == (BasicStatView {
                index: stats[templates[j].value.index as int].index,
                state: effects_applied(
                    stats[templates[j].value.index as int].state,
                    templates[j].value,
                    effects,
                    amount,
                    tokens_staked,
                    adding,
                    stat_diff_type,
                )->Ok_0,
            })) && (forall|k: int|
            0 <= k < stats.len() && !is_covered(templates.take(n), k) ==> #[trigger] after[k]
                == stats[k]),
    decreases n,
{
    let prefix = templates.take(n);
    if n > 0 {
        let shorter = templates.take(n - 1);
        assert(prefix.drop_last() =~= shorter);
        assert(prefix.last() == templates[n - 1]);
        lemma_pass_known(
            stats,
            templates,
            n - 1,
            effects,
            amount,
            tokens_staked,
            adding,
            stat_diff_type,
        );
        let before = stats_after_effects(
            stats,
            shorter,
            effects,
            amount,
            tokens_staked,
            adding,
            stat_diff_type,
        )->Ok_0;
        let t = templates[n - 1].value;
        let slot = t.index as int;
        assert(!is_covered(shorter, slot)) by {
            if is_covered(shorter, slot) {
                let j = choose|j: int|
                    0 <= j < shorter.len() && (#[trigger] shorter[j]).value.index == slot;
                assert(shorter[j] == templates[j]);
                assert(templates[j].value.index != templates[n - 1].value.index);
            }
        }
        assert(before[slot] == stats[slot]);
        let after = stats_after_effects(
            stats,
            prefix,
            effects,
            amount,
            tokens_staked,
            adding,
            stat_diff_type,
        )->Ok_0;
        assert forall|j: int| 0 <= j < n implies after[(#[trigger] templates[j]).value.index as int]
            == (BasicStatView {
            index: stats[templates[j].value.index as int].index,
            state: effects_applied(
                stats[templates[j].value.index as int].state,
                templates[j].value,
                effects,
                amount,
                tokens_staked,
                adding,
                stat_diff_type,
            )->Ok_0,
        }) by {
            if j < n - 1 {
                assert(templates[j].value.index != templates[n - 1].value.index);
            }
        }
        assert forall|k: int| 0 <= k < stats.len() && !is_covered(prefix, k) implies #[trigger] after[k]
            == stats[k] by {
            assert(prefix[n - 1].value.index != k);
            if is_covered(shorter, k) {
                let j = choose|j: int|
                    0 <= j < shorter.len() && (#[trigger] shorter[j]).value.index == k;
                assert(prefix[j] == shorter[j]);
            }
        }
    } else {
        assert(prefix =~= Seq::<Tagged<BasicStatTemplateView>>::empty());
    }
}

/// Reversibility of a toggle: where the templates of the class carry distinct indices and
/// the effects of the usage are undone at the stat of every template, adding the effects
/// to the stats of a player and taking them away again leaves every stat as it was.
pub proof fn lemma_toggle_reversible(
    stats: Seq<BasicStatView>,
    templates: Seq<Tagged<BasicStatTemplateView>>,
    effects: Seq<BasicItemEffectView>,
    amount: u64,
    tokens_staked: u64,
    stat_diff_type: StatDiffType,
)
    requires
        slots_cover(templates, stats.len()),
        distinct_indices(templates),
        forall|j: int|
            0 <= j < templates.len() ==> slot_undone(
                stats[(#[trigger] templates[j]).value.index as int].state,
                templates[j].value,
                effects,
                amount,
                tokens_staked,
                stat_diff_type,
            ),
    ensures
        stats_after_effects(stats, templates, effects, amount, tokens_staked, true, stat_diff_type)
            matches Ok(added) && stats_after_effects(
            added,
            templates,
            effects,
            amount,
            tokens_staked,
            false,
            stat_diff_type,
        ) == Ok::<Seq<BasicStatView>, ErrorCode>(stats),
{
    let n = templates.len() as int;
    assert(templates.take(n) =~= templates);
    lemma_pass_known(stats, templates, n, effects, amount, tokens_staked, true, stat_diff_type);
    let added = stats_after_effects(
        stats,
        templates,
        effects,
        amount,
        tokens_staked,
        true,
        stat_diff_type,
    )->Ok_0;
    lemma_pass_known(added, templates, n, effects, amount, tokens_staked, false, stat_diff_type);
    let restored = stats_after_effects(
        added,
        templates,
        effects,
        amount,
        tokens_staked,
        false,
        stat_diff_type,
    )->Ok_0;
    assert forall|k: int| 0 <= k < stats.len() implies restored[k] == stats[k] by {
        if is_covered(templates, k) {
            let j = choose|j: int|
                0 <= j < templates.len() && (#[trigger] templates[j]).value.index == k;
            assert(restored[templates[j].value.index as int] == stats[k]);
        } else {
            assert(added[k] == stats[k]);
        }
    }
    assert(restored =~= stats);
}

} // verus!
