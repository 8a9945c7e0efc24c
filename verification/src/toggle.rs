use crate::class::PlayerClass;
use crate::effect::{
    get_modded_amount_given_tokens_staked_on_item, modded_amount, permanent_change,
    rebalance_stat_permanently, rebalance_stat_temporarily, state_after, temporary_change,
    GetModdedAmountGivenTokensStakedOnItemArgs, RebalanceStatPermanentlyArgs,
    RebalanceStatTemporarilyArgs,
};
use crate::error::ErrorCode;
use crate::inheritance::Tagged;
use crate::item::{BasicItemEffect, BasicItemEffectView, Item, ItemUsage};
use crate::player::Player;
use crate::rebalance::{rebalance_basic_stat, rebalanced, RebalanceBasicStatArgs, StatChange};
use crate::stat::{
    BasicStat, BasicStatStateView, BasicStatTemplate, BasicStatTemplateView, BasicStatTypeView,
    BasicStatView,
};
use vstd::prelude::*;

verus! {

/// Whether the effects of a usage come from wearing an item or from consuming it.
#[derive(Clone, Copy, Debug, PartialEq, Eq, Structural)]
pub enum StatDiffType {
    Wearable,
    Consumable,
}

/// Whether an effect changes the base of its stat for good: only an effect without a
/// duration on a consumable does.
pub open spec fn is_permanent(effect: BasicItemEffectView, stat_diff_type: StatDiffType) -> bool {
    effect.active_duration is None && stat_diff_type == StatDiffType::Consumable
}

/// The state of a stat after one effect was added or taken away. A permanent effect can
/// only be added; taking it away changes nothing.
pub open spec fn effect_applied(
    state: BasicStatStateView,
    stat_type: BasicStatTypeView,
    effect: BasicItemEffectView,
    amount: u64,
    tokens_staked: u64,
    adding: bool,
    stat_diff_type: StatDiffType,
) -> Result<BasicStatStateView, ErrorCode> {
    match modded_amount(amount, tokens_staked, effect, adding) {
        Some(m) => if is_permanent(effect, stat_diff_type) {
            if adding {
                state_after(
                    permanent_change(effect.item_effect_type, state, m as i64),
                    state,
                    stat_type,
                )
            } else {
                Ok(state)
            }
        } else {
            state_after(
                temporary_change(effect.item_effect_type, state, m as i64, adding),
                state,
                stat_type,
            )
        },
        None => Err(ErrorCode::NumericalOverflow),
    }
}

/// The state of a stat after the effects that name it were applied in order. The first
/// effect that fails ends the row with its error.
pub open spec fn effects_applied(
    state: BasicStatStateView,
    template: BasicStatTemplateView,
    effects: Seq<BasicItemEffectView>,
    amount: u64,
    tokens_staked: u64,
    adding: bool,
    stat_diff_type: StatDiffType,
) -> Result<BasicStatStateView, ErrorCode>
    decreases effects.len(),
{
    if effects.len() == 0 {
        Ok(state)
    } else {
        match effects_applied(
            state,
            template,
            effects.drop_last(),
            amount,
            tokens_staked,
            adding,
            stat_diff_type,
        ) {
            Ok(s) => if effects.last().stat == template.name {
                effect_applied(
                    s,
                    template.stat_type,
                    effects.last(),
                    amount,
                    tokens_staked,
                    adding,
                    stat_diff_type,
                )
            } else {
                Ok(s)
            },
            Err(e) => Err(e),
        }
    }
}

/// The stat slots of a player after the effects of a usage were applied, template by
/// template in the order of the class. Each template works on the slot at its index.
pub open spec fn stats_after_effects(
    stats: Seq<BasicStatView>,
    templates: Seq<Tagged<BasicStatTemplateView>>,
    effects: Seq<BasicItemEffectView>,
    amount: u64,
    tokens_staked: u64,
    adding: bool,
    stat_diff_type: StatDiffType,
) -> Result<Seq<BasicStatView>, ErrorCode>
    decreases templates.len(),
{
    if templates.len() == 0 {
        Ok(stats)
    } else {
        match stats_after_effects(
            stats,
            templates.drop_last(),
            effects,
            amount,
            tokens_staked,
            adding,
            stat_diff_type,
        ) {
            Ok(s) => {
                let template = templates.last().value;
                let slot = template.index as int;
                match effects_applied(
                    s[slot].state,
                    template,
                    effects,
                    amount,
                    tokens_staked,
                    adding,
                    stat_diff_type,
                ) {
                    Ok(state) => Ok(s.update(slot, BasicStatView { index: s[slot].index, state })),
                    Err(e) => Err(e),
                }
            },
            Err(e) => Err(e),
        }
    }
}

/// Every template finds a slot at its index.
pub open spec fn slots_cover(
    templates: Seq<Tagged<BasicStatTemplateView>>,
    slots: nat,
) -> bool {
    forall|i: int| 0 <= i < templates.len() ==> (#[trigger] templates[i]).value.index < slots
}

/// Where a usage has effects, the class has stats and the player has slots, every
/// template finds a slot at its index.
pub open spec fn effects_reach_slots(
    effects: Option<Seq<BasicItemEffectView>>,
    templates: Option<Seq<Tagged<BasicStatTemplateView>>>,
    stats: Option<Seq<BasicStatView>>,
) -> bool {
    match (effects, templates, stats) {
        (Some(_), Some(t), Some(s)) => slots_cover(t, s.len()),
        _ => true,
    }
}

/// Whether every template finds a slot at its index among `slots` slots.
pub fn templates_cover_slots(templates: &Vec<BasicStatTemplate>, slots: usize) -> (covered: bool)
    ensures
        covered == slots_cover(templates.deep_view(), slots as nat),
{
    let mut i: usize = 0;
    while i < templates.len()
        invariant
            i <= templates.len(),
            forall|j: int|
                0 <= j < i ==> (#[trigger] templates.deep_view()[j]).value.index < slots,
        decreases templates.len() - i,
    {
        if templates[i].index as usize >= slots {
            assert(templates.deep_view()[i as int].value.index >= slots);
            return false;
        }
        assert(templates.deep_view()[i as int].value.index == templates[i as int].index);
        i += 1;
    }
    true
}

/// Deep copy of the stat slots of a player.
pub fn duplicate_stats(stats: &Vec<BasicStat>) -> (copy: Vec<BasicStat>)
    ensures
        copy.deep_view() == stats.deep_view(),
{
    let mut copy: Vec<BasicStat> = Vec::new();
    let mut i: usize = 0;
    while i < stats.len()
        invariant
            i <= stats.len(),
            copy.len() == i,
            forall|j: int| 0 <= j < i ==> (#[trigger] copy[j]).deep_view() == stats[j].deep_view(),
        decreases stats.len() - i,
    {
        copy.push(stats[i].duplicate());
        i += 1;
    }
    assert(copy.deep_view() =~= stats.deep_view());
    copy
}

/// Applies one effect to a stat.
fn apply_effect(
    bs: &mut BasicStat,
    bst: &BasicStatTemplate,
    bie: &BasicItemEffect,
    item: &Item,
    amount_change: u64,
    adding: bool,
    stat_diff_type: StatDiffType,
) -> (res: Result<(), ErrorCode>)
    ensures
        match effect_applied(
            old(bs).state.deep_view(),
            bst.stat_type.deep_view(),
            bie.deep_view(),
            amount_change,
            item.tokens_staked,
            adding,
            stat_diff_type,
        ) {
            Ok(state) => res is Ok && final(bs).state.deep_view() == state && final(bs).index
                == old(bs).index,
            Err(e) => res == Err::<(), ErrorCode>(e),
        },
{
    let modded_amount = get_modded_amount_given_tokens_staked_on_item(
        GetModdedAmountGivenTokensStakedOnItemArgs { amount: amount_change, item, bie, adding },
    )?;
    let permanent = match stat_diff_type {
        StatDiffType::Consumable => bie.active_duration.is_none(),
        StatDiffType::Wearable => false,
    };
    if permanent {
        if adding {
            rebalance_stat_permanently(RebalanceStatPermanentlyArgs { bie, bs, bst, modded_amount })
        } else {
            Ok(())
        }
    } else {
        rebalance_stat_temporarily(
            RebalanceStatTemporarilyArgs { bie, bs, bst, modded_amount, adding },
        )
    }
}

/// Applies to a stat the effects that name it.
fn apply_effects(
    bs: &mut BasicStat,
    bst: &BasicStatTemplate,
    bies: &Vec<BasicItemEffect>,
    item: &Item,
    amount_change: u64,
    adding: bool,
    stat_diff_type: StatDiffType,
) -> (res: Result<(), ErrorCode>)
    ensures
        match effects_applied(
            old(bs).state.deep_view(),
            bst.deep_view().value,
            bies.deep_view(),
            amount_change,
            item.tokens_staked,
            adding,
            stat_diff_type,
        ) {
            Ok(state) => res is Ok && final(bs).state.deep_view() == state && final(bs).index
                == old(bs).index,
            Err(e) => res == Err::<(), ErrorCode>(e),
        },
{
    let ghost start = bs.state.deep_view();
    let ghost template = bst.deep_view().value;
    let ghost effects = bies.deep_view();
    let mut i: usize = 0;
    proof {
        assert(effects.take(0) =~= Seq::<BasicItemEffectView>::empty());
    }
    while i < bies.len()
        invariant
            i <= bies.len(),
            start == old(bs).state.deep_view(),
            template == bst.deep_view().value,
            effects == bies.deep_view(),
            bs.index == old(bs).index,
            effects_applied(
                start,
                template,
                effects.take(i as int),
                amount_change,
                item.tokens_staked,
                adding,
                stat_diff_type,
            ) == Ok::<BasicStatStateView, ErrorCode>(bs.state.deep_view()),
        decreases bies.len() - i,
    {
        let bie = &bies[i];
        proof {
            let longer = effects.take(i + 1);
            assert(longer.drop_last() =~= effects.take(i as int));
            assert(longer.last() == bie.deep_view());
            lemma_effects_failure_stays(
                start,
                template,
                effects,
                i + 1,
                amount_change,
                item.tokens_staked,
                adding,
                stat_diff_type,
            );
        }
        if bie.stat == bst.name {
            apply_effect(bs, bst, bie, item, amount_change, adding, stat_diff_type)?;
        }
        i += 1;
    }
    proof {
        assert(effects.take(bies.len() as int) =~= effects);
    }
    Ok(())
}

/// Once a prefix of the effects has failed, the whole row fails with the same error.
proof fn lemma_effects_failure_stays(
    state: BasicStatStateView,
    template: BasicStatTemplateView,
    effects: Seq<BasicItemEffectView>,
    n: int,
    amount: u64,
    tokens_staked: u64,
    adding: bool,
    stat_diff_type: StatDiffType,
)
    requires
        0 <= n <= effects.len(),
    ensures
        effects_applied(state, template, effects.take(n), amount, tokens_staked, adding, stat_diff_type)
            matches Err(e) ==> effects_applied(
            state,
            template,
            effects,
            amount,
            tokens_staked,
            adding,
            stat_diff_type,
        ) == Err::<BasicStatStateView, ErrorCode>(e),
    decreases effects.len() - n,
{
    if n < effects.len() {
        let longer = effects.take(n + 1);
        assert(longer.drop_last() =~= effects.take(n));
        lemma_effects_failure_stays(
            state,
            template,
            effects,
            n + 1,
            amount,
            tokens_staked,
            adding,
            stat_diff_type,
        );
    } else {
        assert(effects.take(n) =~= effects);
    }
}

/// Once a prefix of the templates has failed, the whole row fails with the same error.
proof fn lemma_stats_failure_stays(
    stats: Seq<BasicStatView>,
    templates: Seq<Tagged<BasicStatTemplateView>>,
    n: int,
    effects: Seq<BasicItemEffectView>,
    amount: u64,
    tokens_staked: u64,
    adding: bool,
    stat_diff_type: StatDiffType,
)
    requires
        0 <= n <= templates.len(),
    ensures
        stats_after_effects(
            stats,
            templates.take(n),
            effects,
            amount,
            tokens_staked,
            adding,
            stat_diff_type,
        ) matches Err(e) ==> stats_after_effects(
            stats,
            templates,
            effects,
            amount,
            tokens_staked,
            adding,
            stat_diff_type,
        ) == Err::<Seq<BasicStatView>, ErrorCode>(e),
    decreases templates.len() - n,
{
    if n < templates.len() {
        let longer = templates.take(n + 1);
        assert(longer.drop_last() =~= templates.take(n));
        lemma_stats_failure_stays(
            stats,
            templates,
            n + 1,
            effects,
            amount,
            tokens_staked,
            adding,
            stat_diff_type,
        );
    } else {
        assert(templates.take(n) =~= templates);
    }
}

/// The stat slots of a player after the effects of a usage, where the usage has effects,
/// the class has stats and the player has slots; the slots as they are otherwise.
pub open spec fn toggled_stats(
    stats: Option<Seq<BasicStatView>>,
    templates: Option<Seq<Tagged<BasicStatTemplateView>>>,
    effects: Option<Seq<BasicItemEffectView>>,
    amount: u64,
    tokens_staked: u64,
    adding: bool,
    stat_diff_type: StatDiffType,
) -> Result<Option<Seq<BasicStatView>>, ErrorCode> {
    match (effects, templates, stats) {
        (Some(e), Some(t), Some(s)) => match stats_after_effects(
            s,
            t,
            e,
            amount,
            tokens_staked,
            adding,
            stat_diff_type,
        ) {
            Ok(after) => Ok(Some(after)),
            Err(err) => Err(err),
        },
        _ => Ok(stats),
    }
}

/// A player, its class, and the usage whose effects are added to the stats or taken away
/// from them.
pub struct ToggleItemToBasicStatsArgs<'b, 'c> {
    pub player: &'b mut Player,
    pub player_class: &'b PlayerClass,
    pub item: &'b Item,
    pub item_usage: &'c ItemUsage,
    pub amount_change: u64,
    pub adding: bool,
    pub stat_diff_type: StatDiffType,
}

/// Adds the effects of a usage to the stats of a player, or takes them away. The stats
/// change as a whole or not at all.
pub fn toggle_item_to_basic_stats(args: ToggleItemToBasicStatsArgs) -> (res: Result<(), ErrorCode>)
    requires
        effects_reach_slots(
            args.item_usage.basic_item_effects.deep_view(),
            args.player_class.data.config.basic_stats.deep_view(),
            old(args.player).data.basic_stats.deep_view(),
        ),
    ensures
        match toggled_stats(
            old(args.player).data.basic_stats.deep_view(),
            args.player_class.data.config.basic_stats.deep_view(),
            args.item_usage.basic_item_effects.deep_view(),
            args.amount_change,
            args.item.tokens_staked,
            args.adding,
            args.stat_diff_type,
        ) {
            Ok(stats) => {
                &&& res is Ok
                &&& final(args.player).data.basic_stats.deep_view() == stats
                &&& final(args.player).data.stats_uri == old(args.player).data.stats_uri
                &&& final(args.player).data.category == old(args.player).data.category
                &&& final(args.player).namespaces == old(args.player).namespaces
                &&& final(args.player).parent == old(args.player).parent
                &&& final(args.player).equipped_items == old(args.player).equipped_items
            },
            Err(e) => res == Err::<(), ErrorCode>(e) && *final(args.player) == *old(args.player),
        },
{
    let ToggleItemToBasicStatsArgs {
        player,
        player_class,
        item,
        item_usage,
        amount_change,
        adding,
        stat_diff_type,
    } = args;
    let bies = match &item_usage.basic_item_effects {
        Some(bies) => bies,
        None => {
            return Ok(());
        },
    };
    let bsts = match &player_class.data.config.basic_stats {
        Some(bsts) => bsts,
        None => {
            return Ok(());
        },
    };
    let mut scratch = match &player.data.basic_stats {
        Some(bss) => duplicate_stats(bss),
        None => {
            return Ok(());
        },
    };
    let ghost stats = scratch.deep_view();
    let ghost templates = bsts.deep_view();
    let ghost effects = bies.deep_view();
    let mut i: usize = 0;
    proof {
        assert(templates.take(0) =~= Seq::<Tagged<BasicStatTemplateView>>::empty());
    }
    while i < bsts.len()
        invariant
            i <= bsts.len(),
            templates == bsts.deep_view(),
            effects == bies.deep_view(),
            scratch.len() == stats.len(),
            slots_cover(templates, stats.len()),
            *player == *old(args.player),
            *final(player) == *final(args.player),
            stats_after_effects(
                stats,
                templates.take(i as int),
                effects,
                amount_change,
                item.tokens_staked,
                adding,
                stat_diff_type,
            ) == Ok::<Seq<BasicStatView>, ErrorCode>(scratch.deep_view()),
            args.player_class.data.config.basic_stats.deep_view() == Some(templates),
            args.item_usage.basic_item_effects.deep_view() == Some(effects),
            old(args.player).data.basic_stats.deep_view() == Some(stats),
            args.amount_change == amount_change,
            args.item.tokens_staked == item.tokens_staked,
            args.adding == adding,
            args.stat_diff_type == stat_diff_type,
        decreases bsts.len() - i,
    {
        let bst = &bsts[i];
        let slot = bst.index as usize;
        proof {
            let longer = templates.take(i + 1);
            assert(longer.drop_last() =~= templates.take(i as int));
            assert(longer.last() == bst.deep_view());
            assert(templates[i as int].value.index < stats.len());
            lemma_stats_failure_stays(
                stats,
                templates,
                i + 1,
                effects,
                amount_change,
                item.tokens_staked,
                adding,
                stat_diff_type,
            );
        }
        let ghost before = scratch.deep_view();
        let mut bs = scratch[slot].duplicate();
        proof {
            assert(before[slot as int] == scratch[slot as int].deep_view());
        }
        apply_effects(&mut bs, bst, bies, item, amount_change, adding, stat_diff_type)?;
        scratch[slot] = bs;
        proof {
            assert(scratch.deep_view() =~= before.update(
                slot as int,
                BasicStatView { index: before[slot as int].index, state: bs.state.deep_view() },
            ));
        }
        i += 1;
    }
    proof {
        assert(templates.take(bsts.len() as int) =~= templates);
    }
    player.data.basic_stats = Some(scratch);
    Ok(())
}

} // verus!
