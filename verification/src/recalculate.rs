use crate::class::PlayerClass;
use crate::error::ErrorCode;
use crate::inheritance::Tagged;
use crate::player::Player;
use crate::rebalance::{no_change, rebalance_basic_stat, rebalanced, RebalanceBasicStatArgs};
use crate::stat::{BasicStatTemplateView, BasicStatView};
use crate::toggle::{duplicate_stats, slots_cover, templates_cover_slots};
use vstd::prelude::*;

verus! {

/// The stat slots of a player after each template of the class has rebalanced the slot
/// at its index without a change. The first template that fails ends the row.
pub open spec fn stats_recalculated(
    stats: Seq<BasicStatView>,
    templates: Seq<Tagged<BasicStatTemplateView>>,
) -> Result<Seq<BasicStatView>, ErrorCode>
    decreases templates.len(),
{
    if templates.len() == 0 {
        Ok(stats)
    } else {
        match stats_recalculated(stats, templates.drop_last()) {
            Ok(s) => {
                let template = templates.last().value;
                let slot = template.index as int;
                match rebalanced(s[slot].state, template.stat_type, no_change()) {
                    Some(state) => Ok(s.update(slot, BasicStatView { index: s[slot].index, state })),
                    None => Err(ErrorCode::NumericalOverflow),
                }
            },
            Err(e) => Err(e),
        }
    }
}

/// The stat slots of a player after a recalculation, where the class has stats and the
/// player has slots; the slots as they are otherwise.
pub open spec fn recalculated(
    stats: Option<Seq<BasicStatView>>,
    templates: Option<Seq<Tagged<BasicStatTemplateView>>>,
) -> Result<Option<Seq<BasicStatView>>, ErrorCode> {
    match (templates, stats) {
        (Some(t), Some(s)) => match stats_recalculated(s, t) {
            Ok(after) => Ok(Some(after)),
            Err(e) => Err(e),
        },
        _ => Ok(stats),
    }
}

/// Where the class has stats and the player has slots, every template finds a slot at its
/// index.
pub open spec fn templates_reach_slots(
    templates: Option<Seq<Tagged<BasicStatTemplateView>>>,
    stats: Option<Seq<BasicStatView>>,
) -> bool {
    match (templates, stats) {
        (Some(t), Some(s)) => slots_cover(t, s.len()),
        _ => true,
    }
}

/// Whether the stats of a player can be worked on under its class: where the class has
/// stats and the player has slots, every template finds a slot at its index. This is
/// what recalculating the stats and applying the effects of a usage ask for.
pub fn stats_reach_slots(player_class: &PlayerClass, player: &Player) -> (reached: bool)
    ensures
        reached == templates_reach_slots(
            player_class.data.config.basic_stats.deep_view(),
            player.data.basic_stats.deep_view(),
        ),
{
    match &player_class.data.config.basic_stats {
        Some(templates) => match &player.data.basic_stats {
            Some(stats) => templates_cover_slots(templates, stats.len()),
            None => true,
        },
        None => true,
    }
}

/// Once a prefix of the templates has failed, the whole row fails with the same error.
proof fn lemma_recalculation_failure_stays(
    stats: Seq<BasicStatView>,
    templates: Seq<Tagged<BasicStatTemplateView>>,
    n: int,
)
    requires
        0 <= n <= templates.len(),
    ensures
        stats_recalculated(stats, templates.take(n)) matches Err(e) ==> stats_recalculated(
            stats,
            templates,
        ) == Err::<Seq<BasicStatView>, ErrorCode>(e),
    decreases templates.len() - n,
{
    if n < templates.len() {
        let longer = templates.take(n + 1);
        assert(longer.drop_last() =~= templates.take(n));
        lemma_recalculation_failure_stays(stats, templates, n + 1);
    } else {
        assert(templates.take(n) =~= templates);
    }
}

/// Rebalances every stat of a player against its template without a change, which cuts
/// the stats to the bounds of the class. The stats change as a whole or not at all.
pub fn recalculate_all_stats(player_class: &PlayerClass, player: &mut Player) -> (res: Result<
    (),
    ErrorCode,
>)
    requires
        templates_reach_slots(
            player_class.data.config.basic_stats.deep_view(),
            old(player).data.basic_stats.deep_view(),
        ),
    ensures
        match recalculated(
            old(player).data.basic_stats.deep_view(),
            player_class.data.config.basic_stats.deep_view(),
        ) {
            Ok(stats) => {
                &&& res is Ok
                &&& final(player).data.basic_stats.deep_view() == stats
                &&& final(player).data.stats_uri == old(player).data.stats_uri
                &&& final(player).data.category == old(player).data.category
                &&& final(player).namespaces == old(player).namespaces
                &&& final(player).parent == old(player).parent
                &&& final(player).equipped_items == old(player).equipped_items
            },
            Err(e) => res == Err::<(), ErrorCode>(e) && *final(player) == *old(player),
        },
{
    let bsts = match &player_class.data.config.basic_stats {
        Some(bsts) => bsts,
        None => {
            return Ok(());
        },
    };
    let mut scratch = match &player.data.basic_stats {
        Some(bss) => duplicate_stats(bss),
        None => {
            return Ok(());
        },
    };
    let ghost stats = scratch.deep_view();
    let ghost templates = bsts.deep_view();
    let mut i: usize = 0;
    proof {
        assert(templates.take(0) =~= Seq::<Tagged<BasicStatTemplateView>>::empty());
    }
    while i < bsts.len()
        invariant
            i <= bsts.len(),
            templates == bsts.deep_view(),
            scratch.len() == stats.len(),
            slots_cover(templates, stats.len()),
            *player == *old(player),
            player_class.data.config.basic_stats.deep_view() == Some(templates),
            old(player).data.basic_stats.deep_view() == Some(stats),
            stats_recalculated(stats, templates.take(i as int)) == Ok::<
                Seq<BasicStatView>,
                ErrorCode,
            >(scratch.deep_view()),
        decreases bsts.len() - i,
    {
        let bst = &bsts[i];
        let slot = bst.index as usize;
        proof {
            let longer = templates.take(i + 1);
            assert(longer.drop_last() =~= templates.take(i as int));
            assert(longer.last() == bst.deep_view());
            assert(templates[i as int].value.index < stats.len());
            lemma_recalculation_failure_stays(stats, templates, i + 1);
        }
        let ghost before = scratch.deep_view();
        let mut bs = scratch[slot].duplicate();
        proof {
            assert(before[slot as int] == scratch[slot as int].deep_view());
        }
        rebalance_basic_stat(
            RebalanceBasicStatArgs {
                basic_stat: &mut bs,
                basic_stat_template: bst,
                current_change: 0,
                ci_change: 0,
                new_calculated_numerator: 1,
                new_calculated_divisor: 1,
            },
        )?;
        scratch[slot] = bs;
        proof {
            assert(scratch.deep_view() =~= before.update(
                slot as int,
                BasicStatView { index: before[slot as int].index, state: bs.state.deep_view() },
            ));
        }
        i += 1;
    }
    proof {
        assert(templates.take(bsts.len() as int) =~= templates);
    }
    player.data.basic_stats = Some(scratch);
    Ok(())
}

} // verus!
