use crate::class::PlayerClass;
use crate::error::ErrorCode;
use crate::inheritance::{duplicate_all, Inherited, Tagged};
use crate::player::{Player, PlayerDataView};
use crate::rebalance::{
    lemma_clamp, lemma_rebalance_without_change_idempotent, no_change, quotient,
    rebalance_basic_stat, rebalanced, rebalanced_integer, IntegerStat, RebalanceBasicStatArgs,
};
use crate::stat::{
    BasicStat, BasicStatState, BasicStatStateView, BasicStatTemplate, BasicStatTemplateView,
    BasicStatType, BasicStatTypeView, BasicStatView,
};
use crate::recalculate::templates_reach_slots;
use crate::toggle::{duplicate_stats, slots_cover, templates_cover_slots};
use vstd::prelude::*;

verus! {

/// The state that a player holds for a stat index: that of the last slot that carries
/// the index and holds a value, `Null` where there is none. A slot without a value is
/// never taken for the slot of an index.
pub open spec fn existing_state(stats: Seq<BasicStatView>, index: u16) -> BasicStatStateView
    decreases stats.len(),
{
    if stats.len() == 0 {
        BasicStatStateView::Null
    } else if stats.last().index == index && stats.last().state !is Null {
        stats.last().state
    } else {
        existing_state(stats.drop_last(), index)
    }
}

/// Whether a value is among the allowed values of an enum stat.
pub open spec fn is_allowed_value(values: Seq<(Seq<char>, u8)>, current: u8) -> bool {
    exists|i: int| 0 <= i < values.len() && (#[trigger] values[i]).1 == current
}

/// The state of a stat after it was brought in line with its template. An enum keeps its
/// value while the template still allows it, a flag or a text keeps its value, and each
/// starts anew where the player held no state of that kind. An integer is never started
/// anew: it is carried over and cut to the bounds, and a missing one is an error.
pub open spec fn reconciled_state(
    stat_type: BasicStatTypeView,
    existing: BasicStatStateView,
) -> Result<BasicStatStateView, ErrorCode> {
    match stat_type {
        BasicStatTypeView::Enum { starting, values } => Ok(
            BasicStatStateView::Enum {
                current: match existing {
                    BasicStatStateView::Enum { current } => if is_allowed_value(values, current) {
                        current
                    } else {
                        starting
                    },
                    _ => starting,
                },
            },
        ),
        BasicStatTypeView::Integer { .. } => match existing {
            BasicStatStateView::Integer { .. } => match rebalanced(existing, stat_type, no_change()) {
                Some(state) => Ok(state),
                None => Err(ErrorCode::NumericalOverflow),
            },
            _ => Err(ErrorCode::Unreachable),
        },
        BasicStatTypeView::Bool { starting } => Ok(
            BasicStatStateView::Bool {
                current: match existing {
                    BasicStatStateView::Bool { current } => current,
                    _ => starting,
                },
            },
        ),
        BasicStatTypeView::String { starting } => Ok(
            BasicStatStateView::String {
                current: match existing {
                    BasicStatStateView::String { current } => current,
                    _ => starting,
                },
            },
        ),
    }
}

/// A slot that no template has filled.
pub open spec fn empty_slot() -> BasicStatView {
    BasicStatView { index: 0, state: BasicStatStateView::Null }
}

/// The slots of a player after the templates were worked through in order: `slots` empty
/// slots, of which each template fills the one at its index. The first template that
/// fails ends the row with its error.
pub open spec fn reconciled_into(
    templates: Seq<Tagged<BasicStatTemplateView>>,
    stats: Seq<BasicStatView>,
    slots: nat,
) -> Result<Seq<BasicStatView>, ErrorCode>
    decreases templates.len(),
{
    if templates.len() == 0 {
        Ok(Seq::new(slots, |i: int| empty_slot()))
    } else {
        match reconciled_into(templates.drop_last(), stats, slots) {
            Ok(filled) => {
                let template = templates.last().value;
                match reconciled_state(template.stat_type, existing_state(stats, template.index)) {
                    Ok(state) => Ok(
                        filled.update(
                            template.index as int,
                            BasicStatView { index: template.index, state },
                        ),
                    ),
                    Err(e) => Err(e),
                }
            },
            Err(e) => Err(e),
        }
    }
}

/// The number of slots that a player of a class has: as many as the class has templates,
/// and no fewer than the player had.
pub open spec fn slot_count(
    templates: Seq<Tagged<BasicStatTemplateView>>,
    stats: Option<Seq<BasicStatView>>,
) -> nat {
    let held = match stats {
        Some(s) => s.len(),
        None => 0,
    };
    if templates.len() >= held {
        templates.len()
    } else {
        held
    }
}

/// The slots of a player after they were reconciled with the templates of its class.
pub open spec fn reconciled_stats(
    templates: Seq<Tagged<BasicStatTemplateView>>,
    stats: Option<Seq<BasicStatView>>,
) -> Result<Seq<BasicStatView>, ErrorCode> {
    reconciled_into(
        templates,
        match stats {
            Some(s) => s,
            None => Seq::empty(),
        },
        slot_count(templates, stats),
    )
}

/// Whether the templates of a class can be laid out over the slots of a player: the index
/// of every template lies below the number of slots.
pub open spec fn templates_fit(
    templates: Option<Seq<Tagged<BasicStatTemplateView>>>,
    stats: Option<Seq<BasicStatView>>,
) -> bool {
    templates matches Some(t) ==> slots_cover(t, slot_count(t, stats))
}

/// The data of a player after the fields of its class were handed down: the address of
/// the stats and the category are taken from the class where the player has none, the
/// slots are reconciled where the class defines stats.
pub open spec fn player_data_after(
    data: PlayerDataView,
    class_stats_uri: Option<Tagged<Seq<char>>>,
    class_category: Option<Tagged<Seq<char>>>,
    templates: Option<Seq<Tagged<BasicStatTemplateView>>>,
) -> Result<PlayerDataView, ErrorCode> {
    let stats = match templates {
        Some(t) => match reconciled_stats(t, data.basic_stats) {
            Ok(s) => Ok(Some(s)),
            Err(e) => Err(e),
        },
        None => Ok(data.basic_stats),
    };
    match stats {
        Ok(basic_stats) => Ok(
            PlayerDataView {
                stats_uri: if data.stats_uri is None {
                    class_stats_uri
                } else {
                    data.stats_uri
                },
                category: if data.category is None {
                    class_category
                } else {
                    data.category
                },
                basic_stats,
            },
        ),
        Err(e) => Err(e),
    }
}

/// Whether the stats of a player can be reconciled with its class: the index of every
/// template lies below the number of slots that the player will have.
pub fn stats_fit(player_class: &PlayerClass, player: &Player) -> (fit: bool)
    ensures
        fit == templates_fit(
            player_class.data.config.basic_stats.deep_view(),
            player.data.basic_stats.deep_view(),
        ),
{
    match &player_class.data.config.basic_stats {
        Some(templates) => {
            let held = match &player.data.basic_stats {
                Some(stats) => stats.len(),
                None => 0,
            };
            let slots = if templates.len() >= held {
                templates.len()
            } else {
                held
            };
            templates_cover_slots(templates, slots)
        },
        None => true,
    }
}

/// Reconciled slots are as many as the class and the player ask for, so that every
/// template that fitted before finds its slot afterwards.
proof fn lemma_reconciled_slots(
    templates: Seq<Tagged<BasicStatTemplateView>>,
    stats: Seq<BasicStatView>,
    slots: nat,
)
    requires
        slots_cover(templates, slots),
    ensures
        reconciled_into(templates, stats, slots) matches Ok(filled) ==> filled.len() == slots,
    decreases templates.len(),
{
    if templates.len() > 0 {
        let earlier = templates.drop_last();
        assert forall|i: int| 0 <= i < earlier.len() implies (#[trigger] earlier[i]).value.index
            < slots by {
            assert(earlier[i] == templates[i]);
        }
        lemma_reconciled_slots(earlier, stats, slots);
    }
}

/// No two templates carry the same index.
pub open spec fn distinct_indices(templates: Seq<Tagged<BasicStatTemplateView>>) -> bool {
    forall|i: int, j: int|
        0 <= i < j < templates.len() ==> (#[trigger] templates[i]).value.index != (
        #[trigger] templates[j]).value.index
}

/// Some template carries the index.
pub open spec fn is_covered(templates: Seq<Tagged<BasicStatTemplateView>>, index: int) -> bool {
    exists|j: int| 0 <= j < templates.len() && (#[trigger] templates[j]).value.index == index
}

/// The slot that a template fills from what the player held.
pub open spec fn filled_slot(
    template: BasicStatTemplateView,
    stats: Seq<BasicStatView>,
) -> BasicStatView {
    BasicStatView {
        index: template.index,
        state: reconciled_state(template.stat_type, existing_state(stats, template.index))->Ok_0,
    }
}

/// Every slot that holds a value stands at the position of its index.
pub open spec fn keyed_by_index(stats: Seq<BasicStatView>) -> bool {
    forall|k: int|
        0 <= k < stats.len() && (#[trigger] stats[k]).state !is Null ==> stats[k].index == k
}

/// A reconciled state holds a value, and reconciling it again gives the same state,
/// unless an integer overflows on the way.
pub proof fn lemma_reconciled_state_idempotent(
    stat_type: BasicStatTypeView,
    existing: BasicStatStateView,
)
    requires
        reconciled_state(stat_type, existing) is Ok,
    ensures
        reconciled_state(stat_type, existing)->Ok_0 !is Null,
        match reconciled_state(stat_type, reconciled_state(stat_type, existing)->Ok_0) {
            Ok(again) => again == reconciled_state(stat_type, existing)->Ok_0,
            Err(e) => e == ErrorCode::NumericalOverflow,
        },
{
    match (stat_type, existing) {
        (
            BasicStatTypeView::Integer { min, max, .. },
            BasicStatStateView::Integer { current, calculated_intermediate, calculated },
        ) => {
            let stat = IntegerStat {
                current: current as int,
                calculated_intermediate: calculated_intermediate as int,
                calculated: calculated as int,
            };
            lemma_rebalance_without_change_idempotent(stat, min, max);
            let once = rebalanced_integer(stat, min, max, no_change())->0;
            lemma_clamp(stat.current + 0, min, max);
            lemma_clamp(stat.calculated_intermediate + 0 + 0, min, max);
            lemma_clamp(
                quotient(
                    quotient(
                        stat.calculated * once.calculated_intermediate,
                        stat.calculated_intermediate,
                    ) * 1,
                    1,
                ),
                min,
                max,
            );
        },
        _ => {},
    }
}

/// In a row of slots that is keyed by index, the state held for an index is the state
/// of the slot at that position.
proof fn lemma_existing_state_by_position(stats: Seq<BasicStatView>, index: u16, n: int)
    requires
        keyed_by_index(stats),
        0 <= n <= stats.len(),
    ensures
        existing_state(stats.take(n), index) == (if index < n && stats[index as int].state !is Null {
            stats[index as int].state
        } else {
            BasicStatStateView::Null
        }),
    decreases n,
{
    if n > 0 {
        let shorter = stats.take(n);
        assert(shorter.last() == stats[n - 1]);
        assert(shorter.drop_last() =~= stats.take(n - 1));
        lemma_existing_state_by_position(stats, index, n - 1);
    }
}

/// What the slots hold after a class with distinct template indices was worked through:
/// each template has filled the slot at its index, and every other slot is empty.
proof fn lemma_reconciled_slots_known(
    templates: Seq<Tagged<BasicStatTemplateView>>,
    stats: Seq<BasicStatView>,
    slots: nat,
)
    requires
        slots_cover(templates, slots),
        distinct_indices(templates),
        reconciled_into(templates, stats, slots) is Ok,
    ensures
        ({
            let filled = reconciled_into(templates, stats, slots)->Ok_0;
            &&& filled.len() == slots
            &&& keyed_by_index(filled)
            &&& forall|j: int|
                0 <= j < templates.len() ==> filled[(#[trigger] templates[j]).value.index as int]
                    == filled_slot(templates[j].value, stats) && reconciled_state(
                    templates[j].value.stat_type,
                    existing_state(stats, templates[j].value.index),
                ) is Ok
            &&& forall|k: int|
                0 <= k < slots && !is_covered(templates, k) ==> #[trigger] filled[k] == empty_slot()
        }),
    decreases templates.len(),
{
    let filled = reconciled_into(templates, stats, slots)->Ok_0;
    if templates.len() > 0 {
        let earlier = templates.drop_last();
        let last = templates.last().value;
        assert forall|i: int| 0 <= i < earlier.len() implies (#[trigger] earlier[i]).value.index
            < slots by {
            assert(earlier[i] == templates[i]);
        }
        assert forall|i: int, j: int| 0 <= i < j < earlier.len() implies (
        #[trigger] earlier[i]).value.index != (#[trigger] earlier[j]).value.index by {
            assert(earlier[i] == templates[i]);
            assert(earlier[j] == templates[j]);
        }
        lemma_reconciled_slots_known(earlier, stats, slots);
        let before = reconciled_into(earlier, stats, slots)->Ok_0;
        lemma_reconciled_state_idempotent(last.stat_type, existing_state(stats, last.index));
        assert(templates[templates.len() - 1].value == last);
        assert(filled == before.update(last.index as int, filled_slot(last, stats)));
        assert forall|j: int| 0 <= j < templates.len() implies filled[(
        #[trigger] templates[j]).value.index as int] == filled_slot(templates[j].value, stats)
            && reconciled_state(
            templates[j].value.stat_type,
            existing_state(stats, templates[j].value.index),
        ) is Ok by {
            if j < templates.len() - 1 {
                assert(earlier[j] == templates[j]);
                assert(templates[j].value.index != templates[templates.len() - 1].value.index);
            }
        }
        assert forall|k: int| 0 <= k < slots && !is_covered(templates, k) implies #[trigger] filled[k]
            == empty_slot() by {
            assert(last.index != k);
            if is_covered(earlier, k) {
                let j = choose|j: int|
                    0 <= j < earlier.len() && (#[trigger] earlier[j]).value.index == k;
                assert(templates[j] == earlier[j]);
            }
        }
        assert forall|k: int|
            0 <= k < filled.len() && (#[trigger] filled[k]).state !is Null implies filled[k].index
            == k by {
            if k != last.index {
                assert(before[k].state !is Null);
            }
        }
    }
}

/// The second pass over slots that a first pass has filled: the templates worked through
/// so far have put back what the first pass left at their slots.
proof fn lemma_second_pass(
    templates: Seq<Tagged<BasicStatTemplateView>>,
    stats: Seq<BasicStatView>,
    slots: nat,
    n: int,
)
    requires
        slots_cover(templates, slots),
        distinct_indices(templates),
        reconciled_into(templates, stats, slots) is Ok,
        0 <= n <= templates.len(),
    ensures
        match reconciled_into(
            templates.take(n),
            reconciled_into(templates, stats, slots)->Ok_0,
            slots,
        ) {
            Ok(again) => {
                &&& again.len() == slots
                &&& forall|k: int|
                    0 <= k < slots ==> #[trigger] again[k] == (if is_covered(templates.take(n), k) {
                        reconciled_into(templates, stats, slots)->Ok_0[k]
                    } else {
                        empty_slot()
                    })
            },
            Err(e) => e == ErrorCode::NumericalOverflow,
        },
    decreases n,
{
    let first = reconciled_into(templates, stats, slots)->Ok_0;
    lemma_reconciled_slots_known(templates, stats, slots);
    if n > 0 {
        let prefix = templates.take(n);
        let shorter = templates.take(n - 1);
        assert(prefix.drop_last() =~= shorter);
        assert(prefix.last() == templates[n - 1]);
        lemma_second_pass(templates, stats, slots, n - 1);
        if let Ok(before) = reconciled_into(shorter, first, slots) {
            let t = templates[n - 1].value;
            let held = existing_state(stats, t.index);
            lemma_reconciled_state_idempotent(t.stat_type, held);
            assert(first[t.index as int] == filled_slot(t, stats));
            lemma_existing_state_by_position(first, t.index, first.len() as int);
            assert(first.take(first.len() as int) =~= first);
            assert(existing_state(first, t.index) == first[t.index as int].state);
            if let Ok(again) = reconciled_into(prefix, first, slots) {
                assert(again == before.update(t.index as int, first[t.index as int]));
                assert forall|k: int| 0 <= k < slots implies #[trigger] again[k] == (if is_covered(
                    prefix,
                    k,
                ) {
                    first[k]
                } else {
                    empty_slot()
                }) by {
                    if k == t.index {
                        assert(prefix[n - 1].value.index == k);
                    } else {
                        if is_covered(shorter, k) {
                            let j = choose|j: int|
                                0 <= j < shorter.len() && (#[trigger] shorter[j]).value.index == k;
                            assert(prefix[j] == shorter[j]);
                        }
                        if is_covered(prefix, k) {
                            let j = choose|j: int|
                                0 <= j < prefix.len() && (#[trigger] prefix[j]).value.index == k;
                            assert(j != n - 1);
                            assert(shorter[j] == prefix[j]);
                        }
                    }
                }
            }
        }
    } else {
        assert(templates.take(0) =~= Seq::<Tagged<BasicStatTemplateView>>::empty());
    }
}

/// Reconciling is idempotent: under a class whose templates carry distinct indices, a
/// second reconciliation of slots that were reconciled leaves every slot as it is. The
/// one way in which it can fail is an integer stat that can no longer be rebalanced.
pub proof fn lemma_reconcile_idempotent(
    templates: Seq<Tagged<BasicStatTemplateView>>,
    stats: Option<Seq<BasicStatView>>,
)
    requires
        templates_fit(Some(templates), stats),
        distinct_indices(templates),
        reconciled_stats(templates, stats) is Ok,
    ensures
        templates_fit(Some(templates), Some(reconciled_stats(templates, stats)->Ok_0)),
        match reconciled_stats(templates, Some(reconciled_stats(templates, stats)->Ok_0)) {
            Ok(again) => again == reconciled_stats(templates, stats)->Ok_0,
            Err(e) => e == ErrorCode::NumericalOverflow,
        },
{
    let held = match stats {
        Some(s) => s,
        None => Seq::empty(),
    };
    let slots = slot_count(templates, stats);
    let first = reconciled_into(templates, held, slots)->Ok_0;
    lemma_reconciled_slots_known(templates, held, slots);
    assert(slot_count(templates, Some(first)) == slots);
    lemma_second_pass(templates, held, slots, templates.len() as int);
    assert(templates.take(templates.len() as int) =~= templates);
    if let Ok(again) = reconciled_into(templates, first, slots) {
        assert(again =~= first);
    }
}

/// Handing the fields of a class down to a player a second time changes nothing of the
/// data of the player, under a class whose templates carry distinct indices. The one way
/// in which the second time can fail is an integer stat that can no longer be rebalanced.
pub proof fn lemma_player_data_idempotent(
    data: PlayerDataView,
    class_stats_uri: Option<Tagged<Seq<char>>>,
    class_category: Option<Tagged<Seq<char>>>,
    templates: Option<Seq<Tagged<BasicStatTemplateView>>>,
)
    requires
        templates_fit(templates, data.basic_stats),
        templates matches Some(t) ==> distinct_indices(t),
        player_data_after(data, class_stats_uri, class_category, templates) is Ok,
    ensures
        match player_data_after(
            player_data_after(data, class_stats_uri, class_category, templates)->Ok_0,
            class_stats_uri,
            class_category,
            templates,
        ) {
            Ok(again) => again == player_data_after(
                data,
                class_stats_uri,
                class_category,
                templates,
            )->Ok_0,
            Err(e) => e == ErrorCode::NumericalOverflow,
        },
{
    if let Some(t) = templates {
        lemma_reconcile_idempotent(t, data.basic_stats);
    }
}

/// Once a prefix of the templates has failed, the whole row fails with the same error.
proof fn lemma_reconcile_failure_stays(
    templates: Seq<Tagged<BasicStatTemplateView>>,
    n: int,
    stats: Seq<BasicStatView>,
    slots: nat,
)
    requires
        0 <= n <= templates.len(),
    ensures
        reconciled_into(templates.take(n), stats, slots) matches Err(e) ==> reconciled_into(
            templates,
            stats,
            slots,
        ) == Err::<Seq<BasicStatView>, ErrorCode>(e),
    decreases templates.len() - n,
{
    if n < templates.len() {
        let longer = templates.take(n + 1);
        assert(longer.drop_last() =~= templates.take(n));
        lemma_reconcile_failure_stays(templates, n + 1, stats, slots);
    } else {
        assert(templates.take(n) =~= templates);
    }
}

/// Finds the state that a player holds for a stat index.
fn find_existing(stats: &Vec<BasicStat>, index: u16) -> (found: Option<usize>)
    ensures
        match found {
            Some(k) => k < stats.len() && existing_state(stats.deep_view(), index)
                == stats[k as int].state.deep_view(),
            None => existing_state(stats.deep_view(), index) == BasicStatStateView::Null,
        },
{
    let ghost all = stats.deep_view();
    let mut i: usize = stats.len();
    proof {
        assert(all.take(i as int) =~= all);
    }
    while i > 0
        invariant
            i <= stats.len(),
            all == stats.deep_view(),
            existing_state(all.take(i as int), index) == existing_state(all, index),
        decreases i,
    {
        proof {
            let shorter = all.take(i as int);
            assert(shorter.last() == stats[i as int - 1].deep_view());
            assert(shorter.drop_last() =~= all.take(i as int - 1));
        }
        i -= 1;
        if stats[i].index == index {
            let holds_value = match &stats[i].state {
                BasicStatState::Null => false,
                _ => true,
            };
            if holds_value {
                return Some(i);
            }
        }
    }
    proof {
        assert(all.take(0) =~= Seq::<BasicStatView>::empty());
    }
    None
}

/// Whether a value is among the allowed values of an enum stat.
fn is_allowed(values: &Vec<(String, u8)>, current: u8) -> (found: bool)
    ensures
        found == is_allowed_value(values.deep_view(), current),
{
    let mut i: usize = 0;
    while i < values.len()
        invariant
            i <= values.len(),
            forall|j: int| 0 <= j < i ==> (#[trigger] values.deep_view()[j]).1 != current,
        decreases values.len() - i,
    {
        if values[i].1 == current {
            assert(values.deep_view()[i as int].1 == current);
            return true;
        }
        assert(values.deep_view()[i as int] == values[i as int].deep_view());
        i += 1;
    }
    false
}

/// Brings one stat in line with its template.
fn reconcile_stat(template: &BasicStatTemplate, existing: &BasicStatState) -> (res: Result<
    BasicStat,
    ErrorCode,
>)
    ensures
        match reconciled_state(template.stat_type.deep_view(), existing.deep_view()) {
            Ok(state) => res matches Ok(stat) && stat.deep_view() == (BasicStatView {
                index: template.index,
                state,
            }),
            Err(e) => res matches Err(err) && err == e,
        },
{
    let state = match &template.stat_type {
        BasicStatType::Enum { starting, values } => match existing {
            BasicStatState::Enum { current } => BasicStatState::Enum {
                current: if is_allowed(values, *current) {
                    *current
                } else {
                    *starting
                },
            },
            _ => BasicStatState::Enum { current: *starting },
        },
        BasicStatType::Integer { .. } => match existing {
            BasicStatState::Integer { .. } => {
                let mut carried = BasicStat { index: template.index, state: existing.duplicate() };
                rebalance_basic_stat(
                    RebalanceBasicStatArgs {
                        basic_stat: &mut carried,
                        basic_stat_template: template,
                        current_change: 0,
                        ci_change: 0,
                        new_calculated_numerator: 1,
                        new_calculated_divisor: 1,
                    },
                )?;
                return Ok(carried);
            },
            _ => {
                return Err(ErrorCode::Unreachable);
            },
        },
        BasicStatType::Bool { starting } => match existing {
            BasicStatState::Bool { current } => BasicStatState::Bool { current: *current },
            _ => BasicStatState::Bool { current: *starting },
        },
        BasicStatType::String { starting } => match existing {
            BasicStatState::String { current } => BasicStatState::String {
                current: current.clone(),
            },
            _ => BasicStatState::String { current: starting.clone() },
        },
    };
    Ok(BasicStat { index: template.index, state })
}

/// Lays the templates of a class out over the slots of a player.
fn reconcile_stats(templates: &Vec<BasicStatTemplate>, stats: &Option<Vec<BasicStat>>) -> (res:
    Result<Vec<BasicStat>, ErrorCode>)
    requires
        templates_fit(Some(templates.deep_view()), stats.deep_view()),
    ensures
        match reconciled_stats(templates.deep_view(), stats.deep_view()) {
            Ok(slots) => res matches Ok(v) && v.deep_view() == slots,
            Err(e) => res matches Err(err) && err == e,
        },
{
    let held: Vec<BasicStat> = match stats {
        Some(s) => duplicate_stats(s),
        None => Vec::new(),
    };
    let slots: usize = if templates.len() >= held.len() {
        templates.len()
    } else {
        held.len()
    };
    let ghost all = templates.deep_view();
    let ghost before = held.deep_view();
    assert(before == match stats.deep_view() {
        Some(s) => s,
        None => Seq::empty(),
    });
    let mut new_values: Vec<BasicStat> = Vec::new();
    let mut k: usize = 0;
    while k < slots
        invariant
            k <= slots,
            new_values.len() == k,
            forall|j: int| 0 <= j < k ==> (#[trigger] new_values[j]).deep_view() == empty_slot(),
        decreases slots - k,
    {
        new_values.push(BasicStat { index: 0, state: BasicStatState::Null });
        k += 1;
    }
    let mut i: usize = 0;
    proof {
        assert(all.take(0) =~= Seq::<Tagged<BasicStatTemplateView>>::empty());
        assert(new_values.deep_view() =~= Seq::new(slots as nat, |i: int| empty_slot()));
    }
    while i < templates.len()
        invariant
            i <= templates.len(),
            all == templates.deep_view(),
            before == held.deep_view(),
            before == (match stats.deep_view() {
                Some(s) => s,
                None => Seq::empty(),
            }),
            slots as nat == slot_count(all, stats.deep_view()),
            new_values.len() == slots,
            slots_cover(all, slots as nat),
            reconciled_into(all.take(i as int), before, slots as nat) == Ok::<
                Seq<BasicStatView>,
                ErrorCode,
            >(new_values.deep_view()),
        decreases templates.len() - i,
    {
        let template = &templates[i];
        proof {
            let longer = all.take(i + 1);
            assert(longer.drop_last() =~= all.take(i as int));
            assert(longer.last() == template.deep_view());
            assert(all[i as int].value.index < slots);
            lemma_reconcile_failure_stays(all, i + 1, before, slots as nat);
        }
        let ghost filled = new_values.deep_view();
        let reconciled = match find_existing(&held, template.index) {
            Some(pos) => reconcile_stat(template, &held[pos].state),
            None => reconcile_stat(template, &BasicStatState::Null),
        };
        match reconciled {
            Ok(stat) => {
                new_values[template.index as usize] = stat;
                proof {
                    assert(new_values.deep_view() =~= filled.update(
                        template.index as int,
                        stat.deep_view(),
                    ));
                }
            },
            Err(e) => {
                return Err(e);
            },
        }
        i += 1;
    }
    proof {
        assert(all.take(templates.len() as int) =~= all);
    }
    Ok(new_values)
}

/// Hands the fields of a player class down to a player: the namespaces are taken over,
/// the address of the stats and the category are filled in where the player has none,
/// and the stat slots are reconciled with the templates of the class. The player changes
/// as a whole or not at all.
pub fn propagate_player_class_data_fields_to_player_data(
    player: &mut Player,
    player_class: &PlayerClass,
) -> (res: Result<(), ErrorCode>)
    requires
        templates_fit(
            player_class.data.config.basic_stats.deep_view(),
            old(player).data.basic_stats.deep_view(),
        ),
    ensures
        match player_data_after(
            old(player).data.deep_view(),
            player_class.data.config.starting_stats_uri.deep_view(),
            player_class.data.settings.default_category.deep_view(),
            player_class.data.config.basic_stats.deep_view(),
        ) {
            Ok(data) => {
                &&& res is Ok
                &&& final(player).data.deep_view() == data
                &&& final(player).namespaces.deep_view() == player_class.namespaces.deep_view()
                &&& final(player).parent == old(player).parent
                &&& final(player).equipped_items == old(player).equipped_items
                &&& templates_reach_slots(
                    player_class.data.config.basic_stats.deep_view(),
                    final(player).data.basic_stats.deep_view(),
                )
            },
            Err(e) => res == Err::<(), ErrorCode>(e) && *final(player) == *old(player),
        },
{
    proof {
        if let Some(templates) = player_class.data.config.basic_stats.deep_view() {
            let stats = old(player).data.basic_stats.deep_view();
            lemma_reconciled_slots(
                templates,
                match stats {
                    Some(s) => s,
                    None => Seq::empty(),
                },
                slot_count(templates, stats),
            );
        }
    }
    let new_stats: Option<Vec<BasicStat>> = match &player_class.data.config.basic_stats {
        Some(player_stats) => Some(reconcile_stats(player_stats, &player.data.basic_stats)?),
        None => None,
    };
    player.namespaces = match &player_class.namespaces {
        Some(namespaces) => Some(duplicate_all(namespaces)),
        None => None,
    };
    if player.data.stats_uri.is_none() {
        player.data.stats_uri = match &player_class.data.config.starting_stats_uri {
            Some(uri) => Some(uri.duplicate()),
            None => None,
        };
    }
    if player.data.category.is_none() {
        player.data.category = match &player_class.data.settings.default_category {
            Some(category) => Some(category.duplicate()),
            None => None,
        };
    }
    if let Some(stats) = new_stats {
        player.data.basic_stats = Some(stats);
    }
    Ok(())
}

} // verus!
