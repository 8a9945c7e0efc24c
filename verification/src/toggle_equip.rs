use crate::class::{BodyPartView, PlayerClass};
use crate::equip::{
    build_new_equipped_items_and_provide_counts, find_used_body_part_from_index, rebuilt,
    used_body_part, BuildNewEquippedItemsAndProvideCountsArgs, EquippedCounts,
};
use crate::error::ErrorCode;
use crate::inheritance::{Pubkey, Tagged};
use crate::item::{
    Item, ItemClassData, ItemClassDataView, ItemUsage, ItemUsageInfo, ItemUsageInfoView,
    ItemUsageView,
};
use crate::player::{EquippedItem, Player};
use crate::recalculate::templates_reach_slots;
use crate::stat::{BasicStatTemplateView, BasicStatView};
use crate::toggle::{
    toggle_item_to_basic_stats, toggled_stats, StatDiffType, ToggleItemToBasicStatsArgs,
};
use crate::usage::{
    appropriate_usage, verify_item_usage_appropriate_for_body_part,
    VerifyItemUsageAppropriateForBodyPartArgs,
};
use vstd::prelude::*;

verus! {

/// What an equip or an unequip leaves behind: the usage that applied, the new equipped
/// set with its counts, and the stats of the player.
pub struct EquipOutcomeView {
    pub item_usage: ItemUsageView,
    pub counts: EquippedCounts,
    pub basic_stats: Option<Seq<BasicStatView>>,
}

/// The outcome of an equip or an unequip. The body part is looked up, the equipped set
/// is rebuilt and counted, the usage is selected and checked against its constraints,
/// and the effects of the usage are added to the stats or taken away from them. The
/// first step that fails gives the error of the request.
pub open spec fn equip_outcome(
    equipped: Seq<EquippedItem>,
    stats: Option<Seq<BasicStatView>>,
    parts: Option<Seq<Tagged<BodyPartView>>>,
    templates: Option<Seq<Tagged<BasicStatTemplateView>>>,
    item_key: Pubkey,
    tokens_staked: u64,
    class: ItemClassDataView,
    info: Option<ItemUsageInfoView>,
    usage_index: u16,
    slot: u16,
    amount: u64,
    equipping: bool,
) -> Result<EquipOutcomeView, ErrorCode> {
    match used_body_part(parts, slot) {
        Ok(part) => match rebuilt(equipped, slot, item_key, amount, equipping) {
            Ok(counts) => match appropriate_usage(
                part.value,
                class,
                info,
                usage_index,
                equipping,
                counts.total_equipped_for_this_item,
                counts.total_equipped_for_this_body_part_for_this_item,
                counts.total_equipped_for_this_body_part,
                equipped,
            ) {
                Ok(item_usage) => match toggled_stats(
                    stats,
                    templates,
                    item_usage.basic_item_effects,
                    amount,
                    tokens_staked,
                    equipping,
                    StatDiffType::Wearable,
                ) {
                    Ok(basic_stats) => Ok(EquipOutcomeView { item_usage, counts, basic_stats }),
                    Err(e) => Err(e),
                },
                Err(e) => Err(e),
            },
            Err(e) => Err(e),
        },
        Err(e) => Err(e),
    }
}

/// A request to equip `amount` units of an item to a body part of a player, or to take
/// them off.
pub struct ToggleEquipItemArgs<'a> {
    pub player: &'a mut Player,
    pub player_class: &'a PlayerClass,
    pub item: &'a Item,
    /// The identifier of the item.
    pub item_key: &'a Pubkey,
    pub item_class_data: ItemClassData,
    pub item_usage_index: u16,
    pub item_usage_info: Option<ItemUsageInfo>,
    pub body_part_index: u16,
    pub amount: u64,
    pub equipping: bool,
}

/// The usage that applied to a request, and the counts that it was checked on.
#[derive(Clone, Debug, PartialEq, Eq)]
pub struct ToggleEquipItemReturn {
    pub item_usage: ItemUsage,
    /// What was held of the item before the request, all body parts together.
    pub total_equipped_for_this_item: u64,
    /// What the body part holds of the item after the request.
    pub total_equipped_for_this_body_part_for_this_item: u64,
    /// What the body part holds after the request, all items together.
    pub total_equipped_for_this_body_part: u64,
}

/// Equips `amount` units of an item to a body part of the player, or takes them off. On
/// success the player holds the new equipped set and the new stats; on failure the player
/// is as it was. The usage that applied is returned, so that the caller can ask the
/// validation program that it names before the player is stored.
pub fn toggle_equip_item(args: ToggleEquipItemArgs) -> (res: Result<
    ToggleEquipItemReturn,
    ErrorCode,
>)
    requires
        templates_reach_slots(
            args.player_class.data.config.basic_stats.deep_view(),
            old(args.player).data.basic_stats.deep_view(),
        ),
    ensures
        match equip_outcome(
            old(args.player).equipped_items@,
            old(args.player).data.basic_stats.deep_view(),
            args.player_class.data.config.body_parts.deep_view(),
            args.player_class.data.config.basic_stats.deep_view(),
            *args.item_key,
            args.item.tokens_staked,
            args.item_class_data.deep_view(),
            args.item_usage_info.deep_view(),
            args.item_usage_index,
            args.body_part_index,
            args.amount,
            args.equipping,
        ) {
            Ok(outcome) => {
                &&& res matches Ok(r)
                &&& r.item_usage.deep_view() == outcome.item_usage
                &&& r.total_equipped_for_this_item == outcome.counts.total_equipped_for_this_item
                &&& r.total_equipped_for_this_body_part_for_this_item
                    == outcome.counts.total_equipped_for_this_body_part_for_this_item
                &&& r.total_equipped_for_this_body_part
                    == outcome.counts.total_equipped_for_this_body_part
                &&& final(args.player).equipped_items@ == outcome.counts.new_eq_items
                &&& final(args.player).data.basic_stats.deep_view() == outcome.basic_stats
                &&& final(args.player).data.stats_uri == old(args.player).data.stats_uri
                &&& final(args.player).data.category == old(args.player).data.category
                &&& final(args.player).namespaces == old(args.player).namespaces
                &&& final(args.player).parent == old(args.player).parent
            },
            Err(e) => res matches Err(err) && err == e && *final(args.player) == *old(args.player),
        },
{
    let ToggleEquipItemArgs {
        player,
        player_class,
        item,
        item_key,
        item_class_data,
        item_usage_index,
        item_usage_info,
        body_part_index,
        amount,
        equipping,
    } = args;
    let used_body_part = find_used_body_part_from_index(player_class, body_part_index)?;
    let built = build_new_equipped_items_and_provide_counts(
        BuildNewEquippedItemsAndProvideCountsArgs {
            player: &*player,
            item: item_key,
            body_part_index,
            amount,
            equipping,
        },
    )?;
    let item_usage = verify_item_usage_appropriate_for_body_part(
        VerifyItemUsageAppropriateForBodyPartArgs {
            used_body_part: &used_body_part,
            item_usage_index,
            item_usage_info,
            item_class_data,
            equipping,
            total_equipped_for_this_item: built.total_equipped_for_this_item,
            total_equipped_for_this_body_part_for_this_item: built.total_equipped_for_this_body_part_for_this_item,
            total_equipped_for_this_body_part: built.total_equipped_for_this_body_part,
            equipped_items: &player.equipped_items,
        },
    )?;
    toggle_item_to_basic_stats(
        ToggleItemToBasicStatsArgs {
            player: &mut *player,
            player_class,
            item,
            item_usage: &item_usage,
            amount_change: amount,
            adding: equipping,
            stat_diff_type: StatDiffType::Wearable,
        },
    )?;
    player.equipped_items = built.new_eq_items;
    Ok(
        ToggleEquipItemReturn {
            item_usage,
            total_equipped_for_this_item: built.total_equipped_for_this_item,
            total_equipped_for_this_body_part_for_this_item: built.total_equipped_for_this_body_part_for_this_item,
            total_equipped_for_this_body_part: built.total_equipped_for_this_body_part,
        },
    )
}

} // verus!
