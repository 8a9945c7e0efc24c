use crate::class::{BodyPart, BodyPartView};
use crate::error::ErrorCode;
use crate::inheritance::Tagged;
use crate::item::{
    DNPItem, ItemClassConfig, ItemClassData, ItemClassDataView, ItemClassType, ItemClassTypeView,
    ItemUsage, ItemUsageInfo, ItemUsageInfoView, ItemUsageView,
};
use crate::merkle::{hash_leaf, keys_equal, leaf_hash, merkle_root, verify};
use crate::player::EquippedItem;
use vstd::prelude::*;

verus! {

/// The first usage of an inline list that carries the given index.
pub open spec fn first_usage(usages: Seq<ItemUsageView>, index: u16) -> Option<ItemUsageView>
    decreases usages.len(),
{
    if usages.len() == 0 {
        None
    } else if usages.first().index == index {
        Some(usages.first())
    } else {
        first_usage(usages.drop_first(), index)
    }
}

/// Whether the proof of a candidate usage leads to `root`: the leaf is the hash of the
/// serialized candidate, and the siblings of the proof are folded into it.
pub open spec fn proof_holds(info: ItemUsageInfoView, root: Seq<u8>) -> bool {
    merkle_root(info.item_usage_proof, leaf_hash(info.item_usage_bytes)) == root
}

/// The usage that a request selects. With a candidate and its proof the item class must
/// commit to a root and the proof must lead to it; without one the inline list is searched
/// for the index.
pub open spec fn selected_usage(
    class: ItemClassDataView,
    info: Option<ItemUsageInfoView>,
    index: u16,
) -> Result<ItemUsageView, ErrorCode> {
    match info {
        Some(candidate) => match class.config.usage_root {
            Some(root) => if proof_holds(candidate, root.root@) {
                Ok(candidate.item_usage)
            } else {
                Err(ErrorCode::InvalidProof)
            },
            None => Err(ErrorCode::UsageRootNotPresent),
        },
        None => match class.config.usages {
            Some(usages) => if usages.len() == 0 {
                Err(ErrorCode::CannotEquipItemWithoutUsageOrMerkle)
            } else {
                match first_usage(usages, index) {
                    Some(usage) => Ok(usage),
                    None => Err(ErrorCode::FoundNoMatchingUsage),
                }
            },
            None => Err(ErrorCode::ItemContainsNoUsages),
        },
    }
}

/// Whether an exec result is the given result over models.
pub open spec fn is_usage_result(
    res: Result<ItemUsage, ErrorCode>,
    expected: Result<ItemUsageView, ErrorCode>,
) -> bool {
    match res {
        Ok(usage) => expected == Ok::<ItemUsageView, ErrorCode>(usage.deep_view()),
        Err(e) => expected == Err::<ItemUsageView, ErrorCode>(e),
    }
}

/// Searches an inline usage list for the first usage with the given index.
pub fn select_inline_usage(usages: Vec<ItemUsage>, item_usage_index: u16) -> (res: Result<
    ItemUsage,
    ErrorCode,
>)
    ensures
        is_usage_result(
            res,
            if usages.len() == 0 {
                Err(ErrorCode::CannotEquipItemWithoutUsageOrMerkle)
            } else {
                match first_usage(usages.deep_view(), item_usage_index) {
                    Some(usage) => Ok(usage),
                    None => Err(ErrorCode::FoundNoMatchingUsage),
                }
            },
        ),
{
    let ghost all = usages.deep_view();
    if usages.len() == 0 {
        return Err(ErrorCode::CannotEquipItemWithoutUsageOrMerkle);
    }
    let mut list = usages;
    let mut i: usize = 0;
    proof {
        assert(all.skip(0) =~= all);
    }
    while i < list.len()
        invariant
            i <= list.len(),
            all == list.deep_view(),
            all == usages.deep_view(),
            usages.len() > 0,
            first_usage(all.skip(i as int), item_usage_index) == first_usage(all, item_usage_index),
        decreases list.len() - i,
    {
        proof {
            assert(all.skip(i as int).first() == list[i as int].deep_view());
            assert(all.skip(i as int).drop_first() =~= all.skip(i + 1));
        }
        if list[i].index == item_usage_index {
            let found = list.remove(i);
            return Ok(found);
        }
        i += 1;
    }
    proof {
        assert(all.skip(list.len() as int) =~= Seq::<ItemUsageView>::empty());
    }
    Err(ErrorCode::FoundNoMatchingUsage)
}

/// Resolves the usage of a request, from a candidate with its proof or from the inline
/// list of the item class.
pub fn select_usage(
    item_class_data: ItemClassData,
    item_usage_info: Option<ItemUsageInfo>,
    item_usage_index: u16,
) -> (res: Result<ItemUsage, ErrorCode>)
    ensures
        is_usage_result(
            res,
            selected_usage(
                item_class_data.deep_view(),
                item_usage_info.deep_view(),
                item_usage_index,
            ),
        ),
{
    let ItemClassData { config } = item_class_data;
    let ItemClassConfig { usage_root, usages } = config;
    match item_usage_info {
        Some(ui) => match usage_root {
            Some(root) => {
                let ItemUsageInfo { item_usage_proof, item_usage, item_usage_bytes } = ui;
                let chief_node = hash_leaf(&item_usage_bytes);
                if verify(&item_usage_proof, &root.root, chief_node) {
                    Ok(item_usage)
                } else {
                    Err(ErrorCode::InvalidProof)
                }
            },
            None => Err(ErrorCode::UsageRootNotPresent),
        },
        None => match usages {
            Some(list) => select_inline_usage(list, item_usage_index),
            None => Err(ErrorCode::ItemContainsNoUsages),
        },
    }
}

/// Whether an equipped item is on the do-not-pair list.
pub open spec fn pairs_with_forbidden(dnp: Option<Seq<DNPItem>>, equipped: Seq<EquippedItem>) -> bool {
    dnp matches Some(list) && exists|i: int, j: int|
        0 <= i < list.len() && 0 <= j < equipped.len() && (#[trigger] equipped[j]).item == (
        #[trigger] list[i]).key
}

/// The rule that a selected usage breaks, if any, in the order in which the rules are
/// checked: pairing with itself, the do-not-pair list, then the kind of the usage with
/// the eligible body parts and the limit per part.
pub open spec fn constraint_violation(
    usage: ItemUsageView,
    used_body_part: BodyPartView,
    equipping: bool,
    total_equipped_for_this_item: u64,
    total_equipped_for_this_body_part_for_this_item: u64,
    equipped: Seq<EquippedItem>,
) -> Option<ErrorCode> {
    if usage.do_not_pair_with_self && equipping && total_equipped_for_this_item > 0 {
        Some(ErrorCode::ItemCannotBePairedWithSelf)
    } else if equipping && pairs_with_forbidden(usage.dnp, equipped) {
        Some(ErrorCode::ItemCannotBeEquippedWithDNPEntry)
    } else {
        match usage.item_class_type {
            ItemClassTypeView::Wearable { body_part, limit_per_part } => {
                if !body_part.contains(used_body_part.body_part) {
                    Some(ErrorCode::BodyPartNotEligible)
                } else if limit_per_part matches Some(lpp) && equipping
                    && total_equipped_for_this_body_part_for_this_item > lpp {
                    Some(ErrorCode::BodyPartContainsTooManyOfThisType)
                } else {
                    None
                }
            },
            ItemClassTypeView::Consumable { .. } => Some(ErrorCode::CannotEquipConsumable),
        }
    }
}

/// Whether an equipped item is on the do-not-pair list.
fn any_forbidden_pair(dnp_list: &Vec<DNPItem>, equipped_items: &Vec<EquippedItem>) -> (found: bool)
    ensures
        found == pairs_with_forbidden(Some(dnp_list.deep_view()), equipped_items@),
{
    let ghost list = dnp_list.deep_view();
    let mut i: usize = 0;
    while i < dnp_list.len()
        invariant
            i <= dnp_list.len(),
            list == dnp_list.deep_view(),
            forall|a: int, b: int|
                0 <= a < i && 0 <= b < equipped_items.len() ==> (#[trigger] equipped_items@[b]).item
                    != (#[trigger] list[a]).key,
        decreases dnp_list.len() - i,
    {
        let mut j: usize = 0;
        while j < equipped_items.len()
            invariant
                i < dnp_list.len(),
                j <= equipped_items.len(),
                list == dnp_list.deep_view(),
                forall|a: int, b: int|
                    0 <= a < i && 0 <= b < equipped_items.len() ==> (
                    #[trigger] equipped_items@[b]).item != (#[trigger] list[a]).key,
                forall|b: int|
                    0 <= b < j ==> (#[trigger] equipped_items@[b]).item != list[i as int].key,
            decreases equipped_items.len() - j,
        {
            if keys_equal(&equipped_items[j].item, &dnp_list[i].key) {
                assert(equipped_items@[j as int].item == list[i as int].key);
                return true;
            }
            j += 1;
        }
        i += 1;
    }
    false
}

/// Whether a list of names holds the given name.
fn names_body_part(names: &Vec<String>, name: &String) -> (found: bool)
    ensures
        found == names.deep_view().contains(name@),
{
    let mut i: usize = 0;
    while i < names.len()
        invariant
            i <= names.len(),
            forall|j: int| 0 <= j < i ==> (#[trigger] names.deep_view()[j]) != name@,
        decreases names.len() - i,
    {
        if names[i] == *name {
            assert(names.deep_view()[i as int] == name@);
            return true;
        }
        assert(names.deep_view()[i as int] == names[i as int]@);
        i += 1;
    }
    false
}

/// Checks a selected usage against the pairing rules, the eligible body parts and the
/// limit per part.
pub fn check_usage_constraints(
    usage: &ItemUsage,
    used_body_part: &BodyPart,
    equipping: bool,
    total_equipped_for_this_item: u64,
    total_equipped_for_this_body_part_for_this_item: u64,
    equipped_items: &Vec<EquippedItem>,
) -> (res: Result<(), ErrorCode>)
    ensures
        match res {
            Ok(_) => constraint_violation(
                usage.deep_view(),
                used_body_part.deep_view().value,
                equipping,
                total_equipped_for_this_item,
                total_equipped_for_this_body_part_for_this_item,
                equipped_items@,
            ) is None,
            Err(e) => constraint_violation(
                usage.deep_view(),
                used_body_part.deep_view().value,
                equipping,
                total_equipped_for_this_item,
                total_equipped_for_this_body_part_for_this_item,
                equipped_items@,
            ) == Some(e),
        },
{
    if usage.do_not_pair_with_self && equipping && total_equipped_for_this_item > 0 {
        return Err(ErrorCode::ItemCannotBePairedWithSelf);
    }
    if let Some(dnp_list) = &usage.dnp {
        if equipping {
            if any_forbidden_pair(dnp_list, equipped_items) {
                return Err(ErrorCode::ItemCannotBeEquippedWithDNPEntry);
            }
        }
    }
    match &usage.item_class_type {
        ItemClassType::Wearable { body_part, limit_per_part } => {
            if !names_body_part(body_part, &used_body_part.body_part) {
                return Err(ErrorCode::BodyPartNotEligible);
            }
            if let Some(lpp) = limit_per_part {
                if total_equipped_for_this_body_part_for_this_item > *lpp && equipping {
                    return Err(ErrorCode::BodyPartContainsTooManyOfThisType);
                }
            }
            Ok(())
        },
        ItemClassType::Consumable { .. } => Err(ErrorCode::CannotEquipConsumable),
    }
}

/// Whether an equip would fill the body part beyond its capacity.
pub open spec fn capacity_exceeded(
    used_body_part: BodyPartView,
    equipping: bool,
    total_equipped_for_this_body_part: u64,
) -> bool {
    used_body_part.total_item_spots matches Some(spots) && equipping
        && total_equipped_for_this_body_part > spots
}

/// The outcome of a request: the capacity of the body part is checked first, then the
/// usage is selected, then the selected usage is checked against its constraints.
pub open spec fn appropriate_usage(
    used_body_part: BodyPartView,
    class: ItemClassDataView,
    info: Option<ItemUsageInfoView>,
    index: u16,
    equipping: bool,
    total_equipped_for_this_item: u64,
    total_equipped_for_this_body_part_for_this_item: u64,
    total_equipped_for_this_body_part: u64,
    equipped: Seq<EquippedItem>,
) -> Result<ItemUsageView, ErrorCode> {
    if capacity_exceeded(used_body_part, equipping, total_equipped_for_this_body_part) {
        Err(ErrorCode::BodyPartContainsTooMany)
    } else {
        match selected_usage(class, info, index) {
            Ok(usage) => match constraint_violation(
                usage,
                used_body_part,
                equipping,
                total_equipped_for_this_item,
                total_equipped_for_this_body_part_for_this_item,
                equipped,
            ) {
                Some(e) => Err(e),
                None => Ok(usage),
            },
            Err(e) => Err(e),
        }
    }
}

/// A request to equip or unequip at a body part, with the counts and the equipped set
/// that it is checked on.
pub struct VerifyItemUsageAppropriateForBodyPartArgs<'a> {
    pub used_body_part: &'a BodyPart,
    pub item_usage_index: u16,
    pub item_usage_info: Option<ItemUsageInfo>,
    pub item_class_data: ItemClassData,
    pub equipping: bool,
    /// What is already held of the item, all body parts together.
    pub total_equipped_for_this_item: u64,
    /// What the body part would hold of the item after the request.
    pub total_equipped_for_this_body_part_for_this_item: u64,
    /// What the body part would hold after the request, all items together.
    pub total_equipped_for_this_body_part: u64,
    /// The items that are equipped now.
    pub equipped_items: &'a Vec<EquippedItem>,
}

/// Decides whether an item may go to, or leave, a body part, and returns the usage that
/// applies.
pub fn verify_item_usage_appropriate_for_body_part(
    args: VerifyItemUsageAppropriateForBodyPartArgs,
) -> (res: Result<ItemUsage, ErrorCode>)
    ensures
        is_usage_result(
            res,
            appropriate_usage(
                args.used_body_part.deep_view().value,
                args.item_class_data.deep_view(),
                args.item_usage_info.deep_view(),
                args.item_usage_index,
                args.equipping,
                args.total_equipped_for_this_item,
                args.total_equipped_for_this_body_part_for_this_item,
                args.total_equipped_for_this_body_part,
                args.equipped_items@,
            ),
        ),
{
    let VerifyItemUsageAppropriateForBodyPartArgs {
        used_body_part,
        item_usage_index,
        item_usage_info,
        item_class_data,
        equipping,
        total_equipped_for_this_item,
        total_equipped_for_this_body_part_for_this_item,
        total_equipped_for_this_body_part,
        equipped_items,
    } = args;
    if let Some(tis) = used_body_part.total_item_spots {
        if total_equipped_for_this_body_part > tis && equipping {
            return Err(ErrorCode::BodyPartContainsTooMany);
        }
    }
    let usage_to_check = select_usage(item_class_data, item_usage_info, item_usage_index)?;
    check_usage_constraints(
        &usage_to_check,
        used_body_part,
        equipping,
        total_equipped_for_this_item,
        total_equipped_for_this_body_part_for_this_item,
        equipped_items,
    )?;
    Ok(usage_to_check)
}

} // verus!
