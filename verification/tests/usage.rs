use anchor_lang::solana_program::keccak;
use raindrops_player::class::{BodyPart, Callback};
use raindrops_player::error::ErrorCode;
use raindrops_player::inheritance::InheritanceState;
use raindrops_player::item::{
    BasicItemEffect, BasicItemEffectType, DNPItem, ItemClassConfig, ItemClassData, ItemClassType,
    ItemUsage, ItemUsageInfo, ItemUsageType, Root,
};
use raindrops_player::merkle::{hash_le, hash_leaf, hash_node, keys_equal, verify};
use raindrops_player::player::EquippedItem;
use raindrops_player::usage::{
    check_usage_constraints, select_inline_usage, select_usage,
    verify_item_usage_appropriate_for_body_part, VerifyItemUsageAppropriateForBodyPartArgs,
};

const SWORD: [u8; 32] = [1u8; 32];
const SHIELD: [u8; 32] = [2u8; 32];
const CURSE: [u8; 32] = [3u8; 32];

fn wearable(index: u16, parts: &[&str], limit: Option<u64>) -> ItemUsage {
    ItemUsage {
        index,
        basic_item_effects: Some(vec![BasicItemEffect {
            amount: index as u64,
            stat: "strength".to_string(),
            item_effect_type: BasicItemEffectType::Increment,
            active_duration: None,
            staking_amount_numerator: None,
            staking_amount_divisor: None,
        }]),
        item_class_type: ItemClassType::Wearable {
            body_part: parts.iter().map(|p| p.to_string()).collect(),
            limit_per_part: limit,
        },
        validation: Some(Callback { key: [8u8; 32], code: index as u64 }),
        do_not_pair_with_self: false,
        dnp: None,
    }
}

fn consumable(index: u16) -> ItemUsage {
    ItemUsage {
        index,
        basic_item_effects: None,
        item_class_type: ItemClassType::Consumable {
            uses: 3,
            max_players_per_use: None,
            item_usage_type: ItemUsageType::Exhaustion,
        },
        validation: None,
        do_not_pair_with_self: false,
        dnp: None,
    }
}

fn hand(spots: Option<u64>) -> BodyPart {
    BodyPart {
        index: 0,
        body_part: "hand".to_string(),
        total_item_spots: spots,
        inherited: InheritanceState::NotInherited,
    }
}

fn class(root: Option<[u8; 32]>, usages: Option<Vec<ItemUsage>>) -> ItemClassData {
    ItemClassData {
        config: ItemClassConfig {
            usage_root: root.map(|root| Root { inherited: InheritanceState::NotInherited, root }),
            usages,
        },
    }
}

fn leaf(bytes: &[u8]) -> [u8; 32] {
    keccak::hashv(&[&[0x00], bytes]).0
}

fn node(a: &[u8; 32], b: &[u8; 32]) -> [u8; 32] {
    if a <= b {
        keccak::hashv(&[&[0x01], a, b]).0
    } else {
        keccak::hashv(&[&[0x01], b, a]).0
    }
}

/// A tree over three serialized usages: the first two share a node, the third is paired
/// with that node.
fn tree_of_three(bytes: [&[u8]; 3]) -> ([u8; 32], [Vec<[u8; 32]>; 3]) {
    let l0 = leaf(bytes[0]);
    let l1 = leaf(bytes[1]);
    let l2 = leaf(bytes[2]);
    let n01 = node(&l0, &l1);
    let root = node(&n01, &l2);
    (root, [vec![l1, l2], vec![l0, l2], vec![n01]])
}

fn check(
    usage: &ItemUsage,
    part: &BodyPart,
    equipping: bool,
    for_item: u64,
    for_part_and_item: u64,
    equipped: &Vec<EquippedItem>,
) -> Result<(), ErrorCode> {
    check_usage_constraints(usage, part, equipping, for_item, for_part_and_item, equipped)
}

#[test]
fn leaf_hash_is_the_keccak_digest_of_a_zero_byte_and_the_bytes() {
    let keccak_of_one_zero_byte: [u8; 32] = [
        0xbc, 0x36, 0x78, 0x9e, 0x7a, 0x1e, 0x28, 0x14, 0x36, 0x46, 0x42, 0x29, 0x82, 0x8f, 0x81,
        0x7d, 0x66, 0x12, 0xf7, 0xb4, 0x77, 0xd6, 0x65, 0x91, 0xff, 0x96, 0xa9, 0xe0, 0x64, 0xbc,
        0xc9, 0x8a,
    ];
    assert_eq!(hash_leaf(&vec![]), keccak_of_one_zero_byte);
    assert_eq!(hash_leaf(&vec![1, 2, 3]), keccak::hashv(&[&[0u8, 1, 2, 3]]).0);
    assert_ne!(hash_leaf(&vec![1, 2, 3]), hash_leaf(&vec![1, 2, 4]));
}

#[test]
fn node_hash_puts_the_smaller_child_first() {
    let low = [1u8; 32];
    let mut high = [1u8; 32];
    high[31] = 2;
    let mut expected_bytes = vec![1u8];
    expected_bytes.extend_from_slice(&low);
    expected_bytes.extend_from_slice(&high);
    let expected = keccak::hashv(&[&expected_bytes]).0;
    assert_eq!(hash_node(&low, &high), expected);
    assert_eq!(hash_node(&high, &low), expected);
    let mut swapped = vec![1u8];
    swapped.extend_from_slice(&high);
    swapped.extend_from_slice(&low);
    assert_ne!(expected, keccak::hashv(&[&swapped]).0);
    assert_eq!(hash_node(&low, &low), node(&low, &low));
}

#[test]
fn byte_strings_are_ordered_from_the_first_byte() {
    let mut a = [0u8; 32];
    let mut b = [0u8; 32];
    assert!(hash_le(&a, &b));
    a[0] = 1;
    b[31] = 255;
    assert!(!hash_le(&a, &b));
    assert!(hash_le(&b, &a));
    b[0] = 1;
    assert!(hash_le(&a, &b));
    assert!(!hash_le(&b, &a));
    assert!(keys_equal(&a, &a));
    assert!(!keys_equal(&a, &b));
}

#[test]
fn proof_of_each_leaf_leads_to_the_root() {
    let bytes: [&[u8]; 3] = [b"usage zero", b"usage one", b"usage two"];
    let (root, proofs) = tree_of_three(bytes);
    for i in 0..3 {
        assert!(verify(&proofs[i], &root, leaf(bytes[i])));
        assert!(!verify(&proofs[i], &root, leaf(b"another usage")));
        assert!(!verify(&proofs[(i + 1) % 3], &root, leaf(bytes[i])));
    }
    assert!(verify(&vec![], &root, root));
    assert!(!verify(&vec![], &root, leaf(bytes[0])));
    let mut longer = proofs[2].clone();
    longer.push([0u8; 32]);
    assert!(!verify(&longer, &root, leaf(bytes[2])));
}

#[test]
fn usage_with_a_valid_proof_is_selected() {
    let bytes: [&[u8]; 3] = [b"usage zero", b"usage one", b"usage two"];
    let (root, proofs) = tree_of_three(bytes);
    let u1 = wearable(1, &["hand"], None);
    let info = ItemUsageInfo {
        item_usage_proof: proofs[1].clone(),
        item_usage: u1.clone(),
        item_usage_bytes: bytes[1].to_vec(),
    };
    // the inline list is a cache and is not consulted where a proof is given
    let with_cache = class(Some(root), Some(vec![wearable(1, &["foot"], None)]));
    assert_eq!(select_usage(with_cache, Some(info.clone()), 5), Ok(u1.clone()));
    assert_eq!(select_usage(class(Some(root), None), Some(info), 1), Ok(u1));
}

#[test]
fn one_flipped_bit_makes_the_proof_invalid() {
    let bytes: [&[u8]; 3] = [b"usage zero", b"usage one", b"usage two"];
    let (root, proofs) = tree_of_three(bytes);
    let u1 = wearable(1, &["hand"], None);
    for sibling in 0..proofs[1].len() {
        for bit in [0usize, 7, 100, 255] {
            let mut proof = proofs[1].clone();
            proof[sibling][bit / 8] ^= 1 << (bit % 8);
            let info = ItemUsageInfo {
                item_usage_proof: proof,
                item_usage: u1.clone(),
                item_usage_bytes: bytes[1].to_vec(),
            };
            assert_eq!(
                select_usage(class(Some(root), None), Some(info), 1),
                Err(ErrorCode::InvalidProof)
            );
        }
    }
    for bit in [0usize, 9, 71] {
        let mut serialized = bytes[1].to_vec();
        serialized[bit / 8] ^= 1 << (bit % 8);
        let info = ItemUsageInfo {
            item_usage_proof: proofs[1].clone(),
            item_usage: u1.clone(),
            item_usage_bytes: serialized,
        };
        assert_eq!(
            select_usage(class(Some(root), None), Some(info), 1),
            Err(ErrorCode::InvalidProof)
        );
    }
    let mut other_root = root;
    other_root[0] ^= 1;
    let info = ItemUsageInfo {
        item_usage_proof: proofs[1].clone(),
        item_usage: u1,
        item_usage_bytes: bytes[1].to_vec(),
    };
    assert_eq!(
        select_usage(class(Some(other_root), None), Some(info), 1),
        Err(ErrorCode::InvalidProof)
    );
}

#[test]
fn proof_without_a_root_is_refused() {
    let info = ItemUsageInfo {
        item_usage_proof: vec![],
        item_usage: wearable(1, &["hand"], None),
        item_usage_bytes: vec![1],
    };
    assert_eq!(
        select_usage(class(None, Some(vec![wearable(1, &["hand"], None)])), Some(info.clone()), 1),
        Err(ErrorCode::UsageRootNotPresent)
    );
    assert_eq!(select_usage(class(None, None), Some(info), 1), Err(ErrorCode::UsageRootNotPresent));
}

#[test]
fn inline_usage_is_found_by_its_index() {
    let usages = vec![
        wearable(4, &["hand"], None),
        consumable(2),
        wearable(2, &["foot"], Some(1)),
        wearable(9, &["head"], None),
    ];
    assert_eq!(select_inline_usage(usages.clone(), 9), Ok(wearable(9, &["head"], None)));
    assert_eq!(select_inline_usage(usages.clone(), 2), Ok(consumable(2)));
    assert_eq!(select_inline_usage(usages.clone(), 4), Ok(wearable(4, &["hand"], None)));
    assert_eq!(select_inline_usage(usages.clone(), 3), Err(ErrorCode::FoundNoMatchingUsage));
    assert_eq!(select_usage(class(None, Some(usages.clone())), None, 9), Ok(wearable(9, &["head"], None)));
    assert_eq!(select_usage(class(Some([0u8; 32]), Some(usages)), None, 4), Ok(wearable(4, &["hand"], None)));
}

#[test]
fn missing_usages_are_told_apart() {
    assert_eq!(
        select_usage(class(None, Some(vec![])), None, 0),
        Err(ErrorCode::CannotEquipItemWithoutUsageOrMerkle)
    );
    assert_eq!(select_inline_usage(vec![], 0), Err(ErrorCode::CannotEquipItemWithoutUsageOrMerkle));
    assert_eq!(select_usage(class(None, None), None, 0), Err(ErrorCode::ItemContainsNoUsages));
    assert_eq!(
        select_usage(class(Some([0u8; 32]), None), None, 0),
        Err(ErrorCode::ItemContainsNoUsages)
    );
    assert_eq!(
        select_usage(class(None, Some(vec![consumable(1)])), None, 0),
        Err(ErrorCode::FoundNoMatchingUsage)
    );
}

#[test]
fn wearable_on_an_eligible_part_is_accepted() {
    let usage = wearable(0, &["head", "hand"], Some(2));
    let equipped = vec![EquippedItem { index: 0, item: SHIELD, amount: 1 }];
    assert_eq!(check(&usage, &hand(None), true, 0, 2, &equipped), Ok(()));
    assert_eq!(check(&usage, &hand(None), false, 5, 9, &equipped), Ok(()));
}

#[test]
fn item_that_does_not_pair_with_itself_is_refused_when_already_worn() {
    let mut usage = wearable(0, &["hand"], None);
    usage.do_not_pair_with_self = true;
    assert_eq!(check(&usage, &hand(None), true, 1, 2, &vec![]), Err(ErrorCode::ItemCannotBePairedWithSelf));
    assert_eq!(check(&usage, &hand(None), true, 0, 1, &vec![]), Ok(()));
    assert_eq!(check(&usage, &hand(None), false, 1, 0, &vec![]), Ok(()));
}

#[test]
fn item_on_the_do_not_pair_list_blocks_the_equip() {
    let mut usage = wearable(0, &["hand"], None);
    usage.dnp = Some(vec![
        DNPItem { key: [7u8; 32], inherited: InheritanceState::NotInherited },
        DNPItem { key: CURSE, inherited: InheritanceState::Inherited },
    ]);
    let cursed = vec![
        EquippedItem { index: 3, item: SHIELD, amount: 1 },
        EquippedItem { index: 5, item: CURSE, amount: 0 },
    ];
    let clean = vec![EquippedItem { index: 3, item: SHIELD, amount: 1 }];
    assert_eq!(
        check(&usage, &hand(None), true, 0, 1, &cursed),
        Err(ErrorCode::ItemCannotBeEquippedWithDNPEntry)
    );
    assert_eq!(check(&usage, &hand(None), false, 0, 1, &cursed), Ok(()));
    assert_eq!(check(&usage, &hand(None), true, 0, 1, &clean), Ok(()));
    usage.dnp = Some(vec![]);
    assert_eq!(check(&usage, &hand(None), true, 0, 1, &cursed), Ok(()));
}

#[test]
fn part_that_the_usage_does_not_name_is_not_eligible() {
    let usage = wearable(0, &["head", "foot"], Some(0));
    assert_eq!(check(&usage, &hand(None), true, 0, 5, &vec![]), Err(ErrorCode::BodyPartNotEligible));
    assert_eq!(check(&usage, &hand(None), false, 0, 0, &vec![]), Err(ErrorCode::BodyPartNotEligible));
    let nothing = wearable(0, &[], None);
    assert_eq!(check(&nothing, &hand(None), true, 0, 0, &vec![]), Err(ErrorCode::BodyPartNotEligible));
}

#[test]
fn limit_per_part_bounds_the_count_after_the_equip() {
    let usage = wearable(0, &["hand"], Some(2));
    assert_eq!(check(&usage, &hand(None), true, 0, 2, &vec![]), Ok(()));
    assert_eq!(
        check(&usage, &hand(None), true, 0, 3, &vec![]),
        Err(ErrorCode::BodyPartContainsTooManyOfThisType)
    );
    assert_eq!(check(&usage, &hand(None), false, 0, 3, &vec![]), Ok(()));
}

#[test]
fn consumable_cannot_be_equipped() {
    assert_eq!(check(&consumable(0), &hand(None), true, 0, 0, &vec![]), Err(ErrorCode::CannotEquipConsumable));
    assert_eq!(check(&consumable(0), &hand(None), false, 0, 0, &vec![]), Err(ErrorCode::CannotEquipConsumable));
}

#[test]
fn rules_are_checked_in_their_order() {
    let mut usage = consumable(0);
    usage.do_not_pair_with_self = true;
    usage.dnp = Some(vec![DNPItem { key: CURSE, inherited: InheritanceState::NotInherited }]);
    let cursed = vec![EquippedItem { index: 5, item: CURSE, amount: 1 }];
    assert_eq!(check(&usage, &hand(None), true, 1, 0, &cursed), Err(ErrorCode::ItemCannotBePairedWithSelf));
    assert_eq!(
        check(&usage, &hand(None), true, 0, 0, &cursed),
        Err(ErrorCode::ItemCannotBeEquippedWithDNPEntry)
    );
    assert_eq!(check(&usage, &hand(None), true, 0, 0, &vec![]), Err(ErrorCode::CannotEquipConsumable));
    let part = hand(Some(1));
    let args = VerifyItemUsageAppropriateForBodyPartArgs {
        used_body_part: &part,
        item_usage_index: 0,
        item_usage_info: None,
        item_class_data: class(None, None),
        equipping: true,
        total_equipped_for_this_item: 1,
        total_equipped_for_this_body_part_for_this_item: 0,
        total_equipped_for_this_body_part: 2,
        equipped_items: &cursed,
    };
    assert_eq!(
        verify_item_usage_appropriate_for_body_part(args),
        Err(ErrorCode::BodyPartContainsTooMany)
    );
    let args = VerifyItemUsageAppropriateForBodyPartArgs {
        used_body_part: &part,
        item_usage_index: 0,
        item_usage_info: None,
        item_class_data: class(None, None),
        equipping: true,
        total_equipped_for_this_item: 1,
        total_equipped_for_this_body_part_for_this_item: 0,
        total_equipped_for_this_body_part: 1,
        equipped_items: &cursed,
    };
    assert_eq!(
        verify_item_usage_appropriate_for_body_part(args),
        Err(ErrorCode::ItemContainsNoUsages)
    );
}

#[test]
fn capacity_only_bounds_an_equip() {
    let part = hand(Some(2));
    let usages = vec![wearable(0, &["hand"], None)];
    let outcome = |equipping: bool, total: u64| {
        verify_item_usage_appropriate_for_body_part(VerifyItemUsageAppropriateForBodyPartArgs {
            used_body_part: &part,
            item_usage_index: 0,
            item_usage_info: None,
            item_class_data: class(None, Some(usages.clone())),
            equipping,
            total_equipped_for_this_item: 0,
            total_equipped_for_this_body_part_for_this_item: total,
            total_equipped_for_this_body_part: total,
            equipped_items: &vec![EquippedItem { index: 0, item: SWORD, amount: 2 }],
        })
    };
    assert_eq!(outcome(true, 2), Ok(wearable(0, &["hand"], None)));
    assert_eq!(outcome(true, 3), Err(ErrorCode::BodyPartContainsTooMany));
    assert_eq!(outcome(false, 3), Ok(wearable(0, &["hand"], None)));
}
