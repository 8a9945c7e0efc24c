use crate::class::Callback;
use crate::inheritance::{InheritanceState, Pubkey};
use vstd::prelude::*;

verus! {

/// How an effect changes the stat it names.
#[derive(Clone, Copy, Debug, PartialEq, Eq, Structural)]
pub enum BasicItemEffectType {
    Increment,
    Decrement,
    IncrementPercent,
    DecrementPercent,
    IncrementPercentFromBase,
    DecrementPercentFromBase,
}

/// One effect of a usage on a stat of the player.
#[derive(Clone, Debug, PartialEq, Eq)]
pub struct BasicItemEffect {
    pub amount: u64,
    /// Name of the stat that the effect changes.
    pub stat: String,
    pub item_effect_type: BasicItemEffectType,
    /// Effects without a duration last until the item is removed; on a consumable they
    /// are permanent.
    pub active_duration: Option<i64>,
    pub staking_amount_numerator: Option<u64>,
    pub staking_amount_divisor: Option<u64>,
}

/// Model of a [`BasicItemEffect`].
pub struct BasicItemEffectView {
    pub amount: u64,
    pub stat: Seq<char>,
    pub item_effect_type: BasicItemEffectType,
    pub active_duration: Option<i64>,
    pub staking_amount_numerator: Option<u64>,
    pub staking_amount_divisor: Option<u64>,
}

impl DeepView for BasicItemEffect {
    type V = BasicItemEffectView;

    open spec fn deep_view(&self) -> BasicItemEffectView {
        BasicItemEffectView {
            amount: self.amount,
            stat: self.stat@,
            item_effect_type: self.item_effect_type,
            active_duration: self.active_duration,
            staking_amount_numerator: self.staking_amount_numerator,
            staking_amount_divisor: self.staking_amount_divisor,
        }
    }
}

/// What becomes of a consumable when it is used.
#[derive(Clone, Copy, Debug, PartialEq, Eq, Structural)]
pub enum ItemUsageType {
    Cooldown { duration: i64 },
    Exhaustion,
    Destruction,
    Infinite,
}

/// Whether a usage is worn on a body part or consumed.
#[derive(Clone, Debug, PartialEq, Eq)]
pub enum ItemClassType {
    Wearable { body_part: Vec<String>, limit_per_part: Option<u64> },
    Consumable { uses: u64, max_players_per_use: Option<u64>, item_usage_type: ItemUsageType },
}

/// Model of an [`ItemClassType`].
pub enum ItemClassTypeView {
    Wearable { body_part: Seq<Seq<char>>, limit_per_part: Option<u64> },
    Consumable { uses: u64, max_players_per_use: Option<u64>, item_usage_type: ItemUsageType },
}

impl DeepView for ItemClassType {
    type V = ItemClassTypeView;

    open spec fn deep_view(&self) -> ItemClassTypeView {
        match self {
            ItemClassType::Wearable { body_part, limit_per_part } => ItemClassTypeView::Wearable {
                body_part: body_part.deep_view(),
                limit_per_part: *limit_per_part,
            },
            ItemClassType::Consumable {
                uses,
                max_players_per_use,
                item_usage_type,
            } => ItemClassTypeView::Consumable {
                uses: *uses,
                max_players_per_use: *max_players_per_use,
                item_usage_type: *item_usage_type,
            },
        }
    }
}

/// An item that must not be equipped together with the usage that lists it.
#[derive(Clone, Copy, Debug, PartialEq, Eq)]
pub struct DNPItem {
    pub key: Pubkey,
    pub inherited: InheritanceState,
}

impl DeepView for DNPItem {
    type V = DNPItem;

    open spec fn deep_view(&self) -> DNPItem {
        *self
    }
}

/// One way in which an item can be worn or consumed.
#[derive(Clone, Debug, PartialEq, Eq)]
pub struct ItemUsage {
    pub index: u16,
    pub basic_item_effects: Option<Vec<BasicItemEffect>>,
    pub item_class_type: ItemClassType,
    /// The program that is asked before the usage is equipped or removed.
    pub validation: Option<Callback>,
    pub do_not_pair_with_self: bool,
    pub dnp: Option<Vec<DNPItem>>,
}

/// Model of an [`ItemUsage`].
pub struct ItemUsageView {
    pub index: u16,
    pub basic_item_effects: Option<Seq<BasicItemEffectView>>,
    pub item_class_type: ItemClassTypeView,
    pub validation: Option<Callback>,
    pub do_not_pair_with_self: bool,
    pub dnp: Option<Seq<DNPItem>>,
}

impl DeepView for ItemUsage {
    type V = ItemUsageView;

    open spec fn deep_view(&self) -> ItemUsageView {
        ItemUsageView {
            index: self.index,
            basic_item_effects: self.basic_item_effects.deep_view(),
            item_class_type: self.item_class_type.deep_view(),
            validation: self.validation,
            do_not_pair_with_self: self.do_not_pair_with_self,
            dnp: self.dnp.deep_view(),
        }
    }
}

/// What the stat engine reads of an item.
#[derive(Clone, Copy, Debug, PartialEq, Eq)]
pub struct Item {
    /// The class of the item.
    pub parent: Pubkey,
    pub tokens_staked: u64,
}

/// The root hash that an item class commits its usages to.
#[derive(Clone, Copy, Debug, PartialEq, Eq)]
pub struct Root {
    pub inherited: InheritanceState,
    pub root: [u8; 32],
}

/// The usages of an item class: a committed root, an inline list, or neither. A usage
/// that comes with a proof is held against the root alone; the inline list is searched
/// only for a request that brings no proof.
#[derive(Clone, Debug, PartialEq, Eq)]
pub struct ItemClassConfig {
    pub usage_root: Option<Root>,
    pub usages: Option<Vec<ItemUsage>>,
}

/// Model of an [`ItemClassConfig`].
pub struct ItemClassConfigView {
    pub usage_root: Option<Root>,
    pub usages: Option<Seq<ItemUsageView>>,
}

impl DeepView for ItemClassConfig {
    type V = ItemClassConfigView;

    open spec fn deep_view(&self) -> ItemClassConfigView {
        ItemClassConfigView { usage_root: self.usage_root, usages: self.usages.deep_view() }
    }
}

/// What the equip validator reads of an item class.
#[derive(Clone, Debug, PartialEq, Eq)]
pub struct ItemClassData {
    pub config: ItemClassConfig,
}

/// Model of an [`ItemClassData`].
pub struct ItemClassDataView {
    pub config: ItemClassConfigView,
}

impl DeepView for ItemClassData {
    type V = ItemClassDataView;

    open spec fn deep_view(&self) -> ItemClassDataView {
        ItemClassDataView { config: self.config.deep_view() }
    }
}

/// A usage handed in by the caller with the proof that the item class commits to it.
#[derive(Clone, Debug, PartialEq, Eq)]
pub struct ItemUsageInfo {
    /// Sibling hashes from the leaf up to the root.
    pub item_usage_proof: Vec<[u8; 32]>,
    pub item_usage: ItemUsage,
    /// The serialized form of `item_usage`, which the leaf hash is taken of.
    pub item_usage_bytes: Vec<u8>,
}

/// Model of an [`ItemUsageInfo`].
pub struct ItemUsageInfoView {
    pub item_usage_proof: Seq<Seq<u8>>,
    pub item_usage: ItemUsageView,
    pub item_usage_bytes: Seq<u8>,
}

impl DeepView for ItemUsageInfo {
    type V = ItemUsageInfoView;

    open spec fn deep_view(&self) -> ItemUsageInfoView {
        ItemUsageInfoView {
            item_usage_proof: self.item_usage_proof.deep_view(),
            item_usage: self.item_usage.deep_view(),
            item_usage_bytes: self.item_usage_bytes@,
        }
    }
}

} // verus!
