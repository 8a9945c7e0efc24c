use crate::class::{NamespaceAndIndex, PlayerCategory, StatsUri};
use crate::inheritance::{Pubkey, Tagged};
use crate::class::NamespaceView;
use crate::stat::{BasicStat, BasicStatView};
use vstd::prelude::*;

verus! {

/// An amount of one item equipped to one body part.
#[derive(Clone, Copy, Debug, PartialEq, Eq)]
pub struct EquippedItem {
    /// Index of the body part.
    pub index: u16,
    pub item: Pubkey,
    pub amount: u64,
}

/// What a player holds of its own: where its stats are described, its category and its
/// stat slots.
#[derive(Clone, Debug, PartialEq, Eq)]
pub struct PlayerData {
    pub stats_uri: Option<StatsUri>,
    pub category: Option<PlayerCategory>,
    pub basic_stats: Option<Vec<BasicStat>>,
}

/// Model of [`PlayerData`].
pub struct PlayerDataView {
    pub stats_uri: Option<Tagged<Seq<char>>>,
    pub category: Option<Tagged<Seq<char>>>,
    pub basic_stats: Option<Seq<BasicStatView>>,
}

impl DeepView for PlayerData {
    type V = PlayerDataView;

    open spec fn deep_view(&self) -> PlayerDataView {
        PlayerDataView {
            stats_uri: self.stats_uri.deep_view(),
            category: self.category.deep_view(),
            basic_stats: self.basic_stats.deep_view(),
        }
    }
}

/// An instance of a player class.
#[derive(Clone, Debug, PartialEq, Eq)]
pub struct Player {
    pub namespaces: Option<Vec<NamespaceAndIndex>>,
    /// The class of the player.
    pub parent: Pubkey,
    pub data: PlayerData,
    pub equipped_items: Vec<EquippedItem>,
}

/// Model of a [`Player`].
pub struct PlayerView {
    pub namespaces: Option<Seq<Tagged<NamespaceView>>>,
    pub parent: Pubkey,
    pub data: PlayerDataView,
    pub equipped_items: Seq<EquippedItem>,
}

impl DeepView for Player {
    type V = PlayerView;

    open spec fn deep_view(&self) -> PlayerView {
        PlayerView {
            namespaces: self.namespaces.deep_view(),
            parent: self.parent,
            data: self.data.deep_view(),
            equipped_items: self.equipped_items@,
        }
    }
}

} // verus!
