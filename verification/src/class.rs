use crate::inheritance::{Inherited, InheritanceState, Pubkey, Tagged};
use crate::stat::{BasicStatTemplate, BasicStatTemplateView};
use vstd::prelude::*;

verus! {

/// Who may perform an action on a class or on one of its instances.
#[derive(Clone, Copy, Debug, PartialEq, Eq, Structural)]
pub enum PermissivenessType {
    TokenHolder,
    ParentTokenHolder,
    UpdateAuthority,
    Anybody,
}

/// One entry of a permission list.
#[derive(Clone, Copy, Debug, PartialEq, Eq, Structural)]
pub struct Permissiveness {
    pub inherited: InheritanceState,
    pub permissiveness_type: PermissivenessType,
}

impl DeepView for Permissiveness {
    type V = Tagged<PermissivenessType>;

    open spec fn deep_view(&self) -> Tagged<PermissivenessType> {
        Tagged { value: self.permissiveness_type, inherited: self.inherited }
    }
}

impl Inherited<PermissivenessType> for Permissiveness {
    fn get_inherited(&self) -> (state: InheritanceState) {
        self.inherited
    }

    fn set_inherited(&mut self, i: InheritanceState) {
        self.inherited = i;
    }

    fn duplicate(&self) -> (copy: Self) {
        *self
    }
}

/// The fields of a class that a parent can hand down to its children.
#[derive(Clone, Copy, Debug, PartialEq, Eq, Structural)]
pub enum ChildUpdatePropagationPermissivenessType {
    UpdatePermissiveness,
    InstanceUpdatePermissiveness,
    BuildPermissiveness,
    ChildUpdatePropagationPermissiveness,
    ChildrenMustBeEditionsPermissiveness,
    BuilderMustBeHolderPermissiveness,
    StakingPermissiveness,
    Namespaces,
    EquippingItemsPermissiveness,
    AddingItemsPermissiveness,
    BasicStatTemplates,
    DefaultCategory,
    BodyParts,
    StatsUri,
}

/// One entry of a class's propagation policy: a field, and whether a child that has
/// overridden the field has to take the parent's value again.
#[derive(Clone, Copy, Debug, PartialEq, Eq, Structural)]
pub struct ChildUpdatePropagationPermissiveness {
    pub overridable: bool,
    pub inherited: InheritanceState,
    pub child_update_propagation_permissiveness_type: ChildUpdatePropagationPermissivenessType,
}

/// Model of a policy entry without its inheritance tag.
pub struct PropagationRule {
    pub field: ChildUpdatePropagationPermissivenessType,
    pub overridable: bool,
}

impl DeepView for ChildUpdatePropagationPermissiveness {
    type V = Tagged<PropagationRule>;

    open spec fn deep_view(&self) -> Tagged<PropagationRule> {
        Tagged {
            value: PropagationRule {
                field: self.child_update_propagation_permissiveness_type,
                overridable: self.overridable,
            },
            inherited: self.inherited,
        }
    }
}

impl Inherited<PropagationRule> for ChildUpdatePropagationPermissiveness {
    fn get_inherited(&self) -> (state: InheritanceState) {
        self.inherited
    }

    fn set_inherited(&mut self, i: InheritanceState) {
        self.inherited = i;
    }

    fn duplicate(&self) -> (copy: Self) {
        *self
    }
}

/// A propagated flag.
#[derive(Clone, Copy, Debug, PartialEq, Eq, Structural)]
pub struct Boolean {
    pub inherited: InheritanceState,
    pub boolean: bool,
}

impl DeepView for Boolean {
    type V = Tagged<bool>;

    open spec fn deep_view(&self) -> Tagged<bool> {
        Tagged { value: self.boolean, inherited: self.inherited }
    }
}

impl Inherited<bool> for Boolean {
    fn get_inherited(&self) -> (state: InheritanceState) {
        self.inherited
    }

    fn set_inherited(&mut self, i: InheritanceState) {
        self.inherited = i;
    }

    fn duplicate(&self) -> (copy: Self) {
        *self
    }
}

/// A namespace that a class or an instance belongs to.
#[derive(Clone, Copy, Debug, PartialEq, Eq)]
pub struct NamespaceAndIndex {
    pub namespace: Pubkey,
    pub indexed: bool,
    pub inherited: InheritanceState,
}

/// Model of a [`NamespaceAndIndex`] without its inheritance tag.
pub struct NamespaceView {
    pub namespace: Pubkey,
    pub indexed: bool,
}

impl DeepView for NamespaceAndIndex {
    type V = Tagged<NamespaceView>;

    open spec fn deep_view(&self) -> Tagged<NamespaceView> {
        Tagged {
            value: NamespaceView { namespace: self.namespace, indexed: self.indexed },
            inherited: self.inherited,
        }
    }
}

impl Inherited<NamespaceView> for NamespaceAndIndex {
    fn get_inherited(&self) -> (state: InheritanceState) {
        self.inherited
    }

    fn set_inherited(&mut self, i: InheritanceState) {
        self.inherited = i;
    }

    fn duplicate(&self) -> (copy: Self) {
        NamespaceAndIndex {
            namespace: self.namespace,
            indexed: self.indexed,
            inherited: self.inherited,
        }
    }
}

/// The category that players of a class start in.
#[derive(Clone, Debug, PartialEq, Eq)]
pub struct PlayerCategory {
    pub category: String,
    pub inherited: InheritanceState,
}

impl DeepView for PlayerCategory {
    type V = Tagged<Seq<char>>;

    open spec fn deep_view(&self) -> Tagged<Seq<char>> {
        Tagged { value: self.category@, inherited: self.inherited }
    }
}

impl Inherited<Seq<char>> for PlayerCategory {
    fn get_inherited(&self) -> (state: InheritanceState) {
        self.inherited
    }

    fn set_inherited(&mut self, i: InheritanceState) {
        self.inherited = i;
    }

    fn duplicate(&self) -> (copy: Self) {
        PlayerCategory { category: self.category.clone(), inherited: self.inherited }
    }
}

/// Where the stats of a player are described off-chain.
#[derive(Clone, Debug, PartialEq, Eq)]
pub struct StatsUri {
    pub stats_uri: String,
    pub inherited: InheritanceState,
}

impl DeepView for StatsUri {
    type V = Tagged<Seq<char>>;

    open spec fn deep_view(&self) -> Tagged<Seq<char>> {
        Tagged { value: self.stats_uri@, inherited: self.inherited }
    }
}

impl Inherited<Seq<char>> for StatsUri {
    fn get_inherited(&self) -> (state: InheritanceState) {
        self.inherited
    }

    fn set_inherited(&mut self, i: InheritanceState) {
        self.inherited = i;
    }

    fn duplicate(&self) -> (copy: Self) {
        StatsUri { stats_uri: self.stats_uri.clone(), inherited: self.inherited }
    }
}

/// A named slot of a player that items are equipped to.
#[derive(Clone, Debug, PartialEq, Eq)]
pub struct BodyPart {
    pub index: u16,
    pub body_part: String,
    /// How many items the slot holds at most, all kinds together.
    pub total_item_spots: Option<u64>,
    pub inherited: InheritanceState,
}

/// Model of a [`BodyPart`] without its inheritance tag.
pub struct BodyPartView {
    pub index: u16,
    pub body_part: Seq<char>,
    pub total_item_spots: Option<u64>,
}

impl DeepView for BodyPart {
    type V = Tagged<BodyPartView>;

    open spec fn deep_view(&self) -> Tagged<BodyPartView> {
        Tagged {
            value: BodyPartView {
                index: self.index,
                body_part: self.body_part@,
                total_item_spots: self.total_item_spots,
            },
            inherited: self.inherited,
        }
    }
}

impl Inherited<BodyPartView> for BodyPart {
    fn get_inherited(&self) -> (state: InheritanceState) {
        self.inherited
    }

    fn set_inherited(&mut self, i: InheritanceState) {
        self.inherited = i;
    }

    fn duplicate(&self) -> (copy: Self) {
        BodyPart {
            index: self.index,
            body_part: self.body_part.clone(),
            total_item_spots: self.total_item_spots,
            inherited: self.inherited,
        }
    }
}

/// A program that is asked to approve an operation, and the code it is handed.
#[derive(Clone, Copy, Debug, PartialEq, Eq)]
pub struct Callback {
    pub key: Pubkey,
    pub code: u64,
}

/// The propagated settings of a player class.
#[derive(Clone, Debug, PartialEq, Eq)]
pub struct PlayerClassSettings {
    pub default_category: Option<PlayerCategory>,
    pub children_must_be_editions: Option<Boolean>,
    pub builder_must_be_holder: Option<Boolean>,
    pub update_permissiveness: Option<Vec<Permissiveness>>,
    pub instance_update_permissiveness: Option<Vec<Permissiveness>>,
    pub build_permissiveness: Option<Vec<Permissiveness>>,
    pub equip_item_permissiveness: Option<Vec<Permissiveness>>,
    pub add_item_permissiveness: Option<Vec<Permissiveness>>,
    pub unequip_item_permissiveness: Option<Vec<Permissiveness>>,
    pub remove_item_permissiveness: Option<Vec<Permissiveness>>,
    pub staking_permissiveness: Option<Vec<Permissiveness>>,
    pub unstaking_permissiveness: Option<Vec<Permissiveness>>,
    pub child_update_propagation_permissiveness: Option<Vec<ChildUpdatePropagationPermissiveness>>,
}

/// Model of [`PlayerClassSettings`].
pub struct PlayerClassSettingsView {
    pub default_category: Option<Tagged<Seq<char>>>,
    pub children_must_be_editions: Option<Tagged<bool>>,
    pub builder_must_be_holder: Option<Tagged<bool>>,
    pub update_permissiveness: Option<Seq<Tagged<PermissivenessType>>>,
    pub instance_update_permissiveness: Option<Seq<Tagged<PermissivenessType>>>,
    pub build_permissiveness: Option<Seq<Tagged<PermissivenessType>>>,
    pub equip_item_permissiveness: Option<Seq<Tagged<PermissivenessType>>>,
    pub add_item_permissiveness: Option<Seq<Tagged<PermissivenessType>>>,
    pub unequip_item_permissiveness: Option<Seq<Tagged<PermissivenessType>>>,
    pub remove_item_permissiveness: Option<Seq<Tagged<PermissivenessType>>>,
    pub staking_permissiveness: Option<Seq<Tagged<PermissivenessType>>>,
    pub unstaking_permissiveness: Option<Seq<Tagged<PermissivenessType>>>,
    pub child_update_propagation_permissiveness: Option<Seq<Tagged<PropagationRule>>>,
}

impl DeepView for PlayerClassSettings {
    type V = PlayerClassSettingsView;

    open spec fn deep_view(&self) -> PlayerClassSettingsView {
        PlayerClassSettingsView {
            default_category: self.default_category.deep_view(),
            children_must_be_editions: self.children_must_be_editions.deep_view(),
            builder_must_be_holder: self.builder_must_be_holder.deep_view(),
            update_permissiveness: self.update_permissiveness.deep_view(),
            instance_update_permissiveness: self.instance_update_permissiveness.deep_view(),
            build_permissiveness: self.build_permissiveness.deep_view(),
            equip_item_permissiveness: self.equip_item_permissiveness.deep_view(),
            add_item_permissiveness: self.add_item_permissiveness.deep_view(),
            unequip_item_permissiveness: self.unequip_item_permissiveness.deep_view(),
            remove_item_permissiveness: self.remove_item_permissiveness.deep_view(),
            staking_permissiveness: self.staking_permissiveness.deep_view(),
            unstaking_permissiveness: self.unstaking_permissiveness.deep_view(),
            child_update_propagation_permissiveness: self.child_update_propagation_permissiveness.deep_view(),
        }
    }
}

/// What a player class defines for its players.
#[derive(Clone, Debug, PartialEq, Eq)]
pub struct PlayerClassConfig {
    pub starting_stats_uri: Option<StatsUri>,
    pub basic_stats: Option<Vec<BasicStatTemplate>>,
    pub body_parts: Option<Vec<BodyPart>>,
    pub equip_validation: Option<Callback>,
    pub add_to_pack_validation: Option<Callback>,
}

/// Model of [`PlayerClassConfig`].
pub struct PlayerClassConfigView {
    pub starting_stats_uri: Option<Tagged<Seq<char>>>,
    pub basic_stats: Option<Seq<Tagged<BasicStatTemplateView>>>,
    pub body_parts: Option<Seq<Tagged<BodyPartView>>>,
    pub equip_validation: Option<Callback>,
    pub add_to_pack_validation: Option<Callback>,
}

impl DeepView for PlayerClassConfig {
    type V = PlayerClassConfigView;

    open spec fn deep_view(&self) -> PlayerClassConfigView {
        PlayerClassConfigView {
            starting_stats_uri: self.starting_stats_uri.deep_view(),
            basic_stats: self.basic_stats.deep_view(),
            body_parts: self.body_parts.deep_view(),
            equip_validation: self.equip_validation,
            add_to_pack_validation: self.add_to_pack_validation,
        }
    }
}

/// Settings and configuration of a player class.
#[derive(Clone, Debug, PartialEq, Eq)]
pub struct PlayerClassData {
    pub settings: PlayerClassSettings,
    pub config: PlayerClassConfig,
}

/// Model of [`PlayerClassData`].
pub struct PlayerClassDataView {
    pub settings: PlayerClassSettingsView,
    pub config: PlayerClassConfigView,
}

impl DeepView for PlayerClassData {
    type V = PlayerClassDataView;

    open spec fn deep_view(&self) -> PlayerClassDataView {
        PlayerClassDataView {
            settings: self.settings.deep_view(),
            config: self.config.deep_view(),
        }
    }
}

/// A class template for players.
#[derive(Clone, Debug, PartialEq, Eq)]
pub struct PlayerClass {
    pub namespaces: Option<Vec<NamespaceAndIndex>>,
    pub parent: Option<Pubkey>,
    pub data: PlayerClassData,
}

} // verus!
