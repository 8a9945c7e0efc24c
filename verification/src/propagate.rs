use crate::class::{
    ChildUpdatePropagationPermissiveness, ChildUpdatePropagationPermissivenessType, PlayerClass, PlayerClassConfigView, PlayerClassData,
    PlayerClassDataView, PlayerClassSettingsView, PropagationRule,
};
use crate::inheritance::{
    inherited_list, inherited_value, list_overridden, propagate_parent, propagate_parent_array,
    propagated_list, propagated_value, value_overridden, PropagateParentArgs,
    PropagateParentArrayArgs, Tagged,
};
use vstd::prelude::*;

verus! {

/// The rules of a propagation policy, in the order in which they are applied.
pub type Policy = Seq<Tagged<PropagationRule>>;

/// The policy that a parent class applies to its children. A class without a policy
/// hands nothing down.
pub open spec fn policy_of(parent: PlayerClassDataView) -> Policy {
    match parent.settings.child_update_propagation_permissiveness {
        Some(rules) => rules,
        None => Seq::empty(),
    }
}

/// Whether `policy` makes a child take the parent's value of `field`: some rule names the
/// field, and either the child has no local override or the rule is overridable.
pub open spec fn policy_replaces(
    policy: Policy,
    field: ChildUpdatePropagationPermissivenessType,
    child_overridden: bool,
) -> bool {
    exists|i: int|
        0 <= i < policy.len() && (#[trigger] policy[i]).value.field == field && (!child_overridden
            || policy[i].value.overridable)
}

/// A scalar field of the child after the whole policy has been applied.
pub open spec fn resolved_value<P>(
    policy: Policy,
    field: ChildUpdatePropagationPermissivenessType,
    parent: Option<Tagged<P>>,
    child: Option<Tagged<P>>,
) -> Option<Tagged<P>> {
    if policy_replaces(policy, field, value_overridden(child)) {
        inherited_value(parent)
    } else {
        child
    }
}

/// A list field of the child after the whole policy has been applied.
pub open spec fn resolved_list<P>(
    policy: Policy,
    field: ChildUpdatePropagationPermissivenessType,
    parent: Option<Seq<Tagged<P>>>,
    child: Option<Seq<Tagged<P>>>,
) -> Option<Seq<Tagged<P>>> {
    if policy_replaces(policy, field, list_overridden(child)) {
        inherited_list(parent)
    } else {
        child
    }
}

/// The settings of a child after `policy` has been applied with `parent` as the source.
pub open spec fn propagated_settings(
    policy: Policy,
    parent: PlayerClassSettingsView,
    child: PlayerClassSettingsView,
) -> PlayerClassSettingsView {
    PlayerClassSettingsView {
        default_category: resolved_value(
            policy,
            ChildUpdatePropagationPermissivenessType::DefaultCategory,
            parent.default_category,
            child.default_category,
        ),
        children_must_be_editions: resolved_value(
            policy,
            ChildUpdatePropagationPermissivenessType::ChildrenMustBeEditionsPermissiveness,
            parent.children_must_be_editions,
            child.children_must_be_editions,
        ),
        builder_must_be_holder: resolved_value(
            policy,
            ChildUpdatePropagationPermissivenessType::BuilderMustBeHolderPermissiveness,
            parent.builder_must_be_holder,
            child.builder_must_be_holder,
        ),
        update_permissiveness: resolved_list(
            policy,
            ChildUpdatePropagationPermissivenessType::UpdatePermissiveness,
            parent.update_permissiveness,
            child.update_permissiveness,
        ),
        instance_update_permissiveness: resolved_list(
            policy,
            ChildUpdatePropagationPermissivenessType::InstanceUpdatePermissiveness,
            parent.instance_update_permissiveness,
            child.instance_update_permissiveness,
        ),
        build_permissiveness: resolved_list(
            policy,
            ChildUpdatePropagationPermissivenessType::BuildPermissiveness,
            parent.build_permissiveness,
            child.build_permissiveness,
        ),
        equip_item_permissiveness: resolved_list(
            policy,
            ChildUpdatePropagationPermissivenessType::EquippingItemsPermissiveness,
            parent.equip_item_permissiveness,
            child.equip_item_permissiveness,
        ),
        add_item_permissiveness: resolved_list(
            policy,
            ChildUpdatePropagationPermissivenessType::AddingItemsPermissiveness,
            parent.add_item_permissiveness,
            child.add_item_permissiveness,
        ),
        unequip_item_permissiveness: resolved_list(
            policy,
            ChildUpdatePropagationPermissivenessType::EquippingItemsPermissiveness,
            parent.unequip_item_permissiveness,
            child.unequip_item_permissiveness,
        ),
        remove_item_permissiveness: resolved_list(
            policy,
            ChildUpdatePropagationPermissivenessType::AddingItemsPermissiveness,
            parent.remove_item_permissiveness,
            child.remove_item_permissiveness,
        ),
        staking_permissiveness: resolved_list(
            policy,
            ChildUpdatePropagationPermissivenessType::StakingPermissiveness,
            parent.staking_permissiveness,
            child.staking_permissiveness,
        ),
        unstaking_permissiveness: resolved_list(
            policy,
            ChildUpdatePropagationPermissivenessType::StakingPermissiveness,
            parent.unstaking_permissiveness,
            child.unstaking_permissiveness,
        ),
        child_update_propagation_permissiveness: resolved_list(
            policy,
            ChildUpdatePropagationPermissivenessType::ChildUpdatePropagationPermissiveness,
            parent.child_update_propagation_permissiveness,
            child.child_update_propagation_permissiveness,
        ),
    }
}

/// The configuration of a child after `policy` has been applied with `parent` as the
/// source. The validation callbacks are not propagated.
pub open spec fn propagated_config(
    policy: Policy,
    parent: PlayerClassConfigView,
    child: PlayerClassConfigView,
) -> PlayerClassConfigView {
    PlayerClassConfigView {
        starting_stats_uri: resolved_value(
            policy,
            ChildUpdatePropagationPermissivenessType::StatsUri,
            parent.starting_stats_uri,
            child.starting_stats_uri,
        ),
        basic_stats: resolved_list(
            policy,
            ChildUpdatePropagationPermissivenessType::BasicStatTemplates,
            parent.basic_stats,
            child.basic_stats,
        ),
        body_parts: resolved_list(
            policy,
            ChildUpdatePropagationPermissivenessType::BodyParts,
            parent.body_parts,
            child.body_parts,
        ),
        equip_validation: child.equip_validation,
        add_to_pack_validation: child.add_to_pack_validation,
    }
}

/// Settings and configuration of a child after `policy` has been applied.
#[verifier::opaque]
pub open spec fn propagated_under(
    policy: Policy,
    parent: PlayerClassDataView,
    child: PlayerClassDataView,
) -> PlayerClassDataView {
    PlayerClassDataView {
        settings: propagated_settings(policy, parent.settings, child.settings),
        config: propagated_config(policy, parent.config, child.config),
    }
}

/// Settings and configuration of a child after its parent's policy has been applied.
pub open spec fn propagated_class_data(
    parent: PlayerClassDataView,
    child: PlayerClassDataView,
) -> PlayerClassDataView {
    propagated_under(policy_of(parent), parent, child)
}

/// A longer policy replaces a field if the shorter one did or if the added rule does.
proof fn lemma_policy_replaces_step(
    policy: Policy,
    i: int,
    field: ChildUpdatePropagationPermissivenessType,
    child_overridden: bool,
)
    requires
        0 <= i < policy.len(),
    ensures
        policy_replaces(policy.take(i + 1), field, child_overridden) == (policy_replaces(
            policy.take(i),
            field,
            child_overridden,
        ) || (policy[i].value.field == field && (!child_overridden || policy[i].value.overridable))),
{
    let shorter = policy.take(i);
    let longer = policy.take(i + 1);
    if policy_replaces(shorter, field, child_overridden) {
        let k = choose|k: int|
            0 <= k < shorter.len() && (#[trigger] shorter[k]).value.field == field && (
            !child_overridden || shorter[k].value.overridable);
        assert(longer[k] == shorter[k]);
    }
    if policy[i].value.field == field && (!child_overridden || policy[i].value.overridable) {
        assert(longer[i] == policy[i]);
    }
    if policy_replaces(longer, field, child_overridden) {
        let k = choose|k: int|
            0 <= k < longer.len() && (#[trigger] longer[k]).value.field == field && (
            !child_overridden || longer[k].value.overridable);
        if k < i {
            assert(shorter[k] == longer[k]);
        } else {
            assert(longer[k] == policy[i]);
        }
    }
}

/// Applying rule `i` to a scalar field that the first `i` rules have resolved gives the
/// field as the first `i + 1` rules resolve it.
proof fn lemma_value_step<P>(
    policy: Policy,
    i: int,
    field: ChildUpdatePropagationPermissivenessType,
    parent: Option<Tagged<P>>,
    child: Option<Tagged<P>>,
)
    requires
        0 <= i < policy.len(),
    ensures
        policy[i].value.field == field ==> resolved_value(policy.take(i + 1), field, parent, child)
            == propagated_value(
            parent,
            resolved_value(policy.take(i), field, parent, child),
            policy[i].value.overridable,
        ),
        policy[i].value.field != field ==> resolved_value(policy.take(i + 1), field, parent, child)
            == resolved_value(policy.take(i), field, parent, child),
{
    lemma_policy_replaces_step(policy, i, field, value_overridden(child));
}

/// Applying rule `i` to a list field that the first `i` rules have resolved gives the
/// field as the first `i + 1` rules resolve it.
proof fn lemma_list_step<P>(
    policy: Policy,
    i: int,
    field: ChildUpdatePropagationPermissivenessType,
    parent: Option<Seq<Tagged<P>>>,
    child: Option<Seq<Tagged<P>>>,
)
    requires
        0 <= i < policy.len(),
    ensures
        policy[i].value.field == field ==> resolved_list(policy.take(i + 1), field, parent, child)
            == propagated_list(
            parent,
            resolved_list(policy.take(i), field, parent, child),
            policy[i].value.overridable,
        ),
        policy[i].value.field != field ==> resolved_list(policy.take(i + 1), field, parent, child)
            == resolved_list(policy.take(i), field, parent, child),
{
    lemma_policy_replaces_step(policy, i, field, list_overridden(child));
}

/// An empty policy changes nothing.
proof fn lemma_empty_policy(parent: PlayerClassDataView, child: PlayerClassDataView)
    ensures
        propagated_under(Seq::empty(), parent, child) == child,
{
    reveal(propagated_under);
}

/// One rule applied to settings and configuration that the rules before it have resolved.
proof fn lemma_class_step(
    policy: Policy,
    i: int,
    parent: PlayerClassDataView,
    child: PlayerClassDataView,
)
    requires
        0 <= i < policy.len(),
    ensures
        propagated_under(policy.take(i + 1), parent, child) == apply_rule(
            policy[i].value,
            parent,
            propagated_under(policy.take(i), parent, child),
        ),
{
    reveal(propagated_under);
    reveal(apply_rule);
    let p = parent.settings;
    let c = child.settings;
    let pc = parent.config;
    let cc = child.config;
    lemma_value_step(
        policy,
        i,
        ChildUpdatePropagationPermissivenessType::DefaultCategory,
        p.default_category,
        c.default_category,
    );
    lemma_value_step(
        policy,
        i,
        ChildUpdatePropagationPermissivenessType::ChildrenMustBeEditionsPermissiveness,
        p.children_must_be_editions,
        c.children_must_be_editions,
    );
    lemma_value_step(
        policy,
        i,
        ChildUpdatePropagationPermissivenessType::BuilderMustBeHolderPermissiveness,
        p.builder_must_be_holder,
        c.builder_must_be_holder,
    );
    lemma_list_step(
        policy,
        i,
        ChildUpdatePropagationPermissivenessType::UpdatePermissiveness,
        p.update_permissiveness,
        c.update_permissiveness,
    );
    lemma_list_step(
        policy,
        i,
        ChildUpdatePropagationPermissivenessType::InstanceUpdatePermissiveness,
        p.instance_update_permissiveness,
        c.instance_update_permissiveness,
    );
    lemma_list_step(
        policy,
        i,
        ChildUpdatePropagationPermissivenessType::BuildPermissiveness,
        p.build_permissiveness,
        c.build_permissiveness,
    );
    lemma_list_step(
        policy,
        i,
        ChildUpdatePropagationPermissivenessType::EquippingItemsPermissiveness,
        p.equip_item_permissiveness,
        c.equip_item_permissiveness,
    );
    lemma_list_step(
        policy,
        i,
        ChildUpdatePropagationPermissivenessType::EquippingItemsPermissiveness,
        p.unequip_item_permissiveness,
        c.unequip_item_permissiveness,
    );
    lemma_list_step(
        policy,
        i,
        ChildUpdatePropagationPermissivenessType::AddingItemsPermissiveness,
        p.add_item_permissiveness,
        c.add_item_permissiveness,
    );
    lemma_list_step(
        policy,
        i,
        ChildUpdatePropagationPermissivenessType::AddingItemsPermissiveness,
        p.remove_item_permissiveness,
        c.remove_item_permissiveness,
    );
    lemma_list_step(
        policy,
        i,
        ChildUpdatePropagationPermissivenessType::StakingPermissiveness,
        p.staking_permissiveness,
        c.staking_permissiveness,
    );
    lemma_list_step(
        policy,
        i,
        ChildUpdatePropagationPermissivenessType::StakingPermissiveness,
        p.unstaking_permissiveness,
        c.unstaking_permissiveness,
    );
    lemma_list_step(
        policy,
        i,
        ChildUpdatePropagationPermissivenessType::ChildUpdatePropagationPermissiveness,
        p.child_update_propagation_permissiveness,
        c.child_update_propagation_permissiveness,
    );
    lemma_value_step(
        policy,
        i,
        ChildUpdatePropagationPermissivenessType::StatsUri,
        pc.starting_stats_uri,
        cc.starting_stats_uri,
    );
    lemma_list_step(
        policy,
        i,
        ChildUpdatePropagationPermissivenessType::BasicStatTemplates,
        pc.basic_stats,
        cc.basic_stats,
    );
    lemma_list_step(
        policy,
        i,
        ChildUpdatePropagationPermissivenessType::BodyParts,
        pc.body_parts,
        cc.body_parts,
    );
}

/// What one rule does to the settings and the configuration of a child.
#[verifier::opaque]
pub open spec fn apply_rule(
    rule: PropagationRule,
    parent: PlayerClassDataView,
    child: PlayerClassDataView,
) -> PlayerClassDataView {
    let p = parent.settings;
    let c = child.settings;
    let o = rule.overridable;
    match rule.field {
        ChildUpdatePropagationPermissivenessType::StakingPermissiveness => PlayerClassDataView {
            settings: PlayerClassSettingsView {
                staking_permissiveness: propagated_list(
                    p.staking_permissiveness,
                    c.staking_permissiveness,
                    o,
                ),
                unstaking_permissiveness: propagated_list(
                    p.unstaking_permissiveness,
                    c.unstaking_permissiveness,
                    o,
                ),
                ..c
            },
            ..child
        },
        ChildUpdatePropagationPermissivenessType::UpdatePermissiveness => PlayerClassDataView {
            settings: PlayerClassSettingsView {
                update_permissiveness: propagated_list(
                    p.update_permissiveness,
                    c.update_permissiveness,
                    o,
                ),
                ..c
            },
            ..child
        },
        ChildUpdatePropagationPermissivenessType::BuildPermissiveness => PlayerClassDataView {
            settings: PlayerClassSettingsView {
                build_permissiveness: propagated_list(
                    p.build_permissiveness,
                    c.build_permissiveness,
                    o,
                ),
                ..c
            },
            ..child
        },
        ChildUpdatePropagationPermissivenessType::ChildUpdatePropagationPermissiveness => PlayerClassDataView {
            settings: PlayerClassSettingsView {
                child_update_propagation_permissiveness: propagated_list(
                    p.child_update_propagation_permissiveness,
                    c.child_update_propagation_permissiveness,
                    o,
                ),
                ..c
            },
            ..child
        },
        ChildUpdatePropagationPermissivenessType::ChildrenMustBeEditionsPermissiveness => PlayerClassDataView {
            settings: PlayerClassSettingsView {
                children_must_be_editions: propagated_value(
                    p.children_must_be_editions,
                    c.children_must_be_editions,
                    o,
                ),
                ..c
            },
            ..child
        },
        ChildUpdatePropagationPermissivenessType::BuilderMustBeHolderPermissiveness => PlayerClassDataView {
            settings: PlayerClassSettingsView {
                builder_must_be_holder: propagated_value(
                    p.builder_must_be_holder,
                    c.builder_must_be_holder,
                    o,
                ),
                ..c
            },
            ..child
        },
        ChildUpdatePropagationPermissivenessType::Namespaces => child,
        ChildUpdatePropagationPermissivenessType::InstanceUpdatePermissiveness => PlayerClassDataView {
            settings: PlayerClassSettingsView {
                instance_update_permissiveness: propagated_list(
                    p.instance_update_permissiveness,
                    c.instance_update_permissiveness,
                    o,
                ),
                ..c
            },
            ..child
        },
        ChildUpdatePropagationPermissivenessType::EquippingItemsPermissiveness => PlayerClassDataView {
            settings: PlayerClassSettingsView {
                equip_item_permissiveness: propagated_list(
                    p.equip_item_permissiveness,
                    c.equip_item_permissiveness,
                    o,
                ),
                unequip_item_permissiveness: propagated_list(
                    p.unequip_item_permissiveness,
                    c.unequip_item_permissiveness,
                    o,
                ),
                ..c
            },
            ..child
        },
        ChildUpdatePropagationPermissivenessType::AddingItemsPermissiveness => PlayerClassDataView {
            settings: PlayerClassSettingsView {
                add_item_permissiveness: propagated_list(
                    p.add_item_permissiveness,
                    c.add_item_permissiveness,
                    o,
                ),
                remove_item_permissiveness: propagated_list(
                    p.remove_item_permissiveness,
                    c.remove_item_permissiveness,
                    o,
                ),
                ..c
            },
            ..child
        },
        ChildUpdatePropagationPermissivenessType::BasicStatTemplates => PlayerClassDataView {
            config: PlayerClassConfigView {
                basic_stats: propagated_list(parent.config.basic_stats, child.config.basic_stats, o),
                ..child.config
            },
            ..child
        },
        ChildUpdatePropagationPermissivenessType::DefaultCategory => PlayerClassDataView {
            settings: PlayerClassSettingsView {
                default_category: propagated_value(p.default_category, c.default_category, o),
                ..c
            },
            ..child
        },
        ChildUpdatePropagationPermissivenessType::StatsUri => PlayerClassDataView {
            config: PlayerClassConfigView {
                starting_stats_uri: propagated_value(
                    parent.config.starting_stats_uri,
                    child.config.starting_stats_uri,
                    o,
                ),
                ..child.config
            },
            ..child
        },
        ChildUpdatePropagationPermissivenessType::BodyParts => PlayerClassDataView {
            config: PlayerClassConfigView {
                body_parts: propagated_list(parent.config.body_parts, child.config.body_parts, o),
                ..child.config
            },
            ..child
        },
    }
}

/// Applies one rule of the parent's policy to the child in place.
fn apply_rule_in_place(
    player: &mut PlayerClass,
    player_class_data: &mut PlayerClassData,
    parent_item: &PlayerClass,
    parent_item_data: &PlayerClassData,
    rule: &ChildUpdatePropagationPermissiveness,
)
    ensures
        final(player_class_data).deep_view() == apply_rule(
            rule.deep_view().value,
            parent_item_data.deep_view(),
            old(player_class_data).deep_view(),
        ),
        final(player).namespaces.deep_view() == (if rule.child_update_propagation_permissiveness_type
            == ChildUpdatePropagationPermissivenessType::Namespaces {
            propagated_list(
                parent_item.namespaces.deep_view(),
                old(player).namespaces.deep_view(),
                rule.overridable,
            )
        } else {
            old(player).namespaces.deep_view()
        }),
        final(player).parent == old(player).parent,
        final(player).data == old(player).data,
{
    reveal(apply_rule);
    match rule.child_update_propagation_permissiveness_type {
        ChildUpdatePropagationPermissivenessType::StakingPermissiveness => {
            player_class_data.settings.staking_permissiveness = propagate_parent_array(
                PropagateParentArrayArgs {
                    parent_items: &parent_item_data.settings.staking_permissiveness,
                    child_items: &player_class_data.settings.staking_permissiveness,
                    overridable: rule.overridable,
                },
            );
            player_class_data.settings.unstaking_permissiveness =
                propagate_parent_array(
                PropagateParentArrayArgs {
                    parent_items: &parent_item_data.settings.unstaking_permissiveness,
                    child_items: &player_class_data.settings.unstaking_permissiveness,
                    overridable: rule.overridable,
                },
            );
        },
        ChildUpdatePropagationPermissivenessType::UpdatePermissiveness => {
            player_class_data.settings.update_permissiveness = propagate_parent_array(
                PropagateParentArrayArgs {
                    parent_items: &parent_item_data.settings.update_permissiveness,
                    child_items: &player_class_data.settings.update_permissiveness,
                    overridable: rule.overridable,
                },
            );
        },
        ChildUpdatePropagationPermissivenessType::BuildPermissiveness => {
            player_class_data.settings.build_permissiveness = propagate_parent_array(
                PropagateParentArrayArgs {
                    parent_items: &parent_item_data.settings.build_permissiveness,
                    child_items: &player_class_data.settings.build_permissiveness,
                    overridable: rule.overridable,
                },
            );
        },
        ChildUpdatePropagationPermissivenessType::ChildUpdatePropagationPermissiveness => {
            player_class_data.settings.child_update_propagation_permissiveness =
                propagate_parent_array(
                PropagateParentArrayArgs {
                    parent_items: &parent_item_data.settings.child_update_propagation_permissiveness,
                    child_items: &player_class_data.settings.child_update_propagation_permissiveness,
                    overridable: rule.overridable,
                },
            );
        },
        ChildUpdatePropagationPermissivenessType::ChildrenMustBeEditionsPermissiveness => {
            player_class_data.settings.children_must_be_editions = propagate_parent(
                PropagateParentArgs {
                    parent: &parent_item_data.settings.children_must_be_editions,
                    child: &player_class_data.settings.children_must_be_editions,
                    overridable: rule.overridable,
                },
            );
        },
        ChildUpdatePropagationPermissivenessType::BuilderMustBeHolderPermissiveness => {
            player_class_data.settings.builder_must_be_holder = propagate_parent(
                PropagateParentArgs {
                    parent: &parent_item_data.settings.builder_must_be_holder,
                    child: &player_class_data.settings.builder_must_be_holder,
                    overridable: rule.overridable,
                },
            );
        },
        ChildUpdatePropagationPermissivenessType::Namespaces => {
            player.namespaces = propagate_parent_array(
                PropagateParentArrayArgs {
                    parent_items: &parent_item.namespaces,
                    child_items: &player.namespaces,
                    overridable: rule.overridable,
                },
            );
        },
        ChildUpdatePropagationPermissivenessType::InstanceUpdatePermissiveness => {
            player_class_data.settings.instance_update_permissiveness =
                propagate_parent_array(
                PropagateParentArrayArgs {
                    parent_items: &parent_item_data.settings.instance_update_permissiveness,
                    child_items: &player_class_data.settings.instance_update_permissiveness,
                    overridable: rule.overridable,
                },
            );
        },
        ChildUpdatePropagationPermissivenessType::EquippingItemsPermissiveness => {
            player_class_data.settings.equip_item_permissiveness =
                propagate_parent_array(
                PropagateParentArrayArgs {
                    parent_items: &parent_item_data.settings.equip_item_permissiveness,
                    child_items: &player_class_data.settings.equip_item_permissiveness,
                    overridable: rule.overridable,
                },
            );
            player_class_data.settings.unequip_item_permissiveness =
                propagate_parent_array(
                PropagateParentArrayArgs {
                    parent_items: &parent_item_data.settings.unequip_item_permissiveness,
                    child_items: &player_class_data.settings.unequip_item_permissiveness,
                    overridable: rule.overridable,
                },
            );
        },
        ChildUpdatePropagationPermissivenessType::AddingItemsPermissiveness => {
            player_class_data.settings.add_item_permissiveness = propagate_parent_array(
                PropagateParentArrayArgs {
                    parent_items: &parent_item_data.settings.add_item_permissiveness,
                    child_items: &player_class_data.settings.add_item_permissiveness,
                    overridable: rule.overridable,
                },
            );
            player_class_data.settings.remove_item_permissiveness =
                propagate_parent_array(
                PropagateParentArrayArgs {
                    parent_items: &parent_item_data.settings.remove_item_permissiveness,
                    child_items: &player_class_data.settings.remove_item_permissiveness,
                    overridable: rule.overridable,
                },
            );
        },
        ChildUpdatePropagationPermissivenessType::BasicStatTemplates => {
            player_class_data.config.basic_stats = propagate_parent_array(
                PropagateParentArrayArgs {
                    parent_items: &parent_item_data.config.basic_stats,
                    child_items: &player_class_data.config.basic_stats,
                    overridable: rule.overridable,
                },
            );
        },
        ChildUpdatePropagationPermissivenessType::DefaultCategory => {
            player_class_data.settings.default_category = propagate_parent(
                PropagateParentArgs {
                    parent: &parent_item_data.settings.default_category,
                    child: &player_class_data.settings.default_category,
                    overridable: rule.overridable,
                },
            );
        },
        ChildUpdatePropagationPermissivenessType::StatsUri => {
            player_class_data.config.starting_stats_uri = propagate_parent(
                PropagateParentArgs {
                    parent: &parent_item_data.config.starting_stats_uri,
                    child: &player_class_data.config.starting_stats_uri,
                    overridable: rule.overridable,
                },
            );
        },
        ChildUpdatePropagationPermissivenessType::BodyParts => {
            player_class_data.config.body_parts = propagate_parent_array(
                PropagateParentArrayArgs {
                    parent_items: &parent_item_data.config.body_parts,
                    child_items: &player_class_data.config.body_parts,
                    overridable: rule.overridable,
                },
            );
        },
    }
}

/// Brings a child class up to date with its parent: every field that the parent's policy
/// names is resolved against the parent's value, every other field stays as it is. The
/// namespaces live on the class itself, all other fields in its data.
pub fn update_player_class_with_inherited_information(
    player: &mut PlayerClass,
    player_class_data: &mut PlayerClassData,
    parent_item: &PlayerClass,
    parent_item_data: &PlayerClassData,
)
    ensures
        final(player_class_data).deep_view() == propagated_class_data(
            parent_item_data.deep_view(),
            old(player_class_data).deep_view(),
        ),
        final(player).namespaces.deep_view() == resolved_list(
            policy_of(parent_item_data.deep_view()),
            ChildUpdatePropagationPermissivenessType::Namespaces,
            parent_item.namespaces.deep_view(),
            old(player).namespaces.deep_view(),
        ),
        final(player).parent == old(player).parent,
        final(player).data == old(player).data,
{
    let ghost parent = parent_item_data.deep_view();
    let ghost child = player_class_data.deep_view();
    let ghost parent_namespaces = parent_item.namespaces.deep_view();
    let ghost child_namespaces = player.namespaces.deep_view();
    match &parent_item_data.settings.child_update_propagation_permissiveness {
        Some(cupp) => {
            let ghost policy = cupp.deep_view();
            assert(policy == policy_of(parent));
            let mut i: usize = 0;
            proof {
                assert(policy.take(0) =~= Seq::<Tagged<PropagationRule>>::empty());
                lemma_empty_policy(parent, child);
            }
            while i < cupp.len()
                invariant
                    i <= cupp.len(),
                    policy == cupp.deep_view(),
                    parent == parent_item_data.deep_view(),
                    parent_namespaces == parent_item.namespaces.deep_view(),
                    player_class_data.deep_view() == propagated_under(
                        policy.take(i as int),
                        parent,
                        child,
                    ),
                    player.namespaces.deep_view() == resolved_list(
                        policy.take(i as int),
                        ChildUpdatePropagationPermissivenessType::Namespaces,
                        parent_namespaces,
                        child_namespaces,
                    ),
                    player.parent == old(player).parent,
                    player.data == old(player).data,
                decreases cupp.len() - i,
            {
                let update_perm = &cupp[i];
                let ghost before = player_class_data.deep_view();
                proof {
                    lemma_class_step(policy, i as int, parent, child);
                    lemma_list_step(
                        policy,
                        i as int,
                        ChildUpdatePropagationPermissivenessType::Namespaces,
                        parent_namespaces,
                        child_namespaces,
                    );
                    assert(policy[i as int] == update_perm.deep_view());
                }
                apply_rule_in_place(
                    player,
                    player_class_data,
                    parent_item,
                    parent_item_data,
                    update_perm,
                );
                assert(player_class_data.deep_view() == apply_rule(
                    policy[i as int].value,
                    parent,
                    before,
                ));
                i += 1;
            }
            assert(policy.take(cupp.len() as int) =~= policy);
        },
        None => {
            proof {
                lemma_empty_policy(parent, child);
            }
        },
    }
}

/// Resolving a scalar field a second time against the same parent changes nothing.
pub proof fn lemma_resolved_value_idempotent<P>(
    policy: Policy,
    field: ChildUpdatePropagationPermissivenessType,
    parent: Option<Tagged<P>>,
    child: Option<Tagged<P>>,
)
    ensures
        resolved_value(policy, field, parent, resolved_value(policy, field, parent, child))
            == resolved_value(policy, field, parent, child),
{
}

/// Resolving a list field a second time against the same parent changes nothing.
pub proof fn lemma_resolved_list_idempotent<P>(
    policy: Policy,
    field: ChildUpdatePropagationPermissivenessType,
    parent: Option<Seq<Tagged<P>>>,
    child: Option<Seq<Tagged<P>>>,
)
    ensures
        resolved_list(policy, field, parent, resolved_list(policy, field, parent, child))
            == resolved_list(policy, field, parent, child),
{
}

/// Propagation is idempotent: a child that has been brought up to date with a parent is
/// left as it is when the same parent is propagated again.
pub proof fn lemma_propagation_idempotent(parent: PlayerClassDataView, child: PlayerClassDataView)
    ensures
        propagated_class_data(parent, propagated_class_data(parent, child))
            == propagated_class_data(parent, child),
{
    reveal(propagated_under);
    let policy = policy_of(parent);
    let p = parent.settings;
    let c = child.settings;
    let pc = parent.config;
    let cc = child.config;
    lemma_resolved_value_idempotent(
        policy,
        ChildUpdatePropagationPermissivenessType::DefaultCategory,
        p.default_category,
        c.default_category,
    );
    lemma_resolved_value_idempotent(
        policy,
        ChildUpdatePropagationPermissivenessType::ChildrenMustBeEditionsPermissiveness,
        p.children_must_be_editions,
        c.children_must_be_editions,
    );
    lemma_resolved_value_idempotent(
        policy,
        ChildUpdatePropagationPermissivenessType::BuilderMustBeHolderPermissiveness,
        p.builder_must_be_holder,
        c.builder_must_be_holder,
    );
    lemma_resolved_list_idempotent(
        policy,
        ChildUpdatePropagationPermissivenessType::UpdatePermissiveness,
        p.update_permissiveness,
        c.update_permissiveness,
    );
    lemma_resolved_list_idempotent(
        policy,
        ChildUpdatePropagationPermissivenessType::InstanceUpdatePermissiveness,
        p.instance_update_permissiveness,
        c.instance_update_permissiveness,
    );
    lemma_resolved_list_idempotent(
        policy,
        ChildUpdatePropagationPermissivenessType::BuildPermissiveness,
        p.build_permissiveness,
        c.build_permissiveness,
    );
    lemma_resolved_list_idempotent(
        policy,
        ChildUpdatePropagationPermissivenessType::EquippingItemsPermissiveness,
        p.equip_item_permissiveness,
        c.equip_item_permissiveness,
    );
    lemma_resolved_list_idempotent(
        policy,
        ChildUpdatePropagationPermissivenessType::EquippingItemsPermissiveness,
        p.unequip_item_permissiveness,
        c.unequip_item_permissiveness,
    );
    lemma_resolved_list_idempotent(
        policy,
        ChildUpdatePropagationPermissivenessType::AddingItemsPermissiveness,
        p.add_item_permissiveness,
        c.add_item_permissiveness,
    );
    lemma_resolved_list_idempotent(
        policy,
        ChildUpdatePropagationPermissivenessType::AddingItemsPermissiveness,
        p.remove_item_permissiveness,
        c.remove_item_permissiveness,
    );
    lemma_resolved_list_idempotent(
        policy,
        ChildUpdatePropagationPermissivenessType::StakingPermissiveness,
        p.staking_permissiveness,
        c.staking_permissiveness,
    );
    lemma_resolved_list_idempotent(
        policy,
        ChildUpdatePropagationPermissivenessType::StakingPermissiveness,
        p.unstaking_permissiveness,
        c.unstaking_permissiveness,
    );
    lemma_resolved_list_idempotent(
        policy,
        ChildUpdatePropagationPermissivenessType::ChildUpdatePropagationPermissiveness,
        p.child_update_propagation_permissiveness,
        c.child_update_propagation_permissiveness,
    );
    lemma_resolved_value_idempotent(
        policy,
        ChildUpdatePropagationPermissivenessType::StatsUri,
        pc.starting_stats_uri,
        cc.starting_stats_uri,
    );
    lemma_resolved_list_idempotent(
        policy,
        ChildUpdatePropagationPermissivenessType::BasicStatTemplates,
        pc.basic_stats,
        cc.basic_stats,
    );
    lemma_resolved_list_idempotent(
        policy,
        ChildUpdatePropagationPermissivenessType::BodyParts,
        pc.body_parts,
        cc.body_parts,
    );
}

/// Every rule of `policy` that names `field` is marked as not overridable.
pub open spec fn never_overridable(
    policy: Policy,
    field: ChildUpdatePropagationPermissivenessType,
) -> bool {
    forall|i: int|
        0 <= i < policy.len() && (#[trigger] policy[i]).value.field == field
            ==> !policy[i].value.overridable
}

/// A scalar field after a row of parent updates. Each round holds the policy and the
/// value of the parent at that update.
pub open spec fn resolved_value_through<P>(
    rounds: Seq<(Policy, Option<Tagged<P>>)>,
    field: ChildUpdatePropagationPermissivenessType,
    child: Option<Tagged<P>>,
) -> Option<Tagged<P>>
    decreases rounds.len(),
{
    if rounds.len() == 0 {
        child
    } else {
        resolved_value(
            rounds.last().0,
            field,
            rounds.last().1,
            resolved_value_through(rounds.drop_last(), field, child),
        )
    }
}

/// A list field after a row of parent updates. Each round holds the policy and the list
/// of the parent at that update.
pub open spec fn resolved_list_through<P>(
    rounds: Seq<(Policy, Option<Seq<Tagged<P>>>)>,
    field: ChildUpdatePropagationPermissivenessType,
    child: Option<Seq<Tagged<P>>>,
) -> Option<Seq<Tagged<P>>>
    decreases rounds.len(),
{
    if rounds.len() == 0 {
        child
    } else {
        resolved_list(
            rounds.last().0,
            field,
            rounds.last().1,
            resolved_list_through(rounds.drop_last(), field, child),
        )
    }
}

/// Override sealing for scalar fields: a local override survives every row of parent
/// updates whose policies never mark the field as overridable.
pub proof fn lemma_value_override_sealed<P>(
    rounds: Seq<(Policy, Option<Tagged<P>>)>,
    field: ChildUpdatePropagationPermissivenessType,
    child: Option<Tagged<P>>,
)
    requires
        value_overridden(child),
        forall|k: int| 0 <= k < rounds.len() ==> never_overridable((#[trigger] rounds[k]).0, field),
    ensures
        resolved_value_through(rounds, field, child) == child,
    decreases rounds.len(),
{
    if rounds.len() > 0 {
        let earlier = rounds.drop_last();
        assert forall|k: int| 0 <= k < earlier.len() implies never_overridable(
            (#[trigger] earlier[k]).0,
            field,
        ) by {
            assert(earlier[k] == rounds[k]);
        }
        lemma_value_override_sealed(earlier, field, child);
        assert(never_overridable(rounds[rounds.len() - 1].0, field));
    }
}

/// Override sealing for list fields: a local override survives every row of parent
/// updates whose policies never mark the field as overridable.
pub proof fn lemma_list_override_sealed<P>(
    rounds: Seq<(Policy, Option<Seq<Tagged<P>>>)>,
    field: ChildUpdatePropagationPermissivenessType,
    child: Option<Seq<Tagged<P>>>,
)
    requires
        list_overridden(child),
        forall|k: int| 0 <= k < rounds.len() ==> never_overridable((#[trigger] rounds[k]).0, field),
    ensures
        resolved_list_through(rounds, field, child) == child,
    decreases rounds.len(),
{
    if rounds.len() > 0 {
        let earlier = rounds.drop_last();
        assert forall|k: int| 0 <= k < earlier.len() implies never_overridable(
            (#[trigger] earlier[k]).0,
            field,
        ) by {
            assert(earlier[k] == rounds[k]);
        }
        lemma_list_override_sealed(earlier, field, child);
        assert(never_overridable(rounds[rounds.len() - 1].0, field));
    }
}

} // verus!
