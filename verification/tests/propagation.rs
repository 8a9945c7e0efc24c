use raindrops_player::class::{
    BodyPart, Boolean, Callback, ChildUpdatePropagationPermissiveness,
    ChildUpdatePropagationPermissivenessType, NamespaceAndIndex, Permissiveness,
    PermissivenessType, PlayerCategory, PlayerClass, PlayerClassConfig, PlayerClassData,
    PlayerClassSettings, StatsUri,
};
use raindrops_player::inheritance::{
    propagate_parent, propagate_parent_array, InheritanceState, PropagateParentArgs,
    PropagateParentArrayArgs,
};
use raindrops_player::propagate::update_player_class_with_inherited_information;
use raindrops_player::stat::{BasicStatTemplate, BasicStatType};

fn perm(kind: PermissivenessType, inherited: InheritanceState) -> Permissiveness {
    Permissiveness { inherited, permissiveness_type: kind }
}

fn rule(
    field: ChildUpdatePropagationPermissivenessType,
    overridable: bool,
) -> ChildUpdatePropagationPermissiveness {
    ChildUpdatePropagationPermissiveness {
        overridable,
        inherited: InheritanceState::NotInherited,
        child_update_propagation_permissiveness_type: field,
    }
}

fn empty_settings() -> PlayerClassSettings {
    PlayerClassSettings {
        default_category: None,
        children_must_be_editions: None,
        builder_must_be_holder: None,
        update_permissiveness: None,
        instance_update_permissiveness: None,
        build_permissiveness: None,
        equip_item_permissiveness: None,
        add_item_permissiveness: None,
        unequip_item_permissiveness: None,
        remove_item_permissiveness: None,
        staking_permissiveness: None,
        unstaking_permissiveness: None,
        child_update_propagation_permissiveness: None,
    }
}

fn empty_data() -> PlayerClassData {
    PlayerClassData {
        settings: empty_settings(),
        config: PlayerClassConfig {
            starting_stats_uri: None,
            basic_stats: None,
            body_parts: None,
            equip_validation: None,
            add_to_pack_validation: None,
        },
    }
}

fn class_of(data: &PlayerClassData, namespaces: Option<Vec<NamespaceAndIndex>>) -> PlayerClass {
    PlayerClass { namespaces, parent: None, data: data.clone() }
}

fn strength(inherited: InheritanceState) -> BasicStatTemplate {
    BasicStatTemplate {
        index: 0,
        name: "strength".to_string(),
        stat_type: BasicStatType::Integer { min: Some(0), max: Some(100), starting: 10 },
        inherited,
    }
}

fn mood(inherited: InheritanceState) -> BasicStatTemplate {
    BasicStatTemplate {
        index: 1,
        name: "mood".to_string(),
        stat_type: BasicStatType::Enum {
            starting: 0,
            values: vec![("calm".to_string(), 0), ("angry".to_string(), 1)],
        },
        inherited,
    }
}

fn full_parent() -> (PlayerClass, PlayerClassData) {
    let mut data = empty_data();
    data.settings.default_category = Some(PlayerCategory {
        category: "warrior".to_string(),
        inherited: InheritanceState::NotInherited,
    });
    data.settings.children_must_be_editions =
        Some(Boolean { inherited: InheritanceState::NotInherited, boolean: true });
    data.settings.builder_must_be_holder =
        Some(Boolean { inherited: InheritanceState::Overridden, boolean: false });
    data.settings.update_permissiveness =
        Some(vec![perm(PermissivenessType::UpdateAuthority, InheritanceState::NotInherited)]);
    data.settings.instance_update_permissiveness =
        Some(vec![perm(PermissivenessType::TokenHolder, InheritanceState::NotInherited)]);
    data.settings.build_permissiveness =
        Some(vec![perm(PermissivenessType::Anybody, InheritanceState::Overridden)]);
    data.settings.equip_item_permissiveness =
        Some(vec![perm(PermissivenessType::TokenHolder, InheritanceState::NotInherited)]);
    data.settings.unequip_item_permissiveness =
        Some(vec![perm(PermissivenessType::ParentTokenHolder, InheritanceState::NotInherited)]);
    data.settings.add_item_permissiveness =
        Some(vec![perm(PermissivenessType::TokenHolder, InheritanceState::NotInherited)]);
    data.settings.remove_item_permissiveness =
        Some(vec![perm(PermissivenessType::UpdateAuthority, InheritanceState::NotInherited)]);
    data.settings.staking_permissiveness =
        Some(vec![perm(PermissivenessType::Anybody, InheritanceState::NotInherited)]);
    data.settings.unstaking_permissiveness =
        Some(vec![perm(PermissivenessType::TokenHolder, InheritanceState::NotInherited)]);
    data.config.starting_stats_uri = Some(StatsUri {
        stats_uri: "https://stats.example/parent".to_string(),
        inherited: InheritanceState::NotInherited,
    });
    data.config.basic_stats = Some(vec![
        strength(InheritanceState::NotInherited),
        mood(InheritanceState::Overridden),
    ]);
    data.config.body_parts = Some(vec![BodyPart {
        index: 0,
        body_part: "head".to_string(),
        total_item_spots: Some(2),
        inherited: InheritanceState::NotInherited,
    }]);
    data.config.equip_validation = Some(Callback { key: [9u8; 32], code: 1 });
    data.settings.child_update_propagation_permissiveness = Some(vec![
        rule(ChildUpdatePropagationPermissivenessType::StakingPermissiveness, true),
        rule(ChildUpdatePropagationPermissivenessType::UpdatePermissiveness, true),
        rule(ChildUpdatePropagationPermissivenessType::BuildPermissiveness, true),
        rule(ChildUpdatePropagationPermissivenessType::ChildUpdatePropagationPermissiveness, true),
        rule(ChildUpdatePropagationPermissivenessType::ChildrenMustBeEditionsPermissiveness, true),
        rule(ChildUpdatePropagationPermissivenessType::BuilderMustBeHolderPermissiveness, true),
        rule(ChildUpdatePropagationPermissivenessType::Namespaces, true),
        rule(ChildUpdatePropagationPermissivenessType::InstanceUpdatePermissiveness, true),
        rule(ChildUpdatePropagationPermissivenessType::EquippingItemsPermissiveness, true),
        rule(ChildUpdatePropagationPermissivenessType::AddingItemsPermissiveness, true),
        rule(ChildUpdatePropagationPermissivenessType::BasicStatTemplates, true),
        rule(ChildUpdatePropagationPermissivenessType::DefaultCategory, true),
        rule(ChildUpdatePropagationPermissivenessType::StatsUri, true),
        rule(ChildUpdatePropagationPermissivenessType::BodyParts, true),
    ]);
    let namespaces = Some(vec![NamespaceAndIndex {
        namespace: [3u8; 32],
        indexed: true,
        inherited: InheritanceState::NotInherited,
    }]);
    (class_of(&data, namespaces), data)
}

#[test]
fn scalar_without_override_takes_parent_value() {
    let parent = Some(Boolean { inherited: InheritanceState::NotInherited, boolean: true });
    let child = Some(Boolean { inherited: InheritanceState::NotInherited, boolean: false });
    let resolved =
        propagate_parent(PropagateParentArgs { parent: &parent, child: &child, overridable: false });
    assert_eq!(resolved, Some(Boolean { inherited: InheritanceState::Inherited, boolean: true }));
}

#[test]
fn scalar_override_survives_rule_that_is_not_overridable() {
    let parent = Some(Boolean { inherited: InheritanceState::NotInherited, boolean: true });
    let child = Some(Boolean { inherited: InheritanceState::Overridden, boolean: false });
    let resolved =
        propagate_parent(PropagateParentArgs { parent: &parent, child: &child, overridable: false });
    assert_eq!(resolved, child);
}

#[test]
fn scalar_override_gives_way_to_overridable_rule() {
    let parent = Some(Boolean { inherited: InheritanceState::NotInherited, boolean: true });
    let child = Some(Boolean { inherited: InheritanceState::Overridden, boolean: false });
    let resolved =
        propagate_parent(PropagateParentArgs { parent: &parent, child: &child, overridable: true });
    assert_eq!(resolved, Some(Boolean { inherited: InheritanceState::Inherited, boolean: true }));
}

#[test]
fn scalar_is_cleared_when_parent_has_none() {
    let parent: Option<Boolean> = None;
    let child = Some(Boolean { inherited: InheritanceState::Inherited, boolean: false });
    let resolved =
        propagate_parent(PropagateParentArgs { parent: &parent, child: &child, overridable: true });
    assert_eq!(resolved, None);
    let kept = propagate_parent(PropagateParentArgs {
        parent: &parent,
        child: &Some(Boolean { inherited: InheritanceState::Overridden, boolean: false }),
        overridable: false,
    });
    assert_eq!(kept, Some(Boolean { inherited: InheritanceState::Overridden, boolean: false }));
}

#[test]
fn list_is_replaced_as_a_whole() {
    let parent = Some(vec![
        perm(PermissivenessType::TokenHolder, InheritanceState::NotInherited),
        perm(PermissivenessType::Anybody, InheritanceState::Overridden),
    ]);
    let child = Some(vec![
        perm(PermissivenessType::UpdateAuthority, InheritanceState::Inherited),
        perm(PermissivenessType::UpdateAuthority, InheritanceState::NotInherited),
        perm(PermissivenessType::UpdateAuthority, InheritanceState::Inherited),
    ]);
    let resolved = propagate_parent_array(PropagateParentArrayArgs {
        parent_items: &parent,
        child_items: &child,
        overridable: false,
    });
    assert_eq!(
        resolved,
        Some(vec![
            perm(PermissivenessType::TokenHolder, InheritanceState::Inherited),
            perm(PermissivenessType::Anybody, InheritanceState::Inherited),
        ])
    );
}

#[test]
fn list_with_one_overridden_item_is_kept_as_a_whole() {
    let parent = Some(vec![perm(PermissivenessType::TokenHolder, InheritanceState::NotInherited)]);
    let child = Some(vec![
        perm(PermissivenessType::UpdateAuthority, InheritanceState::Inherited),
        perm(PermissivenessType::Anybody, InheritanceState::Overridden),
    ]);
    let kept = propagate_parent_array(PropagateParentArrayArgs {
        parent_items: &parent,
        child_items: &child,
        overridable: false,
    });
    assert_eq!(kept, child);
    let replaced = propagate_parent_array(PropagateParentArrayArgs {
        parent_items: &parent,
        child_items: &child,
        overridable: true,
    });
    assert_eq!(
        replaced,
        Some(vec![perm(PermissivenessType::TokenHolder, InheritanceState::Inherited)])
    );
}

#[test]
fn empty_or_missing_child_list_takes_parent_list() {
    let parent = Some(vec![perm(PermissivenessType::TokenHolder, InheritanceState::NotInherited)]);
    let expected = Some(vec![perm(PermissivenessType::TokenHolder, InheritanceState::Inherited)]);
    let from_empty = propagate_parent_array(PropagateParentArrayArgs {
        parent_items: &parent,
        child_items: &Some(vec![]),
        overridable: false,
    });
    assert_eq!(from_empty, expected);
    let from_none = propagate_parent_array(PropagateParentArrayArgs {
        parent_items: &parent,
        child_items: &None,
        overridable: false,
    });
    assert_eq!(from_none, expected);
}

#[test]
fn class_without_policy_hands_nothing_down() {
    let (mut parent, mut parent_data) = full_parent();
    parent_data.settings.child_update_propagation_permissiveness = None;
    parent.data = parent_data.clone();
    let mut child_data = empty_data();
    child_data.settings.update_permissiveness =
        Some(vec![perm(PermissivenessType::Anybody, InheritanceState::NotInherited)]);
    let mut child = class_of(&child_data, None);
    let before_data = child_data.clone();
    let before = child.clone();
    update_player_class_with_inherited_information(
        &mut child,
        &mut child_data,
        &parent,
        &parent_data,
    );
    assert_eq!(child_data, before_data);
    assert_eq!(child, before);
}

#[test]
fn every_named_field_is_handed_down() {
    let (parent, parent_data) = full_parent();
    let mut child_data = empty_data();
    child_data.config.add_to_pack_validation = Some(Callback { key: [5u8; 32], code: 7 });
    let mut child = class_of(&child_data, None);
    child.parent = Some([1u8; 32]);
    update_player_class_with_inherited_information(
        &mut child,
        &mut child_data,
        &parent,
        &parent_data,
    );
    let s = &child_data.settings;
    assert_eq!(
        s.default_category,
        Some(PlayerCategory {
            category: "warrior".to_string(),
            inherited: InheritanceState::Inherited
        })
    );
    assert_eq!(
        s.children_must_be_editions,
        Some(Boolean { inherited: InheritanceState::Inherited, boolean: true })
    );
    assert_eq!(
        s.builder_must_be_holder,
        Some(Boolean { inherited: InheritanceState::Inherited, boolean: false })
    );
    assert_eq!(
        s.update_permissiveness,
        Some(vec![perm(PermissivenessType::UpdateAuthority, InheritanceState::Inherited)])
    );
    assert_eq!(
        s.instance_update_permissiveness,
        Some(vec![perm(PermissivenessType::TokenHolder, InheritanceState::Inherited)])
    );
    assert_eq!(
        s.build_permissiveness,
        Some(vec![perm(PermissivenessType::Anybody, InheritanceState::Inherited)])
    );
    assert_eq!(
        s.equip_item_permissiveness,
        Some(vec![perm(PermissivenessType::TokenHolder, InheritanceState::Inherited)])
    );
    assert_eq!(
        s.unequip_item_permissiveness,
        Some(vec![perm(PermissivenessType::ParentTokenHolder, InheritanceState::Inherited)])
    );
    assert_eq!(
        s.add_item_permissiveness,
        Some(vec![perm(PermissivenessType::TokenHolder, InheritanceState::Inherited)])
    );
    assert_eq!(
        s.remove_item_permissiveness,
        Some(vec![perm(PermissivenessType::UpdateAuthority, InheritanceState::Inherited)])
    );
    assert_eq!(
        s.staking_permissiveness,
        Some(vec![perm(PermissivenessType::Anybody, InheritanceState::Inherited)])
    );
    assert_eq!(
        s.unstaking_permissiveness,
        Some(vec![perm(PermissivenessType::TokenHolder, InheritanceState::Inherited)])
    );
    let handed_policy = s.child_update_propagation_permissiveness.clone().unwrap();
    let parent_policy = parent_data.settings.child_update_propagation_permissiveness.clone().unwrap();
    assert_eq!(handed_policy.len(), parent_policy.len());
    for (got, source) in handed_policy.iter().zip(parent_policy.iter()) {
        assert_eq!(got.inherited, InheritanceState::Inherited);
        assert_eq!(got.overridable, source.overridable);
        assert_eq!(
            got.child_update_propagation_permissiveness_type,
            source.child_update_propagation_permissiveness_type
        );
    }
    let c = &child_data.config;
    assert_eq!(
        c.starting_stats_uri,
        Some(StatsUri {
            stats_uri: "https://stats.example/parent".to_string(),
            inherited: InheritanceState::Inherited
        })
    );
    assert_eq!(
        c.basic_stats,
        Some(vec![strength(InheritanceState::Inherited), mood(InheritanceState::Inherited)])
    );
    assert_eq!(
        c.body_parts,
        Some(vec![BodyPart {
            index: 0,
            body_part: "head".to_string(),
            total_item_spots: Some(2),
            inherited: InheritanceState::Inherited,
        }])
    );
    assert_eq!(c.equip_validation, None);
    assert_eq!(c.add_to_pack_validation, Some(Callback { key: [5u8; 32], code: 7 }));
    assert_eq!(
        child.namespaces,
        Some(vec![NamespaceAndIndex {
            namespace: [3u8; 32],
            indexed: true,
            inherited: InheritanceState::Inherited,
        }])
    );
    assert_eq!(child.parent, Some([1u8; 32]));
}

#[test]
fn field_without_rule_is_left_untouched() {
    let (mut parent, mut parent_data) = full_parent();
    parent_data.settings.child_update_propagation_permissiveness =
        Some(vec![rule(ChildUpdatePropagationPermissivenessType::BodyParts, true)]);
    parent.data = parent_data.clone();
    let mut child_data = empty_data();
    child_data.settings.update_permissiveness =
        Some(vec![perm(PermissivenessType::Anybody, InheritanceState::NotInherited)]);
    let mut child = class_of(&child_data, None);
    update_player_class_with_inherited_information(
        &mut child,
        &mut child_data,
        &parent,
        &parent_data,
    );
    assert_eq!(
        child_data.settings.update_permissiveness,
        Some(vec![perm(PermissivenessType::Anybody, InheritanceState::NotInherited)])
    );
    assert_eq!(child_data.settings.default_category, None);
    assert_eq!(child_data.config.basic_stats, None);
    assert_eq!(child.namespaces, None);
    assert_eq!(child_data.config.body_parts, parent_data.config.body_parts.map(|parts| {
        parts
            .into_iter()
            .map(|p| BodyPart { inherited: InheritanceState::Inherited, ..p })
            .collect::<Vec<BodyPart>>()
    }));
}

#[test]
fn one_rule_covers_both_lists_of_a_pair() {
    let (mut parent, mut parent_data) = full_parent();
    parent_data.settings.child_update_propagation_permissiveness =
        Some(vec![rule(ChildUpdatePropagationPermissivenessType::EquippingItemsPermissiveness, false)]);
    parent.data = parent_data.clone();
    let mut child_data = empty_data();
    child_data.settings.unequip_item_permissiveness =
        Some(vec![perm(PermissivenessType::Anybody, InheritanceState::Overridden)]);
    let mut child = class_of(&child_data, None);
    update_player_class_with_inherited_information(
        &mut child,
        &mut child_data,
        &parent,
        &parent_data,
    );
    assert_eq!(
        child_data.settings.equip_item_permissiveness,
        Some(vec![perm(PermissivenessType::TokenHolder, InheritanceState::Inherited)])
    );
    assert_eq!(
        child_data.settings.unequip_item_permissiveness,
        Some(vec![perm(PermissivenessType::Anybody, InheritanceState::Overridden)])
    );
}

#[test]
fn propagating_twice_equals_propagating_once() {
    let (mut parent, mut parent_data) = full_parent();
    let mut policy = parent_data.settings.child_update_propagation_permissiveness.clone().unwrap();
    policy[1].overridable = false;
    policy[10].overridable = false;
    policy[11].overridable = false;
    parent_data.settings.child_update_propagation_permissiveness = Some(policy);
    parent.data = parent_data.clone();
    let mut child_data = empty_data();
    child_data.settings.update_permissiveness =
        Some(vec![perm(PermissivenessType::Anybody, InheritanceState::Overridden)]);
    child_data.settings.default_category = Some(PlayerCategory {
        category: "mage".to_string(),
        inherited: InheritanceState::Overridden,
    });
    child_data.config.basic_stats = Some(vec![strength(InheritanceState::Inherited)]);
    child_data.settings.build_permissiveness =
        Some(vec![perm(PermissivenessType::TokenHolder, InheritanceState::Overridden)]);
    let mut child = class_of(&child_data, Some(vec![]));
    update_player_class_with_inherited_information(
        &mut child,
        &mut child_data,
        &parent,
        &parent_data,
    );
    let once_data = child_data.clone();
    let once = child.clone();
    update_player_class_with_inherited_information(
        &mut child,
        &mut child_data,
        &parent,
        &parent_data,
    );
    assert_eq!(child_data, once_data);
    assert_eq!(child, once);
    assert_eq!(
        once_data.settings.update_permissiveness,
        Some(vec![perm(PermissivenessType::Anybody, InheritanceState::Overridden)])
    );
    assert_eq!(
        once_data.settings.default_category,
        Some(PlayerCategory { category: "mage".to_string(), inherited: InheritanceState::Overridden })
    );
    assert_eq!(
        once_data.settings.build_permissiveness,
        Some(vec![perm(PermissivenessType::Anybody, InheritanceState::Inherited)])
    );
}

#[test]
fn sealed_override_survives_a_row_of_parent_updates() {
    let (mut parent, mut parent_data) = full_parent();
    parent_data.settings.child_update_propagation_permissiveness = Some(vec![
        rule(ChildUpdatePropagationPermissivenessType::DefaultCategory, false),
        rule(ChildUpdatePropagationPermissivenessType::UpdatePermissiveness, false),
        rule(ChildUpdatePropagationPermissivenessType::StatsUri, true),
    ]);
    parent.data = parent_data.clone();
    let mut child_data = empty_data();
    let sealed_category = Some(PlayerCategory {
        category: "mage".to_string(),
        inherited: InheritanceState::Overridden,
    });
    let sealed_list = Some(vec![perm(PermissivenessType::Anybody, InheritanceState::Overridden)]);
    child_data.settings.default_category = sealed_category.clone();
    child_data.settings.update_permissiveness = sealed_list.clone();
    child_data.config.starting_stats_uri = Some(StatsUri {
        stats_uri: "https://stats.example/child".to_string(),
        inherited: InheritanceState::Overridden,
    });
    let mut child = class_of(&child_data, None);
    let names = ["rogue", "bard", "monk"];
    for (round, name) in names.iter().enumerate() {
        parent_data.settings.default_category = Some(PlayerCategory {
            category: name.to_string(),
            inherited: InheritanceState::NotInherited,
        });
        parent_data.settings.update_permissiveness = Some(vec![
            perm(PermissivenessType::TokenHolder, InheritanceState::NotInherited);
            round + 1
        ]);
        parent_data.config.starting_stats_uri = Some(StatsUri {
            stats_uri: format!("https://stats.example/{}", name),
            inherited: InheritanceState::NotInherited,
        });
        parent.data = parent_data.clone();
        update_player_class_with_inherited_information(
            &mut child,
            &mut child_data,
            &parent,
            &parent_data,
        );
        assert_eq!(child_data.settings.default_category, sealed_category);
        assert_eq!(child_data.settings.update_permissiveness, sealed_list);
        assert_eq!(
            child_data.config.starting_stats_uri,
            Some(StatsUri {
                stats_uri: format!("https://stats.example/{}", name),
                inherited: InheritanceState::Inherited,
            })
        );
    }
}

#[test]
fn later_overridable_rule_unseals_a_field() {
    let (mut parent, mut parent_data) = full_parent();
    parent_data.settings.child_update_propagation_permissiveness = Some(vec![
        rule(ChildUpdatePropagationPermissivenessType::DefaultCategory, false),
        rule(ChildUpdatePropagationPermissivenessType::DefaultCategory, true),
    ]);
    parent.data = parent_data.clone();
    let mut child_data = empty_data();
    child_data.settings.default_category = Some(PlayerCategory {
        category: "mage".to_string(),
        inherited: InheritanceState::Overridden,
    });
    let mut child = class_of(&child_data, None);
    update_player_class_with_inherited_information(
        &mut child,
        &mut child_data,
        &parent,
        &parent_data,
    );
    assert_eq!(
        child_data.settings.default_category,
        Some(PlayerCategory {
            category: "warrior".to_string(),
            inherited: InheritanceState::Inherited
        })
    );
}
