use raindrops_player::class::{
    NamespaceAndIndex, PlayerCategory, PlayerClass, PlayerClassConfig, PlayerClassData,
    PlayerClassSettings, StatsUri,
};
use raindrops_player::error::ErrorCode;
use raindrops_player::inheritance::InheritanceState;
use raindrops_player::player::{EquippedItem, Player, PlayerData};
use raindrops_player::reconcile::{propagate_player_class_data_fields_to_player_data, stats_fit};
use raindrops_player::stat::{BasicStat, BasicStatState, BasicStatTemplate, BasicStatType};

fn template(index: u16, name: &str, stat_type: BasicStatType) -> BasicStatTemplate {
    BasicStatTemplate {
        index,
        name: name.to_string(),
        stat_type,
        inherited: InheritanceState::NotInherited,
    }
}

fn templates() -> Vec<BasicStatTemplate> {
    vec![
        template(0, "strength", BasicStatType::Integer { min: Some(0), max: Some(100), starting: 10 }),
        template(
            1,
            "mood",
            BasicStatType::Enum {
                starting: 4,
                values: vec![("calm".to_string(), 4), ("angry".to_string(), 6)],
            },
        ),
        template(2, "alive", BasicStatType::Bool { starting: true }),
        template(3, "title", BasicStatType::String { starting: "nobody".to_string() }),
    ]
}

fn class_of(stats: Option<Vec<BasicStatTemplate>>) -> PlayerClass {
    PlayerClass {
        namespaces: Some(vec![NamespaceAndIndex {
            namespace: [6u8; 32],
            indexed: false,
            inherited: InheritanceState::Overridden,
        }]),
        parent: None,
        data: PlayerClassData {
            settings: PlayerClassSettings {
                default_category: Some(PlayerCategory {
                    category: "warrior".to_string(),
                    inherited: InheritanceState::Inherited,
                }),
                children_must_be_editions: None,
                builder_must_be_holder: None,
                update_permissiveness: None,
                instance_update_permissiveness: None,
                build_permissiveness: None,
                equip_item_permissiveness: None,
                add_item_permissiveness: None,
                unequip_item_permissiveness: None,
                remove_item_permissiveness: None,
                staking_permissiveness: None,
                unstaking_permissiveness: None,
                child_update_propagation_permissiveness: None,
            },
            config: PlayerClassConfig {
                starting_stats_uri: Some(StatsUri {
                    stats_uri: "https://stats.example/class".to_string(),
                    inherited: InheritanceState::NotInherited,
                }),
                basic_stats: stats,
                body_parts: None,
                equip_validation: None,
                add_to_pack_validation: None,
            },
        },
    }
}

fn player_of(stats: Option<Vec<BasicStat>>) -> Player {
    Player {
        namespaces: None,
        parent: [2u8; 32],
        data: PlayerData { stats_uri: None, category: None, basic_stats: stats },
        equipped_items: vec![EquippedItem { index: 0, item: [1u8; 32], amount: 2 }],
    }
}

fn slot(index: u16, state: BasicStatState) -> BasicStat {
    BasicStat { index, state }
}

fn integer(current: i64, intermediate: i64, calculated: i64) -> BasicStatState {
    BasicStatState::Integer { current, calculated_intermediate: intermediate, calculated }
}

fn reconcile(player: &mut Player, class: &PlayerClass) -> Result<(), ErrorCode> {
    assert!(stats_fit(class, player));
    propagate_player_class_data_fields_to_player_data(player, class)
}

#[test]
fn player_takes_the_fields_of_its_class() {
    let class = class_of(None);
    let mut player = player_of(None);
    assert_eq!(reconcile(&mut player, &class), Ok(()));
    assert_eq!(player.namespaces, class.namespaces);
    assert_eq!(player.data.stats_uri, class.data.config.starting_stats_uri);
    assert_eq!(player.data.category, class.data.settings.default_category);
    assert_eq!(player.data.basic_stats, None);
    assert_eq!(player.parent, [2u8; 32]);
    assert_eq!(player.equipped_items, vec![EquippedItem { index: 0, item: [1u8; 32], amount: 2 }]);
}

#[test]
fn player_keeps_the_uri_and_the_category_it_has() {
    let class = class_of(None);
    let mut player = player_of(Some(vec![slot(0, BasicStatState::Null)]));
    player.namespaces = Some(vec![]);
    player.data.stats_uri = Some(StatsUri {
        stats_uri: "https://stats.example/player".to_string(),
        inherited: InheritanceState::Overridden,
    });
    player.data.category = Some(PlayerCategory {
        category: "mage".to_string(),
        inherited: InheritanceState::Overridden,
    });
    let before = player.clone();
    assert_eq!(reconcile(&mut player, &class), Ok(()));
    assert_eq!(player.namespaces, class.namespaces);
    assert_eq!(player.data, before.data);
}

#[test]
fn existing_values_are_carried_over() {
    let class = class_of(Some(templates()));
    let mut player = player_of(Some(vec![
        slot(3, BasicStatState::String { current: "sir".to_string() }),
        slot(1, BasicStatState::Enum { current: 6 }),
        slot(0, integer(20, 30, 45)),
        slot(2, BasicStatState::Bool { current: false }),
    ]));
    assert_eq!(reconcile(&mut player, &class), Ok(()));
    assert_eq!(
        player.data.basic_stats,
        Some(vec![
            slot(0, integer(20, 30, 45)),
            slot(1, BasicStatState::Enum { current: 6 }),
            slot(2, BasicStatState::Bool { current: false }),
            slot(3, BasicStatState::String { current: "sir".to_string() }),
        ])
    );
}

#[test]
fn missing_or_mismatched_values_start_anew() {
    let mut class = class_of(Some(templates()));
    class.data.config.basic_stats.as_mut().unwrap()[0] =
        template(0, "seen", BasicStatType::Bool { starting: false });
    let mut fresh = player_of(None);
    assert_eq!(reconcile(&mut fresh, &class), Ok(()));
    let started = Some(vec![
        slot(0, BasicStatState::Bool { current: false }),
        slot(1, BasicStatState::Enum { current: 4 }),
        slot(2, BasicStatState::Bool { current: true }),
        slot(3, BasicStatState::String { current: "nobody".to_string() }),
    ]);
    assert_eq!(fresh.data.basic_stats, started);
    let mut mismatched = player_of(Some(vec![
        slot(0, integer(1, 2, 3)),
        slot(1, BasicStatState::Bool { current: false }),
        slot(2, BasicStatState::String { current: "sir".to_string() }),
        slot(3, BasicStatState::Enum { current: 6 }),
    ]));
    assert_eq!(reconcile(&mut mismatched, &class), Ok(()));
    assert_eq!(mismatched.data.basic_stats, started);
}

#[test]
fn enum_value_that_is_no_longer_allowed_is_reset() {
    let class = class_of(Some(vec![templates().remove(1)]));
    let mut player = player_of(Some(vec![
        slot(0, BasicStatState::Null),
        slot(1, BasicStatState::Enum { current: 5 }),
    ]));
    assert_eq!(reconcile(&mut player, &class), Ok(()));
    assert_eq!(
        player.data.basic_stats,
        Some(vec![slot(0, BasicStatState::Null), slot(1, BasicStatState::Enum { current: 4 })])
    );
}

#[test]
fn integer_is_carried_over_and_cut_to_the_bounds() {
    let class = class_of(Some(vec![templates().remove(0)]));
    let mut player = player_of(Some(vec![slot(0, integer(120, 150, 90))]));
    assert_eq!(reconcile(&mut player, &class), Ok(()));
    // intermediate 150 -> 100, calculated 90 * 100 / 150 = 60
    assert_eq!(player.data.basic_stats, Some(vec![slot(0, integer(100, 100, 60))]));
}

#[test]
fn missing_integer_is_unreachable() {
    let class = class_of(Some(templates()));
    for stats in [
        None,
        Some(vec![slot(0, BasicStatState::Bool { current: true })]),
        Some(vec![slot(1, integer(1, 1, 1))]),
        Some(vec![slot(0, BasicStatState::Null)]),
    ] {
        let mut player = player_of(stats);
        let before = player.clone();
        assert_eq!(reconcile(&mut player, &class), Err(ErrorCode::Unreachable));
        assert_eq!(player, before);
    }
}

#[test]
fn integer_that_cannot_be_rebalanced_reports_overflow() {
    let class = class_of(Some(templates()));
    let mut player = player_of(Some(vec![slot(0, integer(10, 0, 10))]));
    let before = player.clone();
    assert_eq!(reconcile(&mut player, &class), Err(ErrorCode::NumericalOverflow));
    assert_eq!(player, before);
}

#[test]
fn slots_are_as_many_as_class_and_player_ask_for() {
    let class = class_of(Some(vec![
        template(2, "alive", BasicStatType::Bool { starting: true }),
        template(0, "title", BasicStatType::String { starting: "nobody".to_string() }),
    ]));
    let mut player = player_of(Some(vec![
        slot(0, BasicStatState::String { current: "old".to_string() }),
        slot(1, BasicStatState::Enum { current: 9 }),
        slot(0, BasicStatState::String { current: "new".to_string() }),
        slot(2, BasicStatState::Bool { current: false }),
        slot(9, BasicStatState::Bool { current: true }),
    ]));
    assert_eq!(reconcile(&mut player, &class), Ok(()));
    assert_eq!(
        player.data.basic_stats,
        Some(vec![
            slot(0, BasicStatState::String { current: "new".to_string() }),
            slot(0, BasicStatState::Null),
            slot(2, BasicStatState::Bool { current: false }),
            slot(0, BasicStatState::Null),
            slot(0, BasicStatState::Null),
        ])
    );
}

#[test]
fn later_template_of_an_index_wins() {
    let class = class_of(Some(vec![
        template(0, "alive", BasicStatType::Bool { starting: true }),
        template(0, "title", BasicStatType::String { starting: "nobody".to_string() }),
    ]));
    let mut player = player_of(None);
    assert_eq!(reconcile(&mut player, &class), Ok(()));
    assert_eq!(
        player.data.basic_stats,
        Some(vec![
            slot(0, BasicStatState::String { current: "nobody".to_string() }),
            slot(0, BasicStatState::Null),
        ])
    );
}

#[test]
fn template_beyond_the_slots_does_not_fit() {
    let class = class_of(Some(vec![template(1, "alive", BasicStatType::Bool { starting: true })]));
    assert!(!stats_fit(&class, &player_of(None)));
    assert!(!stats_fit(&class, &player_of(Some(vec![slot(0, BasicStatState::Null)]))));
    assert!(stats_fit(
        &class,
        &player_of(Some(vec![slot(0, BasicStatState::Null), slot(5, BasicStatState::Null)]))
    ));
    assert!(stats_fit(&class_of(None), &player_of(None)));
}

#[test]
fn second_reconcile_changes_nothing() {
    let class = class_of(Some(vec![template(0, "alive", BasicStatType::Bool { starting: false })]));
    let mut player = player_of(Some(vec![
        slot(0, BasicStatState::Bool { current: true }),
        slot(1, BasicStatState::Null),
    ]));
    assert_eq!(reconcile(&mut player, &class), Ok(()));
    let once = player.clone();
    assert_eq!(
        once.data.basic_stats,
        Some(vec![slot(0, BasicStatState::Bool { current: true }), slot(0, BasicStatState::Null)])
    );
    assert_eq!(reconcile(&mut player, &class), Ok(()));
    assert_eq!(player, once);
    let full = class_of(Some(templates()));
    let mut rich = player_of(Some(vec![
        slot(0, integer(120, 150, 90)),
        slot(1, BasicStatState::Enum { current: 5 }),
        slot(3, BasicStatState::String { current: "sir".to_string() }),
        slot(7, BasicStatState::Bool { current: false }),
        slot(2, BasicStatState::Bool { current: false }),
        slot(0, BasicStatState::Null),
    ]));
    assert_eq!(reconcile(&mut rich, &full), Ok(()));
    let once = rich.clone();
    assert_eq!(
        once.data.basic_stats,
        Some(vec![
            slot(0, integer(100, 100, 60)),
            slot(1, BasicStatState::Enum { current: 4 }),
            slot(2, BasicStatState::Bool { current: false }),
            slot(3, BasicStatState::String { current: "sir".to_string() }),
            slot(0, BasicStatState::Null),
            slot(0, BasicStatState::Null),
        ])
    );
    for _ in 0..3 {
        assert_eq!(reconcile(&mut rich, &full), Ok(()));
        assert_eq!(rich, once);
    }
}

#[test]
fn slot_without_a_value_does_not_hide_a_value() {
    let class = class_of(Some(vec![template(
        0,
        "title",
        BasicStatType::String { starting: "nobody".to_string() },
    )]));
    let mut player = player_of(Some(vec![
        slot(0, BasicStatState::String { current: "sir".to_string() }),
        slot(0, BasicStatState::Null),
        slot(0, BasicStatState::Null),
    ]));
    assert_eq!(reconcile(&mut player, &class), Ok(()));
    assert_eq!(
        player.data.basic_stats,
        Some(vec![
            slot(0, BasicStatState::String { current: "sir".to_string() }),
            slot(0, BasicStatState::Null),
            slot(0, BasicStatState::Null),
        ])
    );
}
