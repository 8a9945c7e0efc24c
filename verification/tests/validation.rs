use anchor_lang::solana_program::hash::hash;
use raindrops_player::class::{
    Boolean, Callback, PermissivenessType, PlayerClass, PlayerClassConfig, PlayerClassData,
    PlayerClassSettings,
};
use raindrops_player::error::ErrorCode;
use raindrops_player::inheritance::InheritanceState;
use raindrops_player::item::{ItemClassType, ItemUsage};
use raindrops_player::validation::{
    assert_builder_must_be_holder_check, assert_keys_equal, digest_head, run_item_validation,
    run_toggle_equip_item_validation, sighash, AddOrRemoveItemValidationArgs,
    RunItemValidationArgs, RunToggleEquipItemValidationArgs, ValidationArgs, ValidationCall,
};

fn data_with(holder: Option<Boolean>, pack_validation: Option<Callback>) -> PlayerClassData {
    PlayerClassData {
        settings: PlayerClassSettings {
            default_category: None,
            children_must_be_editions: None,
            builder_must_be_holder: holder,
            update_permissiveness: None,
            instance_update_permissiveness: None,
            build_permissiveness: None,
            equip_item_permissiveness: None,
            add_item_permissiveness: None,
            unequip_item_permissiveness: None,
            remove_item_permissiveness: None,
            staking_permissiveness: None,
            unstaking_permissiveness: None,
            child_update_propagation_permissiveness: None,
        },
        config: PlayerClassConfig {
            starting_stats_uri: None,
            basic_stats: None,
            body_parts: None,
            equip_validation: None,
            add_to_pack_validation: pack_validation,
        },
    }
}

fn head_of_sha256(text: &str) -> [u8; 8] {
    let digest = hash(text.as_bytes()).to_bytes();
    let mut head = [0u8; 8];
    head.copy_from_slice(&digest[..8]);
    head
}

#[test]
fn sighash_is_the_head_of_the_sha256_digest() {
    assert_eq!(sighash("global", "initialize"), [175, 175, 109, 31, 13, 152, 155, 237]);
    assert_eq!(sighash("global", "item_validation"), head_of_sha256("global:item_validation"));
    assert_eq!(sighash("", ""), head_of_sha256(":"));
    assert_ne!(sighash("global", "add_item_validation"), sighash("global", "remove_item_validation"));
}

#[test]
fn digest_head_takes_the_first_eight_bytes() {
    let mut digest = [0u8; 32];
    for (i, byte) in digest.iter_mut().enumerate() {
        *byte = i as u8 + 10;
    }
    assert_eq!(digest_head(&digest), [10, 11, 12, 13, 14, 15, 16, 17]);
}

#[test]
fn differing_keys_are_refused() {
    assert_eq!(assert_keys_equal([1u8; 32], [1u8; 32]), Ok(()));
    let mut other = [1u8; 32];
    other[31] = 0;
    assert_eq!(assert_keys_equal([1u8; 32], other), Err(ErrorCode::PublicKeyMismatch));
}

#[test]
fn builder_must_hold_the_token_only_where_the_class_says_so() {
    let yes = Some(Boolean { inherited: InheritanceState::NotInherited, boolean: true });
    let no = Some(Boolean { inherited: InheritanceState::Overridden, boolean: false });
    assert_eq!(
        assert_builder_must_be_holder_check(&data_with(yes, None), false),
        Err(ErrorCode::MustBeHolderToBuild)
    );
    assert_eq!(assert_builder_must_be_holder_check(&data_with(yes, None), true), Ok(()));
    assert_eq!(assert_builder_must_be_holder_check(&data_with(no, None), false), Ok(()));
    assert_eq!(assert_builder_must_be_holder_check(&data_with(None, None), false), Ok(()));
}

fn pack_call(
    class: &PlayerClass,
    program: &[u8; 32],
    add: bool,
) -> Result<Option<ValidationCall<AddOrRemoveItemValidationArgs>>, ErrorCode> {
    run_item_validation(RunItemValidationArgs {
        player_class: class,
        player_class_key: &[14u8; 32],
        item_class: &[12u8; 32],
        item: &[11u8; 32],
        item_account: &[15u8; 32],
        player_item_account: &[16u8; 32],
        player: &[13u8; 32],
        item_mint: &[17u8; 32],
        validation_program: program,
        player_mint: &[18u8; 32],
        item_permissiveness_to_use: Some(PermissivenessType::UpdateAuthority),
        amount: 6,
        add,
    })
}

#[test]
fn backpack_change_asks_the_program_of_the_class() {
    let class = PlayerClass {
        namespaces: None,
        parent: None,
        data: data_with(None, Some(Callback { key: [42u8; 32], code: 99 })),
    };
    for (add, name) in [(true, "global:add_item_validation"), (false, "global:remove_item_validation")] {
        assert_eq!(
            pack_call(&class, &[42u8; 32], add),
            Ok(Some(ValidationCall {
                program_id: [42u8; 32],
                accounts: vec![
                    [11u8; 32], [12u8; 32], [13u8; 32], [14u8; 32], [15u8; 32], [16u8; 32],
                    [17u8; 32],
                ],
                args: AddOrRemoveItemValidationArgs {
                    instruction: head_of_sha256(name),
                    extra_identifier: 99,
                    player_mint: [18u8; 32],
                    item_permissiveness_to_use: Some(PermissivenessType::UpdateAuthority),
                    amount: 6,
                },
            }))
        );
    }
    assert_eq!(pack_call(&class, &[41u8; 32], true), Err(ErrorCode::PublicKeyMismatch));
    let free = PlayerClass { namespaces: None, parent: None, data: data_with(None, None) };
    assert_eq!(pack_call(&free, &[41u8; 32], true), Ok(None));
}

fn equip_call(
    validation: Option<Callback>,
    program: &[u8; 32],
) -> Result<Option<ValidationCall<ValidationArgs>>, ErrorCode> {
    run_toggle_equip_item_validation(RunToggleEquipItemValidationArgs {
        item_class: &[21u8; 32],
        item: &[22u8; 32],
        player_item_account: &[23u8; 32],
        validation_program: program,
        permissiveness_to_use: None,
        amount: 3,
        item_usage: ItemUsage {
            index: 5,
            basic_item_effects: None,
            item_class_type: ItemClassType::Wearable { body_part: vec![], limit_per_part: None },
            validation,
            do_not_pair_with_self: false,
            dnp: None,
        },
        item_index: 70,
        item_class_index: 80,
        usage_index: 5,
        item_class_mint: &[24u8; 32],
    })
}

#[test]
fn equip_asks_the_program_of_the_usage() {
    let validation = Some(Callback { key: [42u8; 32], code: 1234 });
    assert_eq!(
        equip_call(validation, &[42u8; 32]),
        Ok(Some(ValidationCall {
            program_id: [42u8; 32],
            accounts: vec![[21u8; 32], [22u8; 32], [23u8; 32]],
            args: ValidationArgs {
                instruction: head_of_sha256("global:item_validation"),
                extra_identifier: 1234,
                usage_permissiveness_to_use: None,
                index: 70,
                amount: 3,
                usage_index: 5,
                class_index: 80,
                item_class_mint: [24u8; 32],
            },
        }))
    );
    assert_eq!(equip_call(validation, &[43u8; 32]), Err(ErrorCode::PublicKeyMismatch));
    assert_eq!(equip_call(None, &[43u8; 32]), Ok(None));
}
