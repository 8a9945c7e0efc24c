use crate::class::{PermissivenessType, PlayerClass, PlayerClassData};
use crate::error::ErrorCode;
use crate::inheritance::Pubkey;
use crate::item::ItemUsage;
use crate::merkle::keys_equal;
use vstd::prelude::*;
use vstd::string::StringExecFns;
use vstd::string::StringSliceAdditionalSpecFns;

verus! {

/// The SHA-256 digest of `data`.
pub uninterp spec fn sha256_digest(data: Seq<u8>) -> Seq<u8>;

/// Calls `anchor_lang::solana_program::hash::hash`, which returns the 32 bytes of the
/// SHA-256 digest of `data`. The digest is a function of the bytes alone; nothing else is
/// claimed of it.
#[verifier::external_body]
fn sha256(data: &[u8]) -> (digest: [u8; 32])
    ensures
        digest@ == sha256_digest(data@),
{
    anchor_lang::solana_program::hash::hash(data).to_bytes()
}

/// The text that names an operation within a namespace: the namespace, a colon, the name.
pub open spec fn operation_text(namespace: Seq<char>, name: Seq<char>) -> Seq<char> {
    namespace + ":"@ + name
}

/// The eight bytes that stand for an operation in a request: the head of the digest of
/// its text.
pub open spec fn sighash_of(namespace: Seq<char>, name: Seq<char>) -> Seq<u8> {
    sha256_digest(vstd::utf8::encode_utf8(operation_text(namespace, name))).take(8)
}

/// The first eight bytes of a digest.
pub fn digest_head(digest: &[u8; 32]) -> (head: [u8; 8])
    ensures
        head@ == digest@.take(8),
{
    let mut head: [u8; 8] = [0u8;8];
    let mut i: usize = 0;
    while i < 8
        invariant
            i <= 8,
            forall|j: int| 0 <= j < i ==> head[j] == digest[j],
        decreases 8 - i,
    {
        head[i] = digest[i];
        i += 1;
    }
    assert(head@ =~= digest@.take(8));
    head
}

/// Computes the eight bytes that stand for an operation in a request.
pub fn sighash(namespace: &str, name: &str) -> (code: [u8; 8])
    ensures
        code@ == sighash_of(namespace@, name@),
{
    let mut preimage = String::from_str(namespace);
    preimage.append(":");
    preimage.append(name);
    let digest = sha256(preimage.as_str().as_bytes());
    digest_head(&digest)
}

/// Refuses two identifiers that differ.
pub fn assert_keys_equal(key1: Pubkey, key2: Pubkey) -> (res: Result<(), ErrorCode>)
    ensures
        res == (if key1 == key2 {
            Ok::<(), ErrorCode>(())
        } else {
            Err::<(), ErrorCode>(ErrorCode::PublicKeyMismatch)
        }),
{
    if keys_equal(&key1, &key2) {
        Ok(())
    } else {
        Err(ErrorCode::PublicKeyMismatch)
    }
}

/// Refuses a build where the class wants the builder to hold the token and the holder
/// has not signed.
pub fn assert_builder_must_be_holder_check(
    player_class_data: &PlayerClassData,
    new_player_token_holder_is_signer: bool,
) -> (res: Result<(), ErrorCode>)
    ensures
        res == (if player_class_data.settings.builder_must_be_holder matches Some(b) && b.boolean
            && !new_player_token_holder_is_signer {
            Err::<(), ErrorCode>(ErrorCode::MustBeHolderToBuild)
        } else {
            Ok::<(), ErrorCode>(())
        }),
{
    if let Some(b) = &player_class_data.settings.builder_must_be_holder {
        if b.boolean {
            if !new_player_token_holder_is_signer {
                return Err(ErrorCode::MustBeHolderToBuild);
            }
        }
    }
    Ok(())
}

/// What a validation program is told when an item is added to, or removed from, the
/// backpack of a player.
#[derive(Clone, Copy, Debug, PartialEq, Eq)]
pub struct AddOrRemoveItemValidationArgs {
    /// The code of the operation.
    pub instruction: [u8; 8],
    pub extra_identifier: u64,
    pub player_mint: Pubkey,
    pub item_permissiveness_to_use: Option<PermissivenessType>,
    pub amount: u64,
}

/// What a validation program is told when an item is equipped or unequipped.
#[derive(Clone, Copy, Debug, PartialEq, Eq)]
pub struct ValidationArgs {
    /// The code of the operation.
    pub instruction: [u8; 8],
    pub extra_identifier: u64,
    pub usage_permissiveness_to_use: Option<PermissivenessType>,
    pub index: u64,
    pub amount: u64,
    pub usage_index: u16,
    pub class_index: u64,
    pub item_class_mint: Pubkey,
}

/// A call that the caller has to make to a validation program before the operation is
/// committed. The accounts are handed over read-only, in this order.
#[derive(Clone, Debug, PartialEq, Eq)]
pub struct ValidationCall<A> {
    pub program_id: Pubkey,
    pub accounts: Vec<Pubkey>,
    pub args: A,
}

/// A backpack change and the identifiers of the accounts that take part in it.
pub struct RunItemValidationArgs<'a, 'b, 'c> {
    pub player_class: &'b PlayerClass,
    pub player_class_key: &'b Pubkey,
    pub item_class: &'b Pubkey,
    pub item: &'b Pubkey,
    pub item_account: &'b Pubkey,
    pub player_item_account: &'b Pubkey,
    pub player: &'b Pubkey,
    pub item_mint: &'b Pubkey,
    pub validation_program: &'c Pubkey,
    pub player_mint: &'a Pubkey,
    pub item_permissiveness_to_use: Option<PermissivenessType>,
    pub amount: u64,
    pub add: bool,
}

/// The name of the operation that a backpack change asks a validation program for.
pub open spec fn pack_operation_name(add: bool) -> Seq<char> {
    if add {
        "add_item_validation"@
    } else {
        "remove_item_validation"@
    }
}

/// Prepares the validation of a backpack change. Where the player class names a
/// validation program, the program handed in must be that one, and the call that has to
/// be made to it is returned; a class without one asks for no call.
pub fn run_item_validation(args: RunItemValidationArgs) -> (res: Result<
    Option<ValidationCall<AddOrRemoveItemValidationArgs>>,
    ErrorCode,
>)
    ensures
        match args.player_class.data.config.add_to_pack_validation {
            Some(validation) => if *args.validation_program == validation.key {
                &&& res matches Ok(Some(call))
                &&& call.program_id == validation.key
                &&& call.accounts@ == seq![
                    *args.item,
                    *args.item_class,
                    *args.player,
                    *args.player_class_key,
                    *args.item_account,
                    *args.player_item_account,
                    *args.item_mint,
                ]
                &&& call.args.instruction@ == sighash_of("global"@, pack_operation_name(args.add))
                &&& call.args.extra_identifier == validation.code
                &&& call.args.player_mint == *args.player_mint
                &&& call.args.item_permissiveness_to_use == args.item_permissiveness_to_use
                &&& call.args.amount == args.amount
            } else {
                res matches Err(e) && e == ErrorCode::PublicKeyMismatch
            },
            None => res matches Ok(None),
        },
{
    let RunItemValidationArgs {
        player_class,
        player_class_key,
        item_class,
        item,
        item_account,
        player_item_account,
        player,
        item_mint,
        validation_program,
        player_mint,
        item_permissiveness_to_use,
        amount,
        add,
    } = args;
    if let Some(validation) = &player_class.data.config.add_to_pack_validation {
        assert_keys_equal(*validation_program, validation.key)?;
        let mut keys: Vec<Pubkey> = Vec::new();
        keys.push(*item);
        keys.push(*item_class);
        keys.push(*player);
        keys.push(*player_class_key);
        keys.push(*item_account);
        keys.push(*player_item_account);
        keys.push(*item_mint);
        let name = if add {
            "add_item_validation"
        } else {
            "remove_item_validation"
        };
        let call = ValidationCall {
            program_id: validation.key,
            accounts: keys,
            args: AddOrRemoveItemValidationArgs {
                instruction: sighash("global", name),
                extra_identifier: validation.code,
                player_mint: *player_mint,
                item_permissiveness_to_use,
                amount,
            },
        };
        assert(call.accounts@ =~= seq![
            *item,
            *item_class,
            *player,
            *player_class_key,
            *item_account,
            *player_item_account,
            *item_mint,
        ]);
        return Ok(Some(call));
    }
    Ok(None)
}

/// An equip or an unequip and the identifiers of the accounts that take part in it.
pub struct RunToggleEquipItemValidationArgs<'a, 'b, 'c> {
    pub item_class: &'b Pubkey,
    pub item: &'b Pubkey,
    pub player_item_account: &'b Pubkey,
    pub validation_program: &'c Pubkey,
    pub permissiveness_to_use: Option<PermissivenessType>,
    pub amount: u64,
    pub item_usage: ItemUsage,
    pub item_index: u64,
    pub item_class_index: u64,
    pub usage_index: u16,
    pub item_class_mint: &'a Pubkey,
}

/// Prepares the validation of an equip or an unequip. Where the usage names a validation
/// program, the program handed in must be that one, and the call that has to be made to
/// it is returned; a usage without one asks for no call.
pub fn run_toggle_equip_item_validation(args: RunToggleEquipItemValidationArgs) -> (res: Result<
    Option<ValidationCall<ValidationArgs>>,
    ErrorCode,
>)
    ensures
        match args.item_usage.validation {
            Some(validation) => if *args.validation_program == validation.key {
                &&& res matches Ok(Some(call))
                &&& call.program_id == validation.key
                &&& call.accounts@ == seq![*args.item_class, *args.item, *args.player_item_account]
                &&& call.args.instruction@ == sighash_of("global"@, "item_validation"@)
                &&& call.args.extra_identifier == validation.code
                &&& call.args.usage_permissiveness_to_use == args.permissiveness_to_use
                &&& call.args.index == args.item_index
                &&& call.args.amount == args.amount
                &&& call.args.usage_index == args.usage_index
                &&& call.args.class_index == args.item_class_index
                &&& call.args.item_class_mint == *args.item_class_mint
            } else {
                res matches Err(e) && e == ErrorCode::PublicKeyMismatch
            },
            None => res matches Ok(None),
        },
{
    let RunToggleEquipItemValidationArgs {
        item_class,
        item,
        player_item_account,
        validation_program,
        permissiveness_to_use,
        amount,
        item_usage,
        item_index,
        item_class_index,
        usage_index,
        item_class_mint,
    } = args;
    if let Some(validation) = item_usage.validation {
        assert_keys_equal(*validation_program, validation.key)?;
        let mut keys: Vec<Pubkey> = Vec::new();
        keys.push(*item_class);
        keys.push(*item);
        keys.push(*player_item_account);
        let call = ValidationCall {
            program_id: validation.key,
            accounts: keys,
            args: ValidationArgs {
                instruction: sighash("global", "item_validation"),
                extra_identifier: validation.code,
                usage_permissiveness_to_use: permissiveness_to_use,
                index: item_index,
                amount,
                usage_index,
                class_index: item_class_index,
                item_class_mint: *item_class_mint,
            },
        };
        assert(call.accounts@ =~= seq![*item_class, *item, *player_item_account]);
        return Ok(Some(call));
    }
    Ok(None)
}

} // verus!
