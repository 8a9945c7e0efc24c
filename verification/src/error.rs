use vstd::prelude::*;

verus! {

/// Every failure that the engine reports to its caller.
#[derive(Clone, Copy, Debug, PartialEq, Eq, Structural)]
pub enum ErrorCode {
    /// An addition, multiplication or conversion left the range of its type, or a
    /// division had a zero divisor.
    NumericalOverflow,
    /// The inclusion proof does not lead from the candidate usage to the committed root.
    InvalidProof,
    /// A proof was supplied but the item class commits to no usage root.
    UsageRootNotPresent,
    /// No inline usage carries the requested index.
    FoundNoMatchingUsage,
    /// The item class holds neither an inline usage list nor a proof-backed usage.
    ItemContainsNoUsages,
    /// The inline usage list is empty and no proof was supplied.
    CannotEquipItemWithoutUsageOrMerkle,
    /// The usage does not name the targeted body part.
    BodyPartNotEligible,
    /// The body part would hold more than its total capacity.
    BodyPartContainsTooMany,
    /// The body part would hold more of this item than the usage allows per part.
    BodyPartContainsTooManyOfThisType,
    /// The usage forbids a second copy of the item and one is already equipped.
    ItemCannotBePairedWithSelf,
    /// An equipped item is on the usage's do-not-pair list.
    ItemCannotBeEquippedWithDNPEntry,
    /// Only wearable usages can be equipped.
    CannotEquipConsumable,
    /// More was asked to be unequipped than is held.
    CannotUnequipThisMuch,
    /// A percentage effect targets a stat that is not an integer.
    CannotAlterThisTypeNumerically,
    /// An integer stat expected by the class is missing or of another kind.
    Unreachable,
    /// The player class defines no body parts.
    NoBodyPartsToEquip,
    /// No body part of the player class carries the requested index.
    UnableToFindBodyPartByIndex,
    /// The class demands that the builder holds the token, and the holder did not sign.
    MustBeHolderToBuild,
    /// The validation program handed in is not the one the callback names.
    PublicKeyMismatch,
}

} // verus!
