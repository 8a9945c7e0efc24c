use crate::class::{BodyPart, BodyPartView, PlayerClass};
use crate::error::ErrorCode;
use crate::inheritance::{Inherited, Pubkey, Tagged};
use crate::merkle::keys_equal;
use crate::player::{EquippedItem, Player};
use vstd::prelude::*;

verus! {

/// Whether an entry is counted: it lies in `slot` where a slot is given, and holds `item`
/// where an item is given.
pub open spec fn counted(e: EquippedItem, slot: Option<u16>, item: Option<Pubkey>) -> bool {
    (slot matches Some(s) ==> e.index == s) && (item matches Some(i) ==> e.item == i)
}

/// The sum of the amounts of the counted entries.
pub open spec fn total_equipped(
    items: Seq<EquippedItem>,
    slot: Option<u16>,
    item: Option<Pubkey>,
) -> nat
    decreases items.len(),
{
    if items.len() == 0 {
        0
    } else {
        (if counted(items.first(), slot, item) {
            items.first().amount as nat
        } else {
            0
        }) + total_equipped(items.drop_first(), slot, item)
    }
}

/// The equipped set after `moving` more units of `item` went to `slot`: the first entry
/// of that slot and item takes them, and a new entry is added at the end where there is
/// none. Empty entries of that slot and item are dropped on the way.
pub open spec fn equipped_after_adding(
    items: Seq<EquippedItem>,
    slot: u16,
    item: Pubkey,
    moving: nat,
) -> Seq<EquippedItem>
    decreases items.len(),
{
    if items.len() == 0 {
        if moving > 0 {
            seq![EquippedItem { index: slot, item, amount: moving as u64 }]
        } else {
            Seq::empty()
        }
    } else {
        let e = items.first();
        if counted(e, Some(slot), Some(item)) {
            let merged = e.amount + moving;
            (if merged > 0 {
                seq![EquippedItem { index: e.index, item: e.item, amount: merged as u64 }]
            } else {
                Seq::empty()
            }) + equipped_after_adding(items.drop_first(), slot, item, 0)
        } else {
            seq![e] + equipped_after_adding(items.drop_first(), slot, item, moving)
        }
    }
}

/// The equipped set after `moving` units of `item` left `slot`: the entries of that slot
/// and item give them up in order, and an entry that is left empty is dropped.
pub open spec fn equipped_after_removing(
    items: Seq<EquippedItem>,
    slot: u16,
    item: Pubkey,
    moving: nat,
) -> Seq<EquippedItem>
    decreases items.len(),
{
    if items.len() == 0 {
        Seq::empty()
    } else {
        let e = items.first();
        if counted(e, Some(slot), Some(item)) {
            if e.amount < moving {
                equipped_after_removing(
                    items.drop_first(),
                    slot,
                    item,
                    (moving - e.amount) as nat,
                )
            } else {
                (if e.amount > moving {
                    seq![
                        EquippedItem {
                            index: e.index,
                            item: e.item,
                            amount: (e.amount - moving) as u64,
                        },
                    ]
                } else {
                    Seq::empty()
                }) + equipped_after_removing(items.drop_first(), slot, item, 0)
            }
        } else {
            seq![e] + equipped_after_removing(items.drop_first(), slot, item, moving)
        }
    }
}

/// The equipped set after an equip or an unequip of `amount` units.
pub open spec fn equipped_after(
    items: Seq<EquippedItem>,
    slot: u16,
    item: Pubkey,
    amount: u64,
    equipping: bool,
) -> Seq<EquippedItem> {
    if equipping {
        equipped_after_adding(items, slot, item, amount as nat)
    } else {
        equipped_after_removing(items, slot, item, amount as nat)
    }
}

/// Whether the counts of a request leave the range of `u64`: what is held of the item, what
/// the body part holds, or, after an equip, what would be held of the item or by the body
/// part.
pub open spec fn counts_overflow(
    items: Seq<EquippedItem>,
    slot: u16,
    item: Pubkey,
    amount: u64,
    equipping: bool,
) -> bool {
    ||| total_equipped(items, None, Some(item)) > u64::MAX
    ||| total_equipped(items, Some(slot), None) > u64::MAX
    ||| equipping && total_equipped(items, None, Some(item)) + amount > u64::MAX
    ||| equipping && total_equipped(items, Some(slot), None) + amount > u64::MAX
}

/// A total grows with the list.
pub proof fn lemma_total_of_tail(
    items: Seq<EquippedItem>,
    i: int,
    slot: Option<u16>,
    item: Option<Pubkey>,
)
    requires
        0 <= i < items.len(),
    ensures
        total_equipped(items.skip(i), slot, item) == (if counted(items[i], slot, item) {
            items[i].amount as nat
        } else {
            0
        }) + total_equipped(items.skip(i + 1), slot, item),
{
    assert(items.skip(i).first() == items[i]);
    assert(items.skip(i).drop_first() =~= items.skip(i + 1));
}

/// A narrower count is never larger.
pub proof fn lemma_total_narrower(items: Seq<EquippedItem>, slot: u16, item: Pubkey)
    ensures
        total_equipped(items, Some(slot), Some(item)) <= total_equipped(items, Some(slot), None),
        total_equipped(items, Some(slot), Some(item)) <= total_equipped(items, None, Some(item)),
    decreases items.len(),
{
    if items.len() > 0 {
        lemma_total_narrower(items.drop_first(), slot, item);
    }
}

/// Adding changes exactly the counts that take in the slot and the item: they grow by
/// what was added.
pub proof fn lemma_total_after_adding(
    items: Seq<EquippedItem>,
    slot: u16,
    item: Pubkey,
    moving: nat,
    by_slot: Option<u16>,
    by_item: Option<Pubkey>,
)
    requires
        total_equipped(items, Some(slot), Some(item)) + moving <= u64::MAX,
    ensures
        total_equipped(equipped_after_adding(items, slot, item, moving), by_slot, by_item)
            == total_equipped(items, by_slot, by_item) + (if counted(
            EquippedItem { index: slot, item, amount: 0 },
            by_slot,
            by_item,
        ) {
            moving
        } else {
            0
        }),
    decreases items.len(),
{
    let after = equipped_after_adding(items, slot, item, moving);
    if items.len() == 0 {
        if moving > 0 {
            let e = EquippedItem { index: slot, item, amount: moving as u64 };
            assert(after.first() == e);
            assert(after.drop_first() =~= Seq::<EquippedItem>::empty());
            assert(total_equipped(after.drop_first(), by_slot, by_item) == 0);
        }
    } else {
        let e = items.first();
        let rest = items.drop_first();
        if counted(e, Some(slot), Some(item)) {
            lemma_total_after_adding(rest, slot, item, 0, by_slot, by_item);
            let tail = equipped_after_adding(rest, slot, item, 0);
            if e.amount + moving > 0 {
                let m = EquippedItem { index: e.index, item: e.item, amount: (e.amount + moving) as u64 };
                assert(after =~= seq![m] + tail);
                assert(after.first() == m);
                assert(after.drop_first() =~= tail);
            } else {
                assert(after =~= tail);
            }
        } else {
            lemma_total_after_adding(rest, slot, item, moving, by_slot, by_item);
            let tail = equipped_after_adding(rest, slot, item, moving);
            assert(after =~= seq![e] + tail);
            assert(after.first() == e);
            assert(after.drop_first() =~= tail);
        }
    }
}

/// Removing changes exactly the counts that take in the slot and the item: they shrink
/// by what was removed.
pub proof fn lemma_total_after_removing(
    items: Seq<EquippedItem>,
    slot: u16,
    item: Pubkey,
    moving: nat,
    by_slot: Option<u16>,
    by_item: Option<Pubkey>,
)
    requires
        moving <= total_equipped(items, Some(slot), Some(item)),
    ensures
        total_equipped(equipped_after_removing(items, slot, item, moving), by_slot, by_item)
            == total_equipped(items, by_slot, by_item) - (if counted(
            EquippedItem { index: slot, item, amount: 0 },
            by_slot,
            by_item,
        ) {
            moving
        } else {
            0
        }),
    decreases items.len(),
{
    let after = equipped_after_removing(items, slot, item, moving);
    if items.len() > 0 {
        let e = items.first();
        let rest = items.drop_first();
        if counted(e, Some(slot), Some(item)) {
            if e.amount < moving {
                lemma_total_after_removing(
                    rest,
                    slot,
                    item,
                    (moving - e.amount) as nat,
                    by_slot,
                    by_item,
                );
            } else {
                lemma_total_after_removing(rest, slot, item, 0, by_slot, by_item);
                let tail = equipped_after_removing(rest, slot, item, 0);
                if e.amount > moving {
                    let m = EquippedItem {
                        index: e.index,
                        item: e.item,
                        amount: (e.amount - moving) as u64,
                    };
                    assert(after =~= seq![m] + tail);
                    assert(after.first() == m);
                    assert(after.drop_first() =~= tail);
                } else {
                    assert(after =~= tail);
                }
            }
        } else {
            lemma_total_after_removing(rest, slot, item, moving, by_slot, by_item);
            let tail = equipped_after_removing(rest, slot, item, moving);
            assert(after =~= seq![e] + tail);
            assert(after.first() == e);
            assert(after.drop_first() =~= tail);
        }
    }
}

/// A request to equip `amount` units of an item to a body part, or to take them off.
pub struct BuildNewEquippedItemsAndProvideCountsArgs<'b> {
    pub player: &'b Player,
    /// The identifier of the item that is equipped or removed.
    pub item: &'b Pubkey,
    pub body_part_index: u16,
    pub amount: u64,
    pub equipping: bool,
}

/// The equipped set after a request, with the counts that the constraints are checked on.
#[derive(Clone, Debug, PartialEq, Eq)]
pub struct BuildNewEquippedItemsReturn {
    /// What was held of the item before the request, all body parts together.
    pub total_equipped_for_this_item: u64,
    /// What the body part holds of the item after the request.
    pub total_equipped_for_this_body_part_for_this_item: u64,
    /// What the body part holds after the request, all items together.
    pub total_equipped_for_this_body_part: u64,
    pub new_eq_items: Vec<EquippedItem>,
}

/// Model of a [`BuildNewEquippedItemsReturn`].
pub struct EquippedCounts {
    pub total_equipped_for_this_item: u64,
    pub total_equipped_for_this_body_part_for_this_item: u64,
    pub total_equipped_for_this_body_part: u64,
    pub new_eq_items: Seq<EquippedItem>,
}

impl View for BuildNewEquippedItemsReturn {
    type V = EquippedCounts;

    open spec fn view(&self) -> EquippedCounts {
        EquippedCounts {
            total_equipped_for_this_item: self.total_equipped_for_this_item,
            total_equipped_for_this_body_part_for_this_item: self.total_equipped_for_this_body_part_for_this_item,
            total_equipped_for_this_body_part: self.total_equipped_for_this_body_part,
            new_eq_items: self.new_eq_items@,
        }
    }
}

/// The outcome of an equip or an unequip of `amount` units of `item` at `slot`. Counts
/// that leave the range of `u64` are reported first; an unequip of more than the body
/// part holds of the item is refused. Otherwise the new set comes with three counts:
/// what was held of the item before the request, all body parts together, and what the
/// body part holds after it, of the item and of all items.
pub open spec fn rebuilt(
    items: Seq<EquippedItem>,
    slot: u16,
    item: Pubkey,
    amount: u64,
    equipping: bool,
) -> Result<EquippedCounts, ErrorCode> {
    if counts_overflow(items, slot, item, amount, equipping) {
        Err(ErrorCode::NumericalOverflow)
    } else if !equipping && amount > total_equipped(items, Some(slot), Some(item)) {
        Err(ErrorCode::CannotUnequipThisMuch)
    } else {
        let new_eq_items = equipped_after(items, slot, item, amount, equipping);
        Ok(
            EquippedCounts {
                total_equipped_for_this_item: total_equipped(items, None, Some(item)) as u64,
                total_equipped_for_this_body_part_for_this_item: total_equipped(
                    new_eq_items,
                    Some(slot),
                    Some(item),
                ) as u64,
                total_equipped_for_this_body_part: total_equipped(
                    new_eq_items,
                    Some(slot),
                    None,
                ) as u64,
                new_eq_items,
            },
        )
    }
}

/// Walks the equipped set of the player once and builds the set that an equip or an
/// unequip of `amount` units leaves behind, together with the counts of the request. The
/// player itself is not changed.
pub fn build_new_equipped_items_and_provide_counts(
    args: BuildNewEquippedItemsAndProvideCountsArgs,
) -> (res: Result<BuildNewEquippedItemsReturn, ErrorCode>)
    ensures
        match rebuilt(
            args.player.equipped_items@,
            args.body_part_index,
            *args.item,
            args.amount,
            args.equipping,
        ) {
            Ok(counts) => res matches Ok(r) && r@ == counts,
            Err(e) => res matches Err(err) && err == e,
        },
{
    let BuildNewEquippedItemsAndProvideCountsArgs {
        player,
        item,
        body_part_index,
        amount,
        equipping,
    } = args;
    let items = &player.equipped_items;
    let ghost all = items@;
    let ghost slot = body_part_index;
    let ghost key = *item;
    let mut new_eq_items: Vec<EquippedItem> = Vec::new();
    let mut moving_amount = amount;
    let mut total_equipped_for_this_item: u64 = 0;
    let mut total_equipped_for_this_body_part: u64 = 0;
    let mut held: u64 = 0;
    let mut i: usize = 0;
    proof {
        assert(all.skip(0) =~= all);
        assert(new_eq_items@ + equipped_after(all, slot, key, amount, equipping) =~= equipped_after(
            all,
            slot,
            key,
            amount,
            equipping,
        ));
    }
    while i < items.len()
        invariant
            i <= items.len(),
            all == items@,
            all == args.player.equipped_items@,
            slot == body_part_index,
            slot == args.body_part_index,
            key == *item,
            key == *args.item,
            amount == args.amount,
            equipping == args.equipping,
            moving_amount <= amount,
            total_equipped_for_this_item + total_equipped(all.skip(i as int), None, Some(key))
                == total_equipped(all, None, Some(key)),
            total_equipped_for_this_body_part + total_equipped(
                all.skip(i as int),
                Some(slot),
                None,
            ) == total_equipped(all, Some(slot), None),
            held + total_equipped(all.skip(i as int), Some(slot), Some(key)) == total_equipped(
                all,
                Some(slot),
                Some(key),
            ),
            held <= total_equipped_for_this_body_part,
            equipping ==> moving_amount == amount || moving_amount == 0,
            !equipping ==> (moving_amount == amount - held && amount >= held) || (moving_amount
                == 0 && amount <= held),
            new_eq_items@ + equipped_after(all.skip(i as int), slot, key, moving_amount, equipping)
                == equipped_after(all, slot, key, amount, equipping),
        decreases items.len() - i,
    {
        let ei = items[i];
        let same_item = keys_equal(&ei.item, item);
        let ghost rest = all.skip(i + 1);
        let ghost before = new_eq_items@;
        proof {
            lemma_total_of_tail(all, i as int, None, Some(key));
            lemma_total_of_tail(all, i as int, Some(slot), None);
            lemma_total_of_tail(all, i as int, Some(slot), Some(key));
            assert(all.skip(i as int).first() == ei);
            assert(all.skip(i as int).drop_first() =~= rest);
        }
        if same_item {
            match total_equipped_for_this_item.checked_add(ei.amount) {
                Some(t) => {
                    total_equipped_for_this_item = t;
                },
                None => {
                    assert(counted(ei, None, Some(key)));
                    assert(total_equipped(all, None, Some(key)) > u64::MAX);
                    return Err(ErrorCode::NumericalOverflow);
                },
            }
        }
        if ei.index == body_part_index {
            match total_equipped_for_this_body_part.checked_add(ei.amount) {
                Some(t) => {
                    total_equipped_for_this_body_part = t;
                },
                None => {
                    assert(counted(ei, Some(slot), None));
                    assert(total_equipped(all, Some(slot), None) > u64::MAX);
                    return Err(ErrorCode::NumericalOverflow);
                },
            }
            if same_item {
                held = held + ei.amount;
                let new_amount: u64 = if equipping {
                    match ei.amount.checked_add(moving_amount) {
                        Some(merged) => {
                            moving_amount = 0;
                            merged
                        },
                        None => {
                            return Err(ErrorCode::NumericalOverflow);
                        },
                    }
                } else if ei.amount < moving_amount {
                    moving_amount = moving_amount - ei.amount;
                    0
                } else {
                    let left = ei.amount - moving_amount;
                    moving_amount = 0;
                    left
                };
                if new_amount > 0 {
                    new_eq_items.push(
                        EquippedItem { index: ei.index, item: ei.item, amount: new_amount },
                    );
                }
                proof {
                    let tail = equipped_after(rest, slot, key, moving_amount, equipping);
                    if new_amount > 0 {
                        let m = EquippedItem { index: ei.index, item: ei.item, amount: new_amount };
                        assert((before + seq![m]) + tail =~= before + (seq![m] + tail));
                    } else {
                        assert(before + (Seq::<EquippedItem>::empty() + tail) =~= before + tail);
                    }
                }
            } else {
                new_eq_items.push(ei);
                proof {
                    let tail = equipped_after(rest, slot, key, moving_amount, equipping);
                    assert((before + seq![ei]) + tail =~= before + (seq![ei] + tail));
                }
            }
        } else {
            new_eq_items.push(ei);
            proof {
                let tail = equipped_after(rest, slot, key, moving_amount, equipping);
                assert((before + seq![ei]) + tail =~= before + (seq![ei] + tail));
            }
        }
        i += 1;
    }
    proof {
        assert(all.skip(items.len() as int) =~= Seq::<EquippedItem>::empty());
        lemma_total_narrower(all, slot, key);
    }
    let ghost before = new_eq_items@;
    let total_equipped_for_this_body_part_for_this_item: u64;
    if equipping {
        if total_equipped_for_this_item.checked_add(amount).is_none() {
            return Err(ErrorCode::NumericalOverflow);
        }
        match total_equipped_for_this_body_part.checked_add(amount) {
            Some(t) => {
                total_equipped_for_this_body_part = t;
            },
            None => {
                return Err(ErrorCode::NumericalOverflow);
            },
        }
        total_equipped_for_this_body_part_for_this_item = held + amount;
        if moving_amount > 0 {
            new_eq_items.push(
                EquippedItem { index: body_part_index, item: *item, amount: moving_amount },
            );
        }
        proof {
            lemma_total_after_adding(all, slot, key, amount as nat, Some(slot), None);
            lemma_total_after_adding(all, slot, key, amount as nat, Some(slot), Some(key));
        }
    } else {
        if moving_amount > 0 {
            return Err(ErrorCode::CannotUnequipThisMuch);
        }
        total_equipped_for_this_body_part = total_equipped_for_this_body_part - amount;
        total_equipped_for_this_body_part_for_this_item = held - amount;
        proof {
            lemma_total_after_removing(all, slot, key, amount as nat, Some(slot), None);
            lemma_total_after_removing(all, slot, key, amount as nat, Some(slot), Some(key));
        }
    }
    assert(new_eq_items@ =~= equipped_after(all, slot, key, amount, equipping));
    Ok(
        BuildNewEquippedItemsReturn {
            total_equipped_for_this_item,
            total_equipped_for_this_body_part_for_this_item,
            total_equipped_for_this_body_part,
            new_eq_items,
        },
    )
}

/// No entry of the slot and the item is empty.
pub open spec fn no_empty_entry(items: Seq<EquippedItem>, slot: u16, item: Pubkey) -> bool {
    forall|i: int|
        0 <= i < items.len() && counted(#[trigger] items[i], Some(slot), Some(item))
            ==> items[i].amount > 0
}

/// A set put together from two sets without an empty entry has none.
proof fn lemma_no_empty_entry_joined(
    head: Seq<EquippedItem>,
    tail: Seq<EquippedItem>,
    slot: u16,
    item: Pubkey,
)
    requires
        no_empty_entry(head, slot, item),
        no_empty_entry(tail, slot, item),
    ensures
        no_empty_entry(head + tail, slot, item),
{
    let joined = head + tail;
    assert forall|i: int|
        0 <= i < joined.len() && counted(#[trigger] joined[i], Some(slot), Some(item)) implies joined[i].amount
        > 0 by {
        if i < head.len() {
            assert(joined[i] == head[i]);
        } else {
            assert(joined[i] == tail[i - head.len()]);
        }
    }
}

/// After units were added, no entry of the slot and the item is empty.
pub proof fn lemma_no_empty_entry_after_adding(
    items: Seq<EquippedItem>,
    slot: u16,
    item: Pubkey,
    moving: nat,
)
    requires
        total_equipped(items, Some(slot), Some(item)) + moving <= u64::MAX,
    ensures
        no_empty_entry(equipped_after_adding(items, slot, item, moving), slot, item),
    decreases items.len(),
{
    if items.len() > 0 {
        let e = items.first();
        let rest = items.drop_first();
        if counted(e, Some(slot), Some(item)) {
            lemma_no_empty_entry_after_adding(rest, slot, item, 0);
            let head = if e.amount + moving > 0 {
                seq![EquippedItem { index: e.index, item: e.item, amount: (e.amount + moving) as u64 }]
            } else {
                Seq::empty()
            };
            lemma_no_empty_entry_joined(
                head,
                equipped_after_adding(rest, slot, item, 0),
                slot,
                item,
            );
        } else {
            lemma_no_empty_entry_after_adding(rest, slot, item, moving);
            lemma_no_empty_entry_joined(
                seq![e],
                equipped_after_adding(rest, slot, item, moving),
                slot,
                item,
            );
        }
    }
}

/// After units were removed, no entry of the slot and the item is empty.
pub proof fn lemma_no_empty_entry_after_removing(
    items: Seq<EquippedItem>,
    slot: u16,
    item: Pubkey,
    moving: nat,
)
    ensures
        no_empty_entry(equipped_after_removing(items, slot, item, moving), slot, item),
    decreases items.len(),
{
    if items.len() > 0 {
        let e = items.first();
        let rest = items.drop_first();
        if counted(e, Some(slot), Some(item)) {
            if e.amount < moving {
                lemma_no_empty_entry_after_removing(rest, slot, item, (moving - e.amount) as nat);
            } else {
                lemma_no_empty_entry_after_removing(rest, slot, item, 0);
                let head = if e.amount > moving {
                    seq![
                        EquippedItem {
                            index: e.index,
                            item: e.item,
                            amount: (e.amount - moving) as u64,
                        },
                    ]
                } else {
                    Seq::empty()
                };
                lemma_no_empty_entry_joined(
                    head,
                    equipped_after_removing(rest, slot, item, 0),
                    slot,
                    item,
                );
            }
        } else {
            lemma_no_empty_entry_after_removing(rest, slot, item, moving);
            lemma_no_empty_entry_joined(
                seq![e],
                equipped_after_removing(rest, slot, item, moving),
                slot,
                item,
            );
        }
    }
}

/// A set that holds nothing of an item at a slot, and no empty entry of them, has no
/// entry of that slot and item.
pub proof fn lemma_nothing_held_means_no_entry(items: Seq<EquippedItem>, slot: u16, item: Pubkey)
    requires
        total_equipped(items, Some(slot), Some(item)) == 0,
        no_empty_entry(items, slot, item),
    ensures
        forall|i: int| 0 <= i < items.len() ==> !counted(#[trigger] items[i], Some(slot), Some(item)),
    decreases items.len(),
{
    if items.len() > 0 {
        let rest = items.drop_first();
        assert(items[0] == items.first());
        assert forall|i: int|
            0 <= i < rest.len() && counted(#[trigger] rest[i], Some(slot), Some(item)) implies rest[i].amount
            > 0 by {
            assert(rest[i] == items[i + 1]);
        }
        lemma_nothing_held_means_no_entry(rest, slot, item);
        assert forall|i: int| 0 <= i < items.len() implies !counted(
            #[trigger] items[i],
            Some(slot),
            Some(item),
        ) by {
            if i > 0 {
                assert(items[i] == rest[i - 1]);
            }
        }
    }
}

/// Equip and unequip conserve what is held: on the set that an accepted equip of `q`
/// units leaves behind, the unequip of `q` units is accepted, and afterwards the body part
/// holds of the item what it held before the equip. Where it held nothing, no entry of
/// the item is left at the body part.
pub proof fn lemma_equip_then_unequip_conserves(
    items: Seq<EquippedItem>,
    slot: u16,
    item: Pubkey,
    q: u64,
)
    requires
        rebuilt(items, slot, item, q, true) is Ok,
    ensures
        rebuilt(rebuilt(items, slot, item, q, true)->Ok_0.new_eq_items, slot, item, q, false)
            matches Ok(restored) && total_equipped(
            restored.new_eq_items,
            Some(slot),
            Some(item),
        ) == total_equipped(items, Some(slot), Some(item)) && (total_equipped(
            items,
            Some(slot),
            Some(item),
        ) == 0 ==> forall|i: int|
            0 <= i < restored.new_eq_items.len() ==> !counted(
                #[trigger] restored.new_eq_items[i],
                Some(slot),
                Some(item),
            )),
{
    let equipped = equipped_after(items, slot, item, q, true);
    lemma_total_narrower(items, slot, item);
    lemma_total_after_adding(items, slot, item, q as nat, Some(slot), Some(item));
    lemma_total_after_adding(items, slot, item, q as nat, Some(slot), None);
    lemma_total_after_adding(items, slot, item, q as nat, None, Some(item));
    lemma_total_after_removing(equipped, slot, item, q as nat, Some(slot), Some(item));
    let restored = equipped_after(equipped, slot, item, q, false);
    lemma_no_empty_entry_after_removing(equipped, slot, item, q as nat);
    if total_equipped(items, Some(slot), Some(item)) == 0 {
        lemma_nothing_held_means_no_entry(restored, slot, item);
    }
}

/// A request leaves alone what it does not name: no count of another body part or of
/// another item changes.
pub proof fn lemma_other_counts_kept(
    items: Seq<EquippedItem>,
    slot: u16,
    item: Pubkey,
    amount: u64,
    equipping: bool,
    other_slot: u16,
    other_item: Pubkey,
)
    requires
        equipping ==> total_equipped(items, Some(slot), Some(item)) + amount <= u64::MAX,
        !equipping ==> amount <= total_equipped(items, Some(slot), Some(item)),
    ensures
        other_slot != slot ==> total_equipped(
            equipped_after(items, slot, item, amount, equipping),
            Some(other_slot),
            None,
        ) == total_equipped(items, Some(other_slot), None),
        other_item != item ==> total_equipped(
            equipped_after(items, slot, item, amount, equipping),
            None,
            Some(other_item),
        ) == total_equipped(items, None, Some(other_item)),
{
    if equipping {
        lemma_total_after_adding(items, slot, item, amount as nat, Some(other_slot), None);
        lemma_total_after_adding(items, slot, item, amount as nat, None, Some(other_item));
    } else {
        lemma_total_after_removing(items, slot, item, amount as nat, Some(other_slot), None);
        lemma_total_after_removing(items, slot, item, amount as nat, None, Some(other_item));
    }
}

/// The first body part of a list that carries the given index.
pub open spec fn first_body_part(parts: Seq<Tagged<BodyPartView>>, index: u16) -> Option<
    Tagged<BodyPartView>,
>
    decreases parts.len(),
{
    if parts.len() == 0 {
        None
    } else if parts.first().value.index == index {
        Some(parts.first())
    } else {
        first_body_part(parts.drop_first(), index)
    }
}

/// The body part that a request targets: a class without body parts has nothing to
/// equip, and the index must be that of one of its body parts.
pub open spec fn used_body_part(parts: Option<Seq<Tagged<BodyPartView>>>, index: u16) -> Result<
    Tagged<BodyPartView>,
    ErrorCode,
> {
    match parts {
        Some(list) => if list.len() == 0 {
            Err(ErrorCode::NoBodyPartsToEquip)
        } else {
            match first_body_part(list, index) {
                Some(part) => Ok(part),
                None => Err(ErrorCode::UnableToFindBodyPartByIndex),
            }
        },
        None => Err(ErrorCode::NoBodyPartsToEquip),
    }
}

/// Looks up the body part of a player class by its index.
pub fn find_used_body_part_from_index(player_class: &PlayerClass, body_part_index: u16) -> (res:
    Result<BodyPart, ErrorCode>)
    ensures
        match used_body_part(player_class.data.config.body_parts.deep_view(), body_part_index) {
            Ok(part) => res matches Ok(found) && found.deep_view() == part,
            Err(e) => res matches Err(err) && err == e,
        },
{
    match &player_class.data.config.body_parts {
        Some(bp) => {
            if bp.len() == 0 {
                return Err(ErrorCode::NoBodyPartsToEquip);
            }
            let ghost parts = bp.deep_view();
            let mut i: usize = 0;
            proof {
                assert(parts.skip(0) =~= parts);
            }
            while i < bp.len()
                invariant
                    i <= bp.len(),
                    parts == bp.deep_view(),
                    parts.len() > 0,
                    player_class.data.config.body_parts.deep_view() == Some(parts),
                    first_body_part(parts.skip(i as int), body_part_index) == first_body_part(
                        parts,
                        body_part_index,
                    ),
                decreases bp.len() - i,
            {
                proof {
                    assert(parts.skip(i as int).first() == bp[i as int].deep_view());
                    assert(parts.skip(i as int).drop_first() =~= parts.skip(i + 1));
                }
                if bp[i].index == body_part_index {
                    return Ok(bp[i].duplicate());
                }
                i += 1;
            }
            proof {
                assert(parts.skip(bp.len() as int) =~= Seq::<Tagged<BodyPartView>>::empty());
            }
            Err(ErrorCode::UnableToFindBodyPartByIndex)
        },
        None => Err(ErrorCode::NoBodyPartsToEquip),
    }
}

} // verus!
