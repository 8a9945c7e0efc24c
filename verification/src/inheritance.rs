use vstd::prelude::*;

verus! {

/// A 32-byte identifier of a class, an item, a mint or a program.
pub type Pubkey = [u8; 32];

/// Where the value of a propagated field came from.
#[derive(Clone, Copy, Debug, PartialEq, Eq, Structural)]
pub enum InheritanceState {
    /// Set on the child itself and never touched by a parent.
    NotInherited,
    /// Copied down from the parent class.
    Inherited,
    /// Inherited once and then replaced locally.
    Overridden,
}

/// The model of a propagated value: what it holds and where it came from.
pub struct Tagged<P> {
    pub value: P,
    pub inherited: InheritanceState,
}

impl<P> Tagged<P> {
    /// The same content, marked as copied down from the parent.
    pub open spec fn inherit(self) -> Tagged<P> {
        Tagged { value: self.value, inherited: InheritanceState::Inherited }
    }
}

/// A value that carries an inheritance tag beside its content.
pub trait Inherited<P>: Sized + DeepView<V = Tagged<P>> {
    fn get_inherited(&self) -> (state: InheritanceState)
        ensures
            state == self.deep_view().inherited,
    ;

    fn set_inherited(&mut self, i: InheritanceState)
        ensures
            final(self).deep_view() == (Tagged { value: old(self).deep_view().value, inherited: i }),
    ;

    /// A deep copy of the value.
    fn duplicate(&self) -> (copy: Self)
        ensures
            copy.deep_view() == self.deep_view(),
    ;
}

/// A scalar field is locally overridden when it is present and tagged `Overridden`.
pub open spec fn value_overridden<P>(child: Option<Tagged<P>>) -> bool {
    child matches Some(c) && c.inherited == InheritanceState::Overridden
}

/// A list field is locally overridden when it is present and one of its items is tagged
/// `Overridden`.
pub open spec fn list_overridden<P>(child: Option<Seq<Tagged<P>>>) -> bool {
    child matches Some(items) && exists|i: int|
        0 <= i < items.len() && (#[trigger] items[i]).inherited == InheritanceState::Overridden
}

/// The parent's scalar value as a child receives it.
pub open spec fn inherited_value<P>(parent: Option<Tagged<P>>) -> Option<Tagged<P>> {
    match parent {
        Some(p) => Some(p.inherit()),
        None => None,
    }
}

/// The parent's whole list as a child receives it.
pub open spec fn inherited_list<P>(parent: Option<Seq<Tagged<P>>>) -> Option<Seq<Tagged<P>>> {
    match parent {
        Some(items) => Some(items.map_values(|e: Tagged<P>| e.inherit())),
        None => None,
    }
}

/// One propagation step on a scalar field: a local override survives a rule that is not
/// overridable, anything else is replaced by the parent's value.
pub open spec fn propagated_value<P>(
    parent: Option<Tagged<P>>,
    child: Option<Tagged<P>>,
    overridable: bool,
) -> Option<Tagged<P>> {
    if value_overridden(child) && !overridable {
        child
    } else {
        inherited_value(parent)
    }
}

/// One propagation step on a list field. The list is kept or replaced as a whole.
pub open spec fn propagated_list<P>(
    parent: Option<Seq<Tagged<P>>>,
    child: Option<Seq<Tagged<P>>>,
    overridable: bool,
) -> Option<Seq<Tagged<P>>> {
    if list_overridden(child) && !overridable {
        child
    } else {
        inherited_list(parent)
    }
}

/// The scalar field of a parent and of its child, and whether the rule that names the
/// field is overridable.
pub struct PropagateParentArgs<'a, T> {
    pub parent: &'a Option<T>,
    pub child: &'a Option<T>,
    pub overridable: bool,
}

/// The list field of a parent and of its child, and whether the rule that names the
/// field is overridable.
pub struct PropagateParentArrayArgs<'a, T> {
    pub parent_items: &'a Option<Vec<T>>,
    pub child_items: &'a Option<Vec<T>>,
    pub overridable: bool,
}

/// Resolves a scalar field of a child against its parent.
pub fn propagate_parent<P, T: Inherited<P>>(args: PropagateParentArgs<T>) -> (resolved: Option<T>)
    ensures
        resolved.deep_view() == propagated_value(
            args.parent.deep_view(),
            args.child.deep_view(),
            args.overridable,
        ),
{
    let PropagateParentArgs { parent, child, overridable } = args;
    if !overridable {
        if let Some(ch) = child {
            if ch.get_inherited() == InheritanceState::Overridden {
                return Some(ch.duplicate());
            }
        }
    }
    match parent {
        Some(par) => {
            let mut copy = par.duplicate();
            copy.set_inherited(InheritanceState::Inherited);
            Some(copy)
        },
        None => None,
    }
}

/// Whether one item of `items` is tagged `Overridden`.
fn any_overridden<P, T: Inherited<P>>(items: &Vec<T>) -> (found: bool)
    ensures
        found == list_overridden(Some(items.deep_view())),
{
    let mut i: usize = 0;
    while i < items.len()
        invariant
            i <= items.len(),
            forall|j: int|
                0 <= j < i ==> (#[trigger] items.deep_view()[j]).inherited
                    != InheritanceState::Overridden,
        decreases items.len() - i,
    {
        if items[i].get_inherited() == InheritanceState::Overridden {
            assert(items.deep_view()[i as int].inherited == InheritanceState::Overridden);
            return true;
        }
        i += 1;
    }
    false
}

/// Deep copy of a list.
pub fn duplicate_all<P, T: Inherited<P>>(items: &Vec<T>) -> (copy: Vec<T>)
    ensures
        copy.deep_view() == items.deep_view(),
{
    let mut copy: Vec<T> = Vec::new();
    let mut i: usize = 0;
    while i < items.len()
        invariant
            i <= items.len(),
            copy.len() == i,
            forall|j: int| 0 <= j < i ==> (#[trigger] copy[j]).deep_view() == items[j].deep_view(),
        decreases items.len() - i,
    {
        copy.push(items[i].duplicate());
        i += 1;
    }
    assert(copy.deep_view() =~= items.deep_view());
    copy
}

/// Deep copy of a list with every item marked as inherited.
fn inherit_all<P, T: Inherited<P>>(items: &Vec<T>) -> (copy: Vec<T>)
    ensures
        Some(copy.deep_view()) == inherited_list(Some(items.deep_view())),
{
    let mut copy: Vec<T> = Vec::new();
    let mut i: usize = 0;
    while i < items.len()
        invariant
            i <= items.len(),
            copy.len() == i,
            forall|j: int|
                0 <= j < i ==> (#[trigger] copy[j]).deep_view() == items[j].deep_view().inherit(),
        decreases items.len() - i,
    {
        let mut item = items[i].duplicate();
        item.set_inherited(InheritanceState::Inherited);
        copy.push(item);
        i += 1;
    }
    assert(copy.deep_view() =~= items.deep_view().map_values(|e: Tagged<P>| e.inherit()));
    copy
}

/// Resolves a list field of a child against its parent. The list is never merged item by
/// item: the result is either the child's list or the parent's.
pub fn propagate_parent_array<P, T: Inherited<P>>(args: PropagateParentArrayArgs<T>) -> (resolved:
    Option<Vec<T>>)
    ensures
        resolved.deep_view() == propagated_list(
            args.parent_items.deep_view(),
            args.child_items.deep_view(),
            args.overridable,
        ),
{
    let PropagateParentArrayArgs { parent_items, child_items, overridable } = args;
    if !overridable {
        if let Some(c_items) = child_items {
            if any_overridden(c_items) {
                return Some(duplicate_all(c_items));
            }
        }
    }
    match parent_items {
        Some(p_items) => Some(inherit_all(p_items)),
        None => None,
    }
}

} // verus!
