use crate::inheritance::{Inherited, InheritanceState, Tagged};
use vstd::prelude::*;

verus! {

/// The kind of a stat, with its starting value and, for integers, its bounds.
#[derive(Clone, Debug, PartialEq, Eq)]
pub enum BasicStatType {
    Enum { starting: u8, values: Vec<(String, u8)> },
    Integer { min: Option<i64>, max: Option<i64>, starting: i64 },
    Bool { starting: bool },
    String { starting: String },
}

/// Model of a [`BasicStatType`].
pub enum BasicStatTypeView {
    Enum { starting: u8, values: Seq<(Seq<char>, u8)> },
    Integer { min: Option<i64>, max: Option<i64>, starting: i64 },
    Bool { starting: bool },
    String { starting: Seq<char> },
}

impl DeepView for BasicStatType {
    type V = BasicStatTypeView;

    open spec fn deep_view(&self) -> BasicStatTypeView {
        match self {
            BasicStatType::Enum { starting, values } => BasicStatTypeView::Enum {
                starting: *starting,
                values: values.deep_view(),
            },
            BasicStatType::Integer { min, max, starting } => BasicStatTypeView::Integer {
                min: *min,
                max: *max,
                starting: *starting,
            },
            BasicStatType::Bool { starting } => BasicStatTypeView::Bool { starting: *starting },
            BasicStatType::String { starting } => BasicStatTypeView::String { starting: starting@ },
        }
    }
}

/// Deep copy of the allowed values of an enum stat.
fn duplicate_values(values: &Vec<(String, u8)>) -> (copy: Vec<(String, u8)>)
    ensures
        copy.deep_view() == values.deep_view(),
{
    let mut copy: Vec<(String, u8)> = Vec::new();
    let mut i: usize = 0;
    while i < values.len()
        invariant
            i <= values.len(),
            copy.len() == i,
            forall|j: int| 0 <= j < i ==> (#[trigger] copy[j]).deep_view() == values[j].deep_view(),
        decreases values.len() - i,
    {
        copy.push((values[i].0.clone(), values[i].1));
        i += 1;
    }
    assert(copy.deep_view() =~= values.deep_view());
    copy
}

impl BasicStatType {
    /// A deep copy of the kind.
    pub fn duplicate(&self) -> (copy: Self)
        ensures
            copy.deep_view() == self.deep_view(),
    {
        match self {
            BasicStatType::Enum { starting, values } => BasicStatType::Enum {
                starting: *starting,
                values: duplicate_values(values),
            },
            BasicStatType::Integer { min, max, starting } => BasicStatType::Integer {
                min: *min,
                max: *max,
                starting: *starting,
            },
            BasicStatType::Bool { starting } => BasicStatType::Bool { starting: *starting },
            BasicStatType::String { starting } => BasicStatType::String {
                starting: starting.clone(),
            },
        }
    }
}

/// One stat that a class defines for its players. `index` is the position of the stat's
/// slot in every player of the class.
#[derive(Clone, Debug, PartialEq, Eq)]
pub struct BasicStatTemplate {
    pub index: u16,
    pub name: String,
    pub stat_type: BasicStatType,
    pub inherited: InheritanceState,
}

/// Model of a [`BasicStatTemplate`] without its inheritance tag.
pub struct BasicStatTemplateView {
    pub index: u16,
    pub name: Seq<char>,
    pub stat_type: BasicStatTypeView,
}

impl DeepView for BasicStatTemplate {
    type V = Tagged<BasicStatTemplateView>;

    open spec fn deep_view(&self) -> Tagged<BasicStatTemplateView> {
        Tagged {
            value: BasicStatTemplateView {
                index: self.index,
                name: self.name@,
                stat_type: self.stat_type.deep_view(),
            },
            inherited: self.inherited,
        }
    }
}

impl Inherited<BasicStatTemplateView> for BasicStatTemplate {
    fn get_inherited(&self) -> (state: InheritanceState) {
        self.inherited
    }

    fn set_inherited(&mut self, i: InheritanceState) {
        self.inherited = i;
    }

    fn duplicate(&self) -> (copy: Self) {
        BasicStatTemplate {
            index: self.index,
            name: self.name.clone(),
            stat_type: self.stat_type.duplicate(),
            inherited: self.inherited,
        }
    }
}

/// The value that a player holds for one stat.
#[derive(Clone, Debug, PartialEq, Eq)]
pub enum BasicStatState {
    Enum { current: u8 },
    /// `current` is the permanent base, `calculated_intermediate` the base with additive
    /// temporary modifiers, `calculated` the visible value with percentage modifiers on top.
    Integer { current: i64, calculated_intermediate: i64, calculated: i64 },
    Bool { current: bool },
    String { current: String },
    Null,
}

/// Model of a [`BasicStatState`].
pub enum BasicStatStateView {
    Enum { current: u8 },
    Integer { current: i64, calculated_intermediate: i64, calculated: i64 },
    Bool { current: bool },
    String { current: Seq<char> },
    Null,
}

impl DeepView for BasicStatState {
    type V = BasicStatStateView;

    open spec fn deep_view(&self) -> BasicStatStateView {
        match self {
            BasicStatState::Enum { current } => BasicStatStateView::Enum { current: *current },
            BasicStatState::Integer {
                current,
                calculated_intermediate,
                calculated,
            } => BasicStatStateView::Integer {
                current: *current,
                calculated_intermediate: *calculated_intermediate,
                calculated: *calculated,
            },
            BasicStatState::Bool { current } => BasicStatStateView::Bool { current: *current },
            BasicStatState::String { current } => BasicStatStateView::String { current: current@ },
            BasicStatState::Null => BasicStatStateView::Null,
        }
    }
}

impl BasicStatState {
    /// A deep copy of the state.
    pub fn duplicate(&self) -> (copy: Self)
        ensures
            copy.deep_view() == self.deep_view(),
    {
        match self {
            BasicStatState::Enum { current } => BasicStatState::Enum { current: *current },
            BasicStatState::Integer {
                current,
                calculated_intermediate,
                calculated,
            } => BasicStatState::Integer {
                current: *current,
                calculated_intermediate: *calculated_intermediate,
                calculated: *calculated,
            },
            BasicStatState::Bool { current } => BasicStatState::Bool { current: *current },
            BasicStatState::String { current } => BasicStatState::String {
                current: current.clone(),
            },
            BasicStatState::Null => BasicStatState::Null,
        }
    }
}

/// One stat slot of a player.
#[derive(Clone, Debug, PartialEq, Eq)]
pub struct BasicStat {
    pub index: u16,
    pub state: BasicStatState,
}

/// Model of a [`BasicStat`].
pub struct BasicStatView {
    pub index: u16,
    pub state: BasicStatStateView,
}

impl DeepView for BasicStat {
    type V = BasicStatView;

    open spec fn deep_view(&self) -> BasicStatView {
        BasicStatView { index: self.index, state: self.state.deep_view() }
    }
}

impl BasicStat {
    /// A deep copy of the slot.
    pub fn duplicate(&self) -> (copy: Self)
        ensures
            copy.deep_view() == self.deep_view(),
    {
        BasicStat { index: self.index, state: self.state.duplicate() }
    }
}

} // verus!
