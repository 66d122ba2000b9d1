//! CloudTrail event history view.
use vstd::prelude::*;
use crate::common::{lookup, with_defaults, InputFocus, Translations};
use crate::table::TableState;

pub mod actions;
pub mod events;
pub mod resources;

pub use events::{CloudTrailEvent, CloudTrailEventColumn};
pub use resources::{EventResource, EventResourceColumn};

verus! {

/// Gives every CloudTrail column key its default label, unless it already has
/// a translation.
pub fn init(tr: &mut Translations)
    ensures
        forall|k: Seq<char>| #[trigger] lookup(final(tr).entries@, k) == with_defaults(
            lookup(old(tr).entries@, k),
            CloudTrailEventColumn::default_pairs().0,
            CloudTrailEventColumn::default_pairs().1,
            k,
        ),
{
    events::init(tr);
}

/// The pane of an open event that has the focus.
#[derive(Clone, Copy, Debug, PartialEq, Eq, Structural)]
pub enum DetailFocus {
    Resources,
    EventRecord,
}

impl DetailFocus {
    /// The other pane.
    pub open spec fn following(self) -> DetailFocus {
        match self {
            DetailFocus::Resources => DetailFocus::EventRecord,
            DetailFocus::EventRecord => DetailFocus::Resources,
        }
    }

    /// The pane after this one, wrapping around.
    pub fn next(&self) -> (r: DetailFocus)
        ensures
            r == self.following(),
    {
        match self {
            DetailFocus::Resources => DetailFocus::EventRecord,
            DetailFocus::EventRecord => DetailFocus::Resources,
        }
    }

    /// The pane before this one, wrapping around.
    pub fn prev(&self) -> (r: DetailFocus)
        ensures
            r == self.following(),
    {
        match self {
            DetailFocus::Resources => DetailFocus::EventRecord,
            DetailFocus::EventRecord => DetailFocus::Resources,
        }
    }
}

/// The controls of the filter bar, in focus order.
pub open spec fn filter_controls() -> Seq<InputFocus> {
    seq![InputFocus::Filter, InputFocus::Pagination]
}

/// The controls of the filter bar, in focus order.
pub fn filter_control_list() -> (r: Vec<InputFocus>)
    ensures
        r@ == filter_controls(),
{
    let r = vec![InputFocus::Filter, InputFocus::Pagination];
    assert(r@ =~= filter_controls());
    r
}

/// State of the CloudTrail view: the event table, the open event (if any), the
/// pane of the open event that has the focus and how far its record is scrolled.
pub struct State {
    pub table: TableState<CloudTrailEvent>,
    pub current_event: Option<CloudTrailEvent>,
    pub detail_focus: DetailFocus,
    pub event_json_scroll: usize,
    pub input_focus: InputFocus,
}

} // verus!
