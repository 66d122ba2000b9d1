//! The resources an event names, and the columns of their table.
use vstd::prelude::*;
use crate::common::ColumnId;
use crate::text::str_eq;

verus! {

/// A resource that an event names.
#[derive(Clone, Debug)]
pub struct EventResource {
    pub resource_type: String,
    pub resource_name: String,
    pub timeline: String,
}

/// A column of the table of an event's resources.
#[derive(Clone, Copy, Debug, PartialEq, Eq, Structural)]
pub enum EventResourceColumn {
    ResourceType,
    ResourceName,
    Timeline,
}

impl EventResourceColumn {
    /// The translation key of the column.
    pub open spec fn key(self) -> Seq<char> {
        match self {
            EventResourceColumn::ResourceType => "column.cloudtrail.resource.resource_type"@,
            EventResourceColumn::ResourceName => "column.cloudtrail.resource.resource_name"@,
            EventResourceColumn::Timeline => "column.cloudtrail.resource.timeline"@,
        }
    }

    /// The label of the column when no translation replaces it.
    pub open spec fn default_label(self) -> Seq<char> {
        match self {
            EventResourceColumn::ResourceType => "Resource type"@,
            EventResourceColumn::ResourceName => "Resource name"@,
            EventResourceColumn::Timeline => "AWS Config resource timeline"@,
        }
    }

    /// The display width of the column.
    pub open spec fn width_of(self) -> u16 {
        match self {
            EventResourceColumn::ResourceType => 30,
            EventResourceColumn::ResourceName => 50,
            EventResourceColumn::Timeline => 30,
        }
    }

    /// The column whose key is `id`, if any.
    pub open spec fn with_key(id: Seq<char>) -> Option<Self> {
        if id == "column.cloudtrail.resource.resource_type"@ {
            Some(EventResourceColumn::ResourceType)
        } else if id == "column.cloudtrail.resource.resource_name"@ {
            Some(EventResourceColumn::ResourceName)
        } else if id == "column.cloudtrail.resource.timeline"@ {
            Some(EventResourceColumn::Timeline)
        } else {
            None
        }
    }

    /// Reading a column back from its key gives the column: no two columns
    /// share a key.
    pub proof fn lemma_key_roundtrip(c: Self)
        ensures
            Self::with_key(c.key()) == Some(c),
    {
        reveal_strlit("column.cloudtrail.resource.resource_type");
        reveal_strlit("column.cloudtrail.resource.resource_name");
        reveal_strlit("column.cloudtrail.resource.timeline");
        assert("column.cloudtrail.resource.resource_type"@.len() == 40);
        assert("column.cloudtrail.resource.resource_name"@.len() == 40);
        assert("column.cloudtrail.resource.timeline"@.len() == 35);
        assert("column.cloudtrail.resource.resource_name"@[36] != "column.cloudtrail.resource.resource_type"@[36]);
    }

    /// Every column, in display order.
    pub open spec fn every() -> Seq<Self> {
        seq![EventResourceColumn::ResourceType, EventResourceColumn::ResourceName, EventResourceColumn::Timeline]
    }

    /// The translation key of the column.
    pub fn id(&self) -> (r: ColumnId)
        ensures
            r@ == self.key(),
    {
        match self {
            EventResourceColumn::ResourceType => "column.cloudtrail.resource.resource_type",
            EventResourceColumn::ResourceName => "column.cloudtrail.resource.resource_name",
            EventResourceColumn::Timeline => "column.cloudtrail.resource.timeline",
        }
    }

    /// The label of the column when no translation replaces it.
    pub fn name(&self) -> (r: &'static str)
        ensures
            r@ == self.default_label(),
    {
        match self {
            EventResourceColumn::ResourceType => "Resource type",
            EventResourceColumn::ResourceName => "Resource name",
            EventResourceColumn::Timeline => "AWS Config resource timeline",
        }
    }

    /// The display width of the column.
    pub fn width(&self) -> (r: u16)
        ensures
            r == self.width_of(),
    {
        match self {
            EventResourceColumn::ResourceType => 30,
            EventResourceColumn::ResourceName => 50,
            EventResourceColumn::Timeline => 30,
        }
    }

    /// The column whose key is `id`, if any.
    pub fn from_id(id: &str) -> (r: Option<Self>)
        ensures
            r == Self::with_key(id@),
    {
        if str_eq(id, "column.cloudtrail.resource.resource_type") {
            Some(EventResourceColumn::ResourceType)
        } else if str_eq(id, "column.cloudtrail.resource.resource_name") {
            Some(EventResourceColumn::ResourceName)
        } else if str_eq(id, "column.cloudtrail.resource.timeline") {
            Some(EventResourceColumn::Timeline)
        } else {
            None
        }
    }

    /// The keys of every column, in display order.
    pub fn ids() -> (r: Vec<ColumnId>)
        ensures
            r@.len() == Self::every().len(),
            forall|i: int| 0 <= i < r@.len() ==> (#[trigger] r@[i])@ == Self::every()[i].key(),
    {
        let r: Vec<ColumnId> = vec!["column.cloudtrail.resource.resource_type", "column.cloudtrail.resource.resource_name", "column.cloudtrail.resource.timeline"];
        assert forall|i: int| 0 <= i < r@.len() implies (#[trigger] r@[i])@ == Self::every()[i].key() by {
            assert(r@ =~= seq!["column.cloudtrail.resource.resource_type", "column.cloudtrail.resource.resource_name", "column.cloudtrail.resource.timeline"]);
        }
        r
    }

}

} // verus!
