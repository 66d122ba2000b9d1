//! Resources of REST APIs as rows of a tree, and the columns of the resources
//! table.
use vstd::prelude::*;
use vstd::string::*;
use crate::common::ColumnId;
use crate::text::str_eq;

pub use crate::cloud::apig::Resource;

verus! {

impl Resource {
    /// The key the tree knows the resource by: its id.
    pub fn id(&self) -> (r: &str)
        ensures
            r@ == self.id@,
    {
        self.id.as_str()
    }

    /// The name the tree shows for the resource.
    pub fn display_name(&self) -> (r: &str)
        ensures
            r@ == self.display_name@,
    {
        self.display_name.as_str()
    }

    /// A resource opens in the tree when it has methods.
    pub fn is_expandable(&self) -> (r: bool)
        ensures
            r == (self.methods@.len() > 0),
    {
        self.methods.len() > 0
    }

    /// The icon of a resource: none.
    pub fn icon(&self) -> (r: &'static str)
        ensures
            r@ == ""@,
    {
        ""
    }
}

/// A column of the resources table.
#[derive(Clone, Copy, Debug, PartialEq, Eq, Structural)]
pub enum Column {
    Path,
    Id,
    Arn,
}

impl Column {
    /// The translation key of the column.
    pub open spec fn key(self) -> Seq<char> {
        match self {
            Column::Path => "path"@,
            Column::Id => "id"@,
            Column::Arn => "arn"@,
        }
    }

    /// The label of the column when no translation replaces it.
    pub open spec fn default_label(self) -> Seq<char> {
        match self {
            Column::Path => "Resource"@,
            Column::Id => "ID"@,
            Column::Arn => "ARN"@,
        }
    }

    /// The column whose key is `id`, if any.
    pub open spec fn with_key(id: Seq<char>) -> Option<Self> {
        if id == "path"@ {
            Some(Column::Path)
        } else if id == "id"@ {
            Some(Column::Id)
        } else if id == "arn"@ {
            Some(Column::Arn)
        } else {
            None
        }
    }

    /// Reading a column back from its key gives the column: no two columns
    /// share a key.
    pub proof fn lemma_key_roundtrip(c: Self)
        ensures
            Self::with_key(c.key()) == Some(c),
    {
        reveal_strlit("path");
        reveal_strlit("id");
        reveal_strlit("arn");
        assert("path"@.len() == 4);
        assert("id"@.len() == 2);
        assert("arn"@.len() == 3);
    }

    /// Every column, in display order.
    pub open spec fn every() -> Seq<Self> {
        seq![Column::Path, Column::Id, Column::Arn]
    }

    /// The translation key of the column.
    pub fn id(&self) -> (r: ColumnId)
        ensures
            r@ == self.key(),
    {
        match self {
            Column::Path => "path",
            Column::Id => "id",
            Column::Arn => "arn",
        }
    }

    /// The label of the column when no translation replaces it.
    pub fn name(&self) -> (r: &'static str)
        ensures
            r@ == self.default_label(),
    {
        match self {
            Column::Path => "Resource",
            Column::Id => "ID",
            Column::Arn => "ARN",
        }
    }

    /// The column whose key is `id`, if any.
    pub fn from_id(id: &str) -> (r: Option<Self>)
        ensures
            r == Self::with_key(id@),
    {
        if str_eq(id, "path") {
            Some(Column::Path)
        } else if str_eq(id, "id") {
            Some(Column::Id)
        } else if str_eq(id, "arn") {
            Some(Column::Arn)
        } else {
            None
        }
    }

    /// Every column, in display order.
    pub fn all() -> (r: [Self; 3])
        ensures
            r@ == Self::every(),
    {
        let r = [Column::Path, Column::Id, Column::Arn];
        assert(r@ =~= Self::every());
        r
    }

    /// The keys of every column, in display order.
    pub fn ids() -> (r: Vec<ColumnId>)
        ensures
            r@.len() == Self::every().len(),
            forall|i: int| 0 <= i < r@.len() ==> (#[trigger] r@[i])@ == Self::every()[i].key(),
    {
        let r: Vec<ColumnId> = vec!["path", "id", "arn"];
        assert forall|i: int| 0 <= i < r@.len() implies (#[trigger] r@[i])@ == Self::every()[i].key() by {
            assert(r@ =~= seq!["path", "id", "arn"]);
        }
        r
    }

    /// The display width of the column.
    pub fn width(&self) -> (r: u16)
        ensures
            r == (match self {
                Column::Path => 40u16,
                Column::Id => 20u16,
                Column::Arn => 60u16,
            }),
    {
        match self {
            Column::Path => 40,
            Column::Id => 20,
            Column::Arn => 60,
        }
    }

    /// The text of the column's cell for `item`.
    pub open spec fn cell(self, item: Resource) -> Seq<char> {
        match self {
            Column::Path => item.path@,
            Column::Id => item.id@,
            Column::Arn => item.arn@,
        }
    }

    /// The text of the column's cell for `item`.
    pub fn render(&self, item: &Resource) -> (r: String)
        ensures
            r@ == self.cell(*item),
    {
        match self {
            Column::Path => item.path.clone(),
            Column::Id => item.id.clone(),
            Column::Arn => item.arn.clone(),
        }
    }
}

} // verus!
