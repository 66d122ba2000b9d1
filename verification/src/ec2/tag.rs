//! The columns of the instance tags table.
use vstd::prelude::*;
use crate::common::{
    column_width, label_width, lookup, translated_label, with_defaults, ColumnId, Translations,
};
pub use crate::ec2::InstanceTag;
use crate::text::str_eq;

verus! {

/// A column of the instance tags table.
#[derive(Clone, Copy, Debug, PartialEq, Eq, Structural)]
pub enum Column {
    Key,
    Value,
}

impl Column {
    /// The translation key of the column.
    pub open spec fn key(self) -> Seq<char> {
        match self {
            Column::Key => "column.ec2.tag.key"@,
            Column::Value => "column.ec2.tag.value"@,
        }
    }

    /// The label of the column when no translation replaces it.
    pub open spec fn default_label(self) -> Seq<char> {
        match self {
            Column::Key => "Key"@,
            Column::Value => "Value"@,
        }
    }

    /// The column whose key is `id`, if any.
    pub open spec fn with_key(id: Seq<char>) -> Option<Self> {
        if id == "column.ec2.tag.key"@ {
            Some(Column::Key)
        } else if id == "column.ec2.tag.value"@ {
            Some(Column::Value)
        } else {
            None
        }
    }

    /// Reading a column back from its key gives the column: no two columns
    /// share a key.
    pub proof fn lemma_key_roundtrip(c: Self)
        ensures
            Self::with_key(c.key()) == Some(c),
    {
        reveal_strlit("column.ec2.tag.key");
        reveal_strlit("column.ec2.tag.value");
        assert("column.ec2.tag.key"@.len() == 18);
        assert("column.ec2.tag.value"@.len() == 20);
    }

    /// Every column, in display order.
    pub open spec fn every() -> Seq<Self> {
        seq![Column::Key, Column::Value]
    }

    /// The translation key of the column.
    pub fn id(&self) -> (r: ColumnId)
        ensures
            r@ == self.key(),
    {
        match self {
            Column::Key => "column.ec2.tag.key",
            Column::Value => "column.ec2.tag.value",
        }
    }

    /// The label of the column when no translation replaces it.
    pub fn default_name(&self) -> (r: &'static str)
        ensures
            r@ == self.default_label(),
    {
        match self {
            Column::Key => "Key",
            Column::Value => "Value",
        }
    }

    /// The label of the column: its translation, else its default label.
    pub fn name(&self, tr: &Translations) -> (r: String)
        ensures
            r@ == translated_label(tr.entries@, self.key(), self.default_label()),
    {
        tr.translate_column(self.id(), self.default_name())
    }

    /// The column whose key is `id`, if any.
    pub fn from_id(id: &str) -> (r: Option<Self>)
        ensures
            r == Self::with_key(id@),
    {
        if str_eq(id, "column.ec2.tag.key") {
            Some(Column::Key)
        } else if str_eq(id, "column.ec2.tag.value") {
            Some(Column::Value)
        } else {
            None
        }
    }

    /// Every column, in display order.
    pub fn all() -> (r: [Self; 2])
        ensures
            r@ == Self::every(),
    {
        let r = [Column::Key, Column::Value];
        assert(r@ =~= Self::every());
        r
    }

    /// The keys of every column, in display order.
    pub fn ids() -> (r: Vec<ColumnId>)
        ensures
            r@.len() == Self::every().len(),
            forall|i: int| 0 <= i < r@.len() ==> (#[trigger] r@[i])@ == Self::every()[i].key(),
    {
        let r: Vec<ColumnId> = vec!["column.ec2.tag.key", "column.ec2.tag.value"];
        assert forall|i: int| 0 <= i < r@.len() implies (#[trigger] r@[i])@ == Self::every()[i].key() by {
            assert(r@ =~= seq!["column.ec2.tag.key", "column.ec2.tag.value"]);
        }
        r
    }

    /// The display width of the column: its label's byte length, at least 20.
    pub fn width(&self, tr: &Translations) -> (r: u16)
        ensures
            r == label_width(translated_label(tr.entries@, self.key(), self.default_label()), 20),
    {
        column_width(tr, self.id(), self.default_name(), 20)
    }

    /// The text of the column's cell for `item`.
    pub fn render(&self, item: &InstanceTag) -> (r: String)
        ensures
            r@ == (match self {
                Column::Key => item.key@,
                Column::Value => item.value@,
            }),
    {
        match self {
            Column::Key => item.key.clone(),
            Column::Value => item.value.clone(),
        }
    }
}

/// The tag column keys and their default labels, in the order `init` lays them down.
pub open spec fn default_labels() -> (Seq<Seq<char>>, Seq<Seq<char>>) {
    (seq!["column.ec2.tag.key"@, "column.ec2.tag.value"@], seq!["Key"@, "Value"@])
}

/// Gives the tag columns their default labels, unless they already have a translation.
pub fn init(tr: &mut Translations)
    ensures
        forall|k: Seq<char>| #[trigger] lookup(final(tr).entries@, k) == with_defaults(
            lookup(old(tr).entries@, k), default_labels().0, default_labels().1, k),
{
    let keys: Vec<ColumnId> = vec!["column.ec2.tag.key", "column.ec2.tag.value"];
    let labels: Vec<&'static str> = vec!["Key", "Value"];
    assert(keys@.map_values(|s: &str| s@) =~= default_labels().0);
    assert(labels@.map_values(|s: &str| s@) =~= default_labels().1);
    tr.set_defaults(&keys, &labels);
}

} // verus!
