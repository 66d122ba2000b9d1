//! The key and value columns of a tag table.
use vstd::prelude::*;
use crate::common::{translated_label, ColumnId, Translations};
use crate::text::str_eq;

verus! {

/// A column of a tag table.
#[derive(Clone, Copy, Debug, PartialEq, Eq, Structural)]
pub enum TagColumn {
    Key,
    Value,
}

impl TagColumn {
    /// The translation key of the column.
    pub open spec fn key(self) -> Seq<char> {
        match self {
            TagColumn::Key => "column.cw.tag.key"@,
            TagColumn::Value => "column.cw.tag.value"@,
        }
    }

    /// The label of the column when no translation replaces it.
    pub open spec fn default_label(self) -> Seq<char> {
        match self {
            TagColumn::Key => "Key"@,
            TagColumn::Value => "Value"@,
        }
    }

    /// The column whose key is `id`, if any.
    pub open spec fn with_key(id: Seq<char>) -> Option<Self> {
        if id == "column.cw.tag.key"@ {
            Some(TagColumn::Key)
        } else if id == "column.cw.tag.value"@ {
            Some(TagColumn::Value)
        } else {
            None
        }
    }

    /// Reading a column back from its key gives the column: no two columns
    /// share a key.
    pub proof fn lemma_key_roundtrip(c: Self)
        ensures
            Self::with_key(c.key()) == Some(c),
    {
        reveal_strlit("column.cw.tag.key");
        reveal_strlit("column.cw.tag.value");
        assert("column.cw.tag.key"@.len() == 17);
        assert("column.cw.tag.value"@.len() == 19);
    }

    /// Every column, in display order.
    pub open spec fn every() -> Seq<Self> {
        seq![TagColumn::Key, TagColumn::Value]
    }

    /// The translation key of the column.
    pub fn id(&self) -> (r: ColumnId)
        ensures
            r@ == self.key(),
    {
        match self {
            TagColumn::Key => "column.cw.tag.key",
            TagColumn::Value => "column.cw.tag.value",
        }
    }

    /// The label of the column when no translation replaces it.
    pub fn default_name(&self) -> (r: &'static str)
        ensures
            r@ == self.default_label(),
    {
        match self {
            TagColumn::Key => "Key",
            TagColumn::Value => "Value",
        }
    }

    /// The label of the column: its translation, else its default label.
    pub fn name(&self, tr: &Translations) -> (r: String)
        ensures
            r@ == translated_label(tr.entries@, self.key(), self.default_label()),
    {
        tr.translate_column(self.id(), self.default_name())
    }

    /// The column whose key is `id`, if any.
    pub fn from_id(id: &str) -> (r: Option<Self>)
        ensures
            r == Self::with_key(id@),
    {
        if str_eq(id, "column.cw.tag.key") {
            Some(TagColumn::Key)
        } else if str_eq(id, "column.cw.tag.value") {
            Some(TagColumn::Value)
        } else {
            None
        }
    }

    /// Every column, in display order.
    pub fn all() -> (r: [Self; 2])
        ensures
            r@ == Self::every(),
    {
        let r = [TagColumn::Key, TagColumn::Value];
        assert(r@ =~= Self::every());
        r
    }

    /// The keys of every column, in display order.
    pub fn ids() -> (r: Vec<ColumnId>)
        ensures
            r@.len() == Self::every().len(),
            forall|i: int| 0 <= i < r@.len() ==> (#[trigger] r@[i])@ == Self::every()[i].key(),
    {
        let r: Vec<ColumnId> = vec!["column.cw.tag.key", "column.cw.tag.value"];
        assert forall|i: int| 0 <= i < r@.len() implies (#[trigger] r@[i])@ == Self::every()[i].key() by {
            assert(r@ =~= seq!["column.cw.tag.key", "column.cw.tag.value"]);
        }
        r
    }

    /// The keys of every column paired with their default labels.
    pub open spec fn default_pairs() -> (Seq<Seq<char>>, Seq<Seq<char>>) {
        (Self::every().map_values(|c: Self| c.key()), Self::every().map_values(|c: Self| c.default_label()))
    }

}

} // verus!
