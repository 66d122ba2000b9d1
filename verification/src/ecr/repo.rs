//! The columns of the repositories table.
use vstd::prelude::*;
use vstd::string::*;
use crate::common::{
    column_width, first_value, label_width, lookup, translated_label, with_defaults, ColumnId, Translations,
    UTC_TIMESTAMP_WIDTH,
};
pub use crate::ecr::Repository;
use crate::text::{owned, str_eq};
use crate::timestamp::{format_iso_timestamp, iso_label};

verus! {

/// The column keys and default labels that `init` lays down, in order.
pub open spec fn default_labels() -> (Seq<Seq<char>>, Seq<Seq<char>>) {
    (
        seq!["column.ecr.repo.name"@, "column.ecr.repo.uri"@, "column.ecr.repo.created_at"@, "column.ecr.repo.tag_immutability"@, "column.ecr.repo.encryption_type"@],
        seq!["Repository name"@, "URI"@, "Created at"@, "Tag immutability"@, "Encryption type"@],
    )
}

/// Gives every column key its default label, unless it already has a translation.
pub fn init(tr: &mut Translations)
    ensures
        forall|k: Seq<char>| #[trigger] lookup(final(tr).entries@, k) == with_defaults(
            lookup(old(tr).entries@, k), default_labels().0, default_labels().1, k),
{
    let keys: Vec<ColumnId> = vec!["column.ecr.repo.name", "column.ecr.repo.uri", "column.ecr.repo.created_at", "column.ecr.repo.tag_immutability", "column.ecr.repo.encryption_type"];
    let labels: Vec<&'static str> = vec!["Repository name", "URI", "Created at", "Tag immutability", "Encryption type"];
    assert(keys@.map_values(|s: &str| s@) =~= default_labels().0);
    assert(labels@.map_values(|s: &str| s@) =~= default_labels().1);
    tr.set_defaults(&keys, &labels);
}

/// The label of an encryption type: `AES256` reads `AES-256`, any other type
/// is shown as it is.
pub open spec fn encryption_label(s: Seq<char>) -> Seq<char> {
    if s == "AES256"@ { "AES-256"@ } else { s }
}

/// The label of an encryption type.
pub fn format_encryption(s: &str) -> (r: String)
    ensures
        r@ == encryption_label(s@),
{
    if str_eq(s, "AES256") {
        String::from_str("AES-256")
    } else {
        owned(s)
    }
}

/// A column of the repositories table.
#[derive(Clone, Copy, Debug, PartialEq, Eq, Structural)]
pub enum Column {
    Name,
    Uri,
    CreatedAt,
    TagImmutability,
    EncryptionType,
}

impl Column {
    /// The translation key of the column.
    pub open spec fn key(self) -> Seq<char> {
        match self {
            Column::Name => "column.ecr.repo.name"@,
            Column::Uri => "column.ecr.repo.uri"@,
            Column::CreatedAt => "column.ecr.repo.created_at"@,
            Column::TagImmutability => "column.ecr.repo.tag_immutability"@,
            Column::EncryptionType => "column.ecr.repo.encryption_type"@,
        }
    }

    /// The label of the column when no translation replaces it.
    pub open spec fn default_label(self) -> Seq<char> {
        match self {
            Column::Name => "Repository name"@,
            Column::Uri => "URI"@,
            Column::CreatedAt => "Created at"@,
            Column::TagImmutability => "Tag immutability"@,
            Column::EncryptionType => "Encryption type"@,
        }
    }

    /// The column whose key is `id`, if any.
    pub open spec fn with_key(id: Seq<char>) -> Option<Self> {
        if id == "column.ecr.repo.name"@ {
            Some(Column::Name)
        } else if id == "column.ecr.repo.uri"@ {
            Some(Column::Uri)
        } else if id == "column.ecr.repo.created_at"@ {
            Some(Column::CreatedAt)
        } else if id == "column.ecr.repo.tag_immutability"@ {
            Some(Column::TagImmutability)
        } else if id == "column.ecr.repo.encryption_type"@ {
            Some(Column::EncryptionType)
        } else {
            None
        }
    }

    /// Reading a column back from its key gives the column: no two columns
    /// share a key.
    pub proof fn lemma_key_roundtrip(c: Self)
        ensures
            Self::with_key(c.key()) == Some(c),
    {
        reveal_strlit("column.ecr.repo.name");
        reveal_strlit("column.ecr.repo.uri");
        reveal_strlit("column.ecr.repo.created_at");
        reveal_strlit("column.ecr.repo.tag_immutability");
        reveal_strlit("column.ecr.repo.encryption_type");
        assert("column.ecr.repo.name"@.len() == 20);
        assert("column.ecr.repo.uri"@.len() == 19);
        assert("column.ecr.repo.created_at"@.len() == 26);
        assert("column.ecr.repo.tag_immutability"@.len() == 32);
        assert("column.ecr.repo.encryption_type"@.len() == 31);
    }

    /// Every column, in display order.
    pub open spec fn every() -> Seq<Self> {
        seq![Column::Name, Column::Uri, Column::CreatedAt, Column::TagImmutability, Column::EncryptionType]
    }

    /// The translation key of the column.
    pub fn id(&self) -> (r: ColumnId)
        ensures
            r@ == self.key(),
    {
        match self {
            Column::Name => "column.ecr.repo.name",
            Column::Uri => "column.ecr.repo.uri",
            Column::CreatedAt => "column.ecr.repo.created_at",
            Column::TagImmutability => "column.ecr.repo.tag_immutability",
            Column::EncryptionType => "column.ecr.repo.encryption_type",
        }
    }

    /// The label of the column when no translation replaces it.
    pub fn default_name(&self) -> (r: &'static str)
        ensures
            r@ == self.default_label(),
    {
        match self {
            Column::Name => "Repository name",
            Column::Uri => "URI",
            Column::CreatedAt => "Created at",
            Column::TagImmutability => "Tag immutability",
            Column::EncryptionType => "Encryption type",
        }
    }

    /// The label of the column: its translation, else its default label.
    pub fn name(&self, tr: &Translations) -> (r: String)
        ensures
            r@ == translated_label(tr.entries@, self.key(), self.default_label()),
    {
        tr.translate_column(self.id(), self.default_name())
    }

    /// The column whose key is `id`, if any.
    pub fn from_id(id: &str) -> (r: Option<Self>)
        ensures
            r == Self::with_key(id@),
    {
        if str_eq(id, "column.ecr.repo.name") {
            Some(Column::Name)
        } else if str_eq(id, "column.ecr.repo.uri") {
            Some(Column::Uri)
        } else if str_eq(id, "column.ecr.repo.created_at") {
            Some(Column::CreatedAt)
        } else if str_eq(id, "column.ecr.repo.tag_immutability") {
            Some(Column::TagImmutability)
        } else if str_eq(id, "column.ecr.repo.encryption_type") {
            Some(Column::EncryptionType)
        } else {
            None
        }
    }

    /// Every column, in display order.
    pub fn all() -> (r: [Self; 5])
        ensures
            r@ == Self::every(),
    {
        let r = [Column::Name, Column::Uri, Column::CreatedAt, Column::TagImmutability, Column::EncryptionType];
        assert(r@ =~= Self::every());
        r
    }

    /// The keys of every column, in display order.
    pub fn ids() -> (r: Vec<ColumnId>)
        ensures
            r@.len() == Self::every().len(),
            forall|i: int| 0 <= i < r@.len() ==> (#[trigger] r@[i])@ == Self::every()[i].key(),
    {
        let r: Vec<ColumnId> = vec!["column.ecr.repo.name", "column.ecr.repo.uri", "column.ecr.repo.created_at", "column.ecr.repo.tag_immutability", "column.ecr.repo.encryption_type"];
        assert forall|i: int| 0 <= i < r@.len() implies (#[trigger] r@[i])@ == Self::every()[i].key() by {
            assert(r@ =~= seq!["column.ecr.repo.name", "column.ecr.repo.uri", "column.ecr.repo.created_at", "column.ecr.repo.tag_immutability", "column.ecr.repo.encryption_type"]);
        }
        r
    }

    /// The least display width of the column.
    pub open spec fn base_width(self) -> usize {
        match self {
            Column::Name => 30,
            Column::Uri => 50,
            Column::CreatedAt => UTC_TIMESTAMP_WIDTH as usize,
            Column::TagImmutability => 18,
            Column::EncryptionType => 18,
        }
    }

    /// The display width of the column: its label's byte length, at least its base width.
    pub fn width(&self, tr: &Translations) -> (r: u16)
        ensures
            r == label_width(translated_label(tr.entries@, self.key(), self.default_label()), self.base_width()),
    {
        let base: usize = match self {
            Column::Name => 30,
            Column::Uri => 50,
            Column::CreatedAt => UTC_TIMESTAMP_WIDTH as usize,
            Column::TagImmutability => 18,
            Column::EncryptionType => 18,
        };
        column_width(tr, self.id(), self.default_name(), base)
    }

    /// The text of the column's cell for `item`.
    pub open spec fn cell(self, item: Repository) -> Seq<char> {
        match self {
            Column::Name => item.name@,
            Column::Uri => item.uri@,
            Column::CreatedAt => iso_label(item.created_at@),
            Column::TagImmutability => item.tag_immutability@,
            Column::EncryptionType => encryption_label(item.encryption_type@),
        }
    }

    /// The text of the column cell for `item`.
    pub fn render(&self, item: &Repository) -> (r: String)
        ensures
            r@ == self.cell(*item),
    {
        match self {
            Column::Name => item.name.clone(),
            Column::Uri => item.uri.clone(),
            Column::CreatedAt => format_iso_timestamp(item.created_at.as_str()),
            Column::TagImmutability => item.tag_immutability.clone(),
            Column::EncryptionType => format_encryption(item.encryption_type.as_str()),
        }
    }

}

} // verus!
