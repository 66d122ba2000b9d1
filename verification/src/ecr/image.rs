//! The columns of the images table.
use vstd::prelude::*;
use vstd::string::*;
use crate::common::{
    column_width, first_value, label_width, lookup, translated_label, with_defaults, ColumnId, Translations,
    UTC_TIMESTAMP_WIDTH,
};
pub use crate::ecr::Image;
use crate::text::str_eq;
use crate::timestamp::{format_iso_timestamp, iso_label};

verus! {

/// The column keys and default labels that `init` lays down, in order.
pub open spec fn default_labels() -> (Seq<Seq<char>>, Seq<Seq<char>>) {
    (
        seq!["column.ecr.image.tag"@, "column.ecr.image.artifact_type"@, "column.ecr.image.pushed_at"@, "column.ecr.image.size_mb"@, "column.ecr.image.uri"@, "column.ecr.image.digest"@, "column.ecr.image.last_pull_time"@],
        seq!["Image tag"@, "Artifact type"@, "Pushed at"@, "Size (MB)"@, "Image URI"@, "Digest"@, "Last recorded pull time"@],
    )
}

/// Gives every column key its default label, unless it already has a translation.
pub fn init(tr: &mut Translations)
    ensures
        forall|k: Seq<char>| #[trigger] lookup(final(tr).entries@, k) == with_defaults(
            lookup(old(tr).entries@, k), default_labels().0, default_labels().1, k),
{
    let keys: Vec<ColumnId> = vec!["column.ecr.image.tag", "column.ecr.image.artifact_type", "column.ecr.image.pushed_at", "column.ecr.image.size_mb", "column.ecr.image.uri", "column.ecr.image.digest", "column.ecr.image.last_pull_time"];
    let labels: Vec<&'static str> = vec!["Image tag", "Artifact type", "Pushed at", "Size (MB)", "Image URI", "Digest", "Last recorded pull time"];
    assert(keys@.map_values(|s: &str| s@) =~= default_labels().0);
    assert(labels@.map_values(|s: &str| s@) =~= default_labels().1);
    tr.set_defaults(&keys, &labels);
}

/// A column of the images table.
#[derive(Clone, Copy, Debug, PartialEq, Eq, Structural)]
pub enum Column {
    Tag,
    ArtifactType,
    PushedAt,
    SizeMb,
    Uri,
    Digest,
    LastPullTime,
}

impl Column {
    /// The translation key of the column.
    pub open spec fn key(self) -> Seq<char> {
        match self {
            Column::Tag => "column.ecr.image.tag"@,
            Column::ArtifactType => "column.ecr.image.artifact_type"@,
            Column::PushedAt => "column.ecr.image.pushed_at"@,
            Column::SizeMb => "column.ecr.image.size_mb"@,
            Column::Uri => "column.ecr.image.uri"@,
            Column::Digest => "column.ecr.image.digest"@,
            Column::LastPullTime => "column.ecr.image.last_pull_time"@,
        }
    }

    /// The label of the column when no translation replaces it.
    pub open spec fn default_label(self) -> Seq<char> {
        match self {
            Column::Tag => "Image tag"@,
            Column::ArtifactType => "Artifact type"@,
            Column::PushedAt => "Pushed at"@,
            Column::SizeMb => "Size (MB)"@,
            Column::Uri => "Image URI"@,
            Column::Digest => "Digest"@,
            Column::LastPullTime => "Last recorded pull time"@,
        }
    }

    /// The column whose key is `id`, if any.
    pub open spec fn with_key(id: Seq<char>) -> Option<Self> {
        if id == "column.ecr.image.tag"@ {
            Some(Column::Tag)
        } else if id == "column.ecr.image.artifact_type"@ {
            Some(Column::ArtifactType)
        } else if id == "column.ecr.image.pushed_at"@ {
            Some(Column::PushedAt)
        } else if id == "column.ecr.image.size_mb"@ {
            Some(Column::SizeMb)
        } else if id == "column.ecr.image.uri"@ {
            Some(Column::Uri)
        } else if id == "column.ecr.image.digest"@ {
            Some(Column::Digest)
        } else if id == "column.ecr.image.last_pull_time"@ {
            Some(Column::LastPullTime)
        } else {
            None
        }
    }

    /// Reading a column back from its key gives the column: no two columns
    /// share a key.
    pub proof fn lemma_key_roundtrip(c: Self)
        ensures
            Self::with_key(c.key()) == Some(c),
    {
        reveal_strlit("column.ecr.image.tag");
        reveal_strlit("column.ecr.image.artifact_type");
        reveal_strlit("column.ecr.image.pushed_at");
        reveal_strlit("column.ecr.image.size_mb");
        reveal_strlit("column.ecr.image.uri");
        reveal_strlit("column.ecr.image.digest");
        reveal_strlit("column.ecr.image.last_pull_time");
        assert("column.ecr.image.tag"@.len() == 20);
        assert("column.ecr.image.artifact_type"@.len() == 30);
        assert("column.ecr.image.pushed_at"@.len() == 26);
        assert("column.ecr.image.size_mb"@.len() == 24);
        assert("column.ecr.image.uri"@.len() == 20);
        assert("column.ecr.image.digest"@.len() == 23);
        assert("column.ecr.image.last_pull_time"@.len() == 31);
        assert("column.ecr.image.uri"@[17] != "column.ecr.image.tag"@[17]);
    }

    /// Every column, in display order.
    pub open spec fn every() -> Seq<Self> {
        seq![Column::Tag, Column::ArtifactType, Column::PushedAt, Column::SizeMb, Column::Uri, Column::Digest, Column::LastPullTime]
    }

    /// The translation key of the column.
    pub fn id(&self) -> (r: ColumnId)
        ensures
            r@ == self.key(),
    {
        match self {
            Column::Tag => "column.ecr.image.tag",
            Column::ArtifactType => "column.ecr.image.artifact_type",
            Column::PushedAt => "column.ecr.image.pushed_at",
            Column::SizeMb => "column.ecr.image.size_mb",
            Column::Uri => "column.ecr.image.uri",
            Column::Digest => "column.ecr.image.digest",
            Column::LastPullTime => "column.ecr.image.last_pull_time",
        }
    }

    /// The label of the column when no translation replaces it.
    pub fn default_name(&self) -> (r: &'static str)
        ensures
            r@ == self.default_label(),
    {
        match self {
            Column::Tag => "Image tag",
            Column::ArtifactType => "Artifact type",
            Column::PushedAt => "Pushed at",
            Column::SizeMb => "Size (MB)",
            Column::Uri => "Image URI",
            Column::Digest => "Digest",
            Column::LastPullTime => "Last recorded pull time",
        }
    }

    /// The label of the column: its translation, else its default label.
    pub fn name(&self, tr: &Translations) -> (r: String)
        ensures
            r@ == translated_label(tr.entries@, self.key(), self.default_label()),
    {
        tr.translate_column(self.id(), self.default_name())
    }

    /// The column whose key is `id`, if any.
    pub fn from_id(id: &str) -> (r: Option<Self>)
        ensures
            r == Self::with_key(id@),
    {
        if str_eq(id, "column.ecr.image.tag") {
            Some(Column::Tag)
        } else if str_eq(id, "column.ecr.image.artifact_type") {
            Some(Column::ArtifactType)
        } else if str_eq(id, "column.ecr.image.pushed_at") {
            Some(Column::PushedAt)
        } else if str_eq(id, "column.ecr.image.size_mb") {
            Some(Column::SizeMb)
        } else if str_eq(id, "column.ecr.image.uri") {
            Some(Column::Uri)
        } else if str_eq(id, "column.ecr.image.digest") {
            Some(Column::Digest)
        } else if str_eq(id, "column.ecr.image.last_pull_time") {
            Some(Column::LastPullTime)
        } else {
            None
        }
    }

    /// Every column, in display order.
    pub fn all() -> (r: [Self; 7])
        ensures
            r@ == Self::every(),
    {
        let r = [Column::Tag, Column::ArtifactType, Column::PushedAt, Column::SizeMb, Column::Uri, Column::Digest, Column::LastPullTime];
        assert(r@ =~= Self::every());
        r
    }

    /// The keys of every column, in display order.
    pub fn ids() -> (r: Vec<ColumnId>)
        ensures
            r@.len() == Self::every().len(),
            forall|i: int| 0 <= i < r@.len() ==> (#[trigger] r@[i])@ == Self::every()[i].key(),
    {
        let r: Vec<ColumnId> = vec!["column.ecr.image.tag", "column.ecr.image.artifact_type", "column.ecr.image.pushed_at", "column.ecr.image.size_mb", "column.ecr.image.uri", "column.ecr.image.digest", "column.ecr.image.last_pull_time"];
        assert forall|i: int| 0 <= i < r@.len() implies (#[trigger] r@[i])@ == Self::every()[i].key() by {
            assert(r@ =~= seq!["column.ecr.image.tag", "column.ecr.image.artifact_type", "column.ecr.image.pushed_at", "column.ecr.image.size_mb", "column.ecr.image.uri", "column.ecr.image.digest", "column.ecr.image.last_pull_time"]);
        }
        r
    }

    /// The least display width of the column.
    pub open spec fn base_width(self) -> usize {
        match self {
            Column::Tag => 20,
            Column::ArtifactType => 20,
            Column::PushedAt => UTC_TIMESTAMP_WIDTH as usize,
            Column::SizeMb => 12,
            Column::Uri => 50,
            Column::Digest => 20,
            Column::LastPullTime => UTC_TIMESTAMP_WIDTH as usize,
        }
    }

    /// The display width of the column: its label's byte length, at least its base width.
    pub fn width(&self, tr: &Translations) -> (r: u16)
        ensures
            r == label_width(translated_label(tr.entries@, self.key(), self.default_label()), self.base_width()),
    {
        let base: usize = match self {
            Column::Tag => 20,
            Column::ArtifactType => 20,
            Column::PushedAt => UTC_TIMESTAMP_WIDTH as usize,
            Column::SizeMb => 12,
            Column::Uri => 50,
            Column::Digest => 20,
            Column::LastPullTime => UTC_TIMESTAMP_WIDTH as usize,
        };
        column_width(tr, self.id(), self.default_name(), base)
    }

    /// The text of the column's cell for `item`; none for the columns whose text the library does not compute.
    pub open spec fn cell(self, item: Image) -> Option<Seq<char>> {
        match self {
            Column::Tag => Some(item.tag@),
            Column::ArtifactType => Some(item.artifact_type@),
            Column::PushedAt => Some(iso_label(item.pushed_at@)),
            Column::SizeMb => None,
            Column::Uri => Some(item.uri@),
            Column::Digest => Some(item.digest@),
            Column::LastPullTime => Some(iso_label(item.last_pull_time@)),
        }
    }

    /// The text of the column cell for `item`; none for the size column, whose byte count is written out in decimal fractions by the caller.
    pub fn render(&self, item: &Image) -> (r: Option<String>)
        ensures
            match r {
                Some(t) => self.cell(*item) == Some(t@),
                None => self.cell(*item) is None,
            },
    {
        match self {
            Column::Tag => Some(item.tag.clone()),
            Column::ArtifactType => Some(item.artifact_type.clone()),
            Column::PushedAt => Some(format_iso_timestamp(item.pushed_at.as_str())),
            Column::SizeMb => None,
            Column::Uri => Some(item.uri.clone()),
            Column::Digest => Some(item.digest.clone()),
            Column::LastPullTime => Some(format_iso_timestamp(item.last_pull_time.as_str())),
        }
    }

}

} // verus!
