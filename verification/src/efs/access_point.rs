//! The columns of the access points table.
use vstd::prelude::*;
use vstd::string::*;
use crate::common::{
    column_width, label_width, lookup, translated_label, with_defaults, ColumnId, Translations,
};
pub use crate::cloud::efs::EfsAccessPoint as AccessPoint;
use crate::efs::{format_life_cycle_state, life_cycle_label, CellColor};
use crate::text::{owned, str_eq};

verus! {

/// The column keys and default labels that `init` lays down, in order.
pub open spec fn default_labels() -> (Seq<Seq<char>>, Seq<Seq<char>>) {
    (
        seq!["column.efs.ap.name"@, "column.efs.ap.access_point_id"@, "column.efs.ap.path"@, "column.efs.ap.posix_user"@, "column.efs.ap.creation_info"@, "column.efs.ap.state"@],
        seq!["Name"@, "Access point ID"@, "Path"@, "POSIX user"@, "Creation info"@, "State"@],
    )
}

/// Gives every column key its default label, unless it already has a translation.
pub fn init(tr: &mut Translations)
    ensures
        forall|k: Seq<char>| #[trigger] lookup(final(tr).entries@, k) == with_defaults(
            lookup(old(tr).entries@, k), default_labels().0, default_labels().1, k),
{
    let keys: Vec<ColumnId> = vec!["column.efs.ap.name", "column.efs.ap.access_point_id", "column.efs.ap.path", "column.efs.ap.posix_user", "column.efs.ap.creation_info", "column.efs.ap.state"];
    let labels: Vec<&'static str> = vec!["Name", "Access point ID", "Path", "POSIX user", "Creation info", "State"];
    assert(keys@.map_values(|s: &str| s@) =~= default_labels().0);
    assert(labels@.map_values(|s: &str| s@) =~= default_labels().1);
    tr.set_defaults(&keys, &labels);
}

/// A column of the access points table.
#[derive(Clone, Copy, Debug, PartialEq, Eq, Structural)]
pub enum Column {
    Name,
    AccessPointId,
    Path,
    PosixUser,
    CreationInfo,
    State,
}

impl Column {
    /// The translation key of the column.
    pub open spec fn key(self) -> Seq<char> {
        match self {
            Column::Name => "column.efs.ap.name"@,
            Column::AccessPointId => "column.efs.ap.access_point_id"@,
            Column::Path => "column.efs.ap.path"@,
            Column::PosixUser => "column.efs.ap.posix_user"@,
            Column::CreationInfo => "column.efs.ap.creation_info"@,
            Column::State => "column.efs.ap.state"@,
        }
    }

    /// The label of the column when no translation replaces it.
    pub open spec fn default_label(self) -> Seq<char> {
        match self {
            Column::Name => "Name"@,
            Column::AccessPointId => "Access point ID"@,
            Column::Path => "Path"@,
            Column::PosixUser => "POSIX user"@,
            Column::CreationInfo => "Creation info"@,
            Column::State => "State"@,
        }
    }

    /// The column whose key is `id`, if any.
    pub open spec fn with_key(id: Seq<char>) -> Option<Self> {
        if id == "column.efs.ap.name"@ {
            Some(Column::Name)
        } else if id == "column.efs.ap.access_point_id"@ {
            Some(Column::AccessPointId)
        } else if id == "column.efs.ap.path"@ {
            Some(Column::Path)
        } else if id == "column.efs.ap.posix_user"@ {
            Some(Column::PosixUser)
        } else if id == "column.efs.ap.creation_info"@ {
            Some(Column::CreationInfo)
        } else if id == "column.efs.ap.state"@ {
            Some(Column::State)
        } else {
            None
        }
    }

    /// Reading a column back from its key gives the column: no two columns
    /// share a key.
    pub proof fn lemma_key_roundtrip(c: Self)
        ensures
            Self::with_key(c.key()) == Some(c),
    {
        reveal_strlit("column.efs.ap.name");
        reveal_strlit("column.efs.ap.access_point_id");
        reveal_strlit("column.efs.ap.path");
        reveal_strlit("column.efs.ap.posix_user");
        reveal_strlit("column.efs.ap.creation_info");
        reveal_strlit("column.efs.ap.state");
        assert("column.efs.ap.name"@.len() == 18);
        assert("column.efs.ap.access_point_id"@.len() == 29);
        assert("column.efs.ap.path"@.len() == 18);
        assert("column.efs.ap.posix_user"@.len() == 24);
        assert("column.efs.ap.creation_info"@.len() == 27);
        assert("column.efs.ap.state"@.len() == 19);
        assert("column.efs.ap.path"@[14] != "column.efs.ap.name"@[14]);
    }

    /// Every column, in display order.
    pub open spec fn every() -> Seq<Self> {
        seq![Column::Name, Column::AccessPointId, Column::Path, Column::PosixUser, Column::CreationInfo, Column::State]
    }

    /// The translation key of the column.
    pub fn id(&self) -> (r: ColumnId)
        ensures
            r@ == self.key(),
    {
        match self {
            Column::Name => "column.efs.ap.name",
            Column::AccessPointId => "column.efs.ap.access_point_id",
            Column::Path => "column.efs.ap.path",
            Column::PosixUser => "column.efs.ap.posix_user",
            Column::CreationInfo => "column.efs.ap.creation_info",
            Column::State => "column.efs.ap.state",
        }
    }

    /// The label of the column when no translation replaces it.
    pub fn default_name(&self) -> (r: &'static str)
        ensures
            r@ == self.default_label(),
    {
        match self {
            Column::Name => "Name",
            Column::AccessPointId => "Access point ID",
            Column::Path => "Path",
            Column::PosixUser => "POSIX user",
            Column::CreationInfo => "Creation info",
            Column::State => "State",
        }
    }

    /// The label of the column: its translation, else its default label.
    pub fn name(&self, tr: &Translations) -> (r: String)
        ensures
            r@ == translated_label(tr.entries@, self.key(), self.default_label()),
    {
        tr.translate_column(self.id(), self.default_name())
    }

    /// The column whose key is `id`, if any.
    pub fn from_id(id: &str) -> (r: Option<Self>)
        ensures
            r == Self::with_key(id@),
    {
        if str_eq(id, "column.efs.ap.name") {
            Some(Column::Name)
        } else if str_eq(id, "column.efs.ap.access_point_id") {
            Some(Column::AccessPointId)
        } else if str_eq(id, "column.efs.ap.path") {
            Some(Column::Path)
        } else if str_eq(id, "column.efs.ap.posix_user") {
            Some(Column::PosixUser)
        } else if str_eq(id, "column.efs.ap.creation_info") {
            Some(Column::CreationInfo)
        } else if str_eq(id, "column.efs.ap.state") {
            Some(Column::State)
        } else {
            None
        }
    }

    /// Every column, in display order.
    pub fn all() -> (r: [Self; 6])
        ensures
            r@ == Self::every(),
    {
        let r = [Column::Name, Column::AccessPointId, Column::Path, Column::PosixUser, Column::CreationInfo, Column::State];
        assert(r@ =~= Self::every());
        r
    }

    /// The keys of every column, in display order.
    pub fn ids() -> (r: Vec<ColumnId>)
        ensures
            r@.len() == Self::every().len(),
            forall|i: int| 0 <= i < r@.len() ==> (#[trigger] r@[i])@ == Self::every()[i].key(),
    {
        let r: Vec<ColumnId> = vec!["column.efs.ap.name", "column.efs.ap.access_point_id", "column.efs.ap.path", "column.efs.ap.posix_user", "column.efs.ap.creation_info", "column.efs.ap.state"];
        assert forall|i: int| 0 <= i < r@.len() implies (#[trigger] r@[i])@ == Self::every()[i].key() by {
            assert(r@ =~= seq!["column.efs.ap.name", "column.efs.ap.access_point_id", "column.efs.ap.path", "column.efs.ap.posix_user", "column.efs.ap.creation_info", "column.efs.ap.state"]);
        }
        r
    }

    /// The least display width of the column.
    pub open spec fn base_width(self) -> usize {
        match self {
            Column::Name => 24,
            Column::AccessPointId => 22,
            Column::Path => 24,
            Column::PosixUser => 14,
            Column::CreationInfo => 22,
            Column::State => 14,
        }
    }

    /// The display width of the column: its label's byte length, at least its base width.
    pub fn width(&self, tr: &Translations) -> (r: u16)
        ensures
            r == label_width(translated_label(tr.entries@, self.key(), self.default_label()), self.base_width()),
    {
        let base: usize = match self {
            Column::Name => 24,
            Column::AccessPointId => 22,
            Column::Path => 24,
            Column::PosixUser => 14,
            Column::CreationInfo => 22,
            Column::State => 14,
        };
        column_width(tr, self.id(), self.default_name(), base)
    }

    /// The text of the column's cell for `item`, and the colour it is drawn in
    /// where the column gives it one.
    pub open spec fn cell(self, item: AccessPoint) -> (Seq<char>, Option<CellColor>) {
        match self {
            Column::Name => (item.name@, None),
            Column::AccessPointId => (item.access_point_id@, None),
            Column::Path => (item.path@, None),
            Column::PosixUser => (item.posix_user@, None),
            Column::CreationInfo => (item.creation_info@, None),
            Column::State => (life_cycle_label(item.life_cycle_state@).0, Some(life_cycle_label(item.life_cycle_state@).1)),
        }
    }

    /// The cell of the column for `item`, with its colour where it has one.
    pub fn render(&self, item: &AccessPoint) -> (r: (String, Option<CellColor>))
        ensures
            (r.0@, r.1) == self.cell(*item),
    {
        match self {
            Column::Name => (item.name.clone(), None),
            Column::AccessPointId => (item.access_point_id.clone(), None),
            Column::Path => (item.path.clone(), None),
            Column::PosixUser => (item.posix_user.clone(), None),
            Column::CreationInfo => (item.creation_info.clone(), None),
            Column::State => {
                let (text, color) = format_life_cycle_state(item.life_cycle_state.as_str());
                (owned(text), Some(color))
            },
        }
    }

}

impl Column {
    /// The keys of the columns shown before any is hidden: all of them.
    pub fn default_visible_ids() -> (r: Vec<ColumnId>)
        ensures
            r@.len() == Self::every().len(),
            forall|i: int| 0 <= i < r@.len() ==> (#[trigger] r@[i])@ == Self::every()[i].key(),
    {
        Self::ids()
    }
}

} // verus!
