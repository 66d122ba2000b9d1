//! EFS file systems view: detail tabs, filters, state and console links.
use vstd::prelude::*;
use vstd::string::*;
use crate::cloud::efs::{EfsAccessPoint, EfsFileSystem, EfsMountTarget};
use crate::common::{lookup, with_defaults, ColumnId, InputFocus, Translations};
use crate::table::{kept_indices, TableState};
use crate::text::{filter_keeps, filter_matches, str_eq};

pub mod access_point;
pub mod actions;
pub mod fs;
pub mod mount_target;

use crate::common::{cyclic_next, cyclic_prev, lemma_cyclic_law, CyclicEnum};

verus! {

/// Gives the file system, access point and mount target columns their
/// default labels, unless they already have a translation.
pub fn init(tr: &mut Translations)
    ensures
        forall|k: Seq<char>| #[trigger] lookup(final(tr).entries@, k) == with_defaults(
            with_defaults(
                with_defaults(lookup(old(tr).entries@, k), fs::default_labels().0, fs::default_labels().1, k),
                access_point::default_labels().0, access_point::default_labels().1, k),
            mount_target::default_labels().0, mount_target::default_labels().1, k),
{
    fs::init(tr);
    access_point::init(tr);
    mount_target::init(tr);
}

/// The colour a cell of the file system views is drawn in.
#[derive(Clone, Copy, Debug, PartialEq, Eq, Structural)]
pub enum CellColor {
    Green,
    Yellow,
    Red,
    Cyan,
    White,
}

/// `s` is `lower`, its capitalised form `cap` or its upper-case form `upper`.
pub open spec fn one_of(s: Seq<char>, lower: Seq<char>, cap: Seq<char>, upper: Seq<char>) -> bool {
    s == lower || s == cap || s == upper
}

/// The label and colour of a life-cycle state, written in lower case,
/// capitalised or in upper case; `Unknown` in white for any other state.
pub open spec fn life_cycle_label(s: Seq<char>) -> (Seq<char>, CellColor) {
    if one_of(s, "available"@, "Available"@, "AVAILABLE"@) {
        ("✅ Available"@, CellColor::Green)
    } else if one_of(s, "creating"@, "Creating"@, "CREATING"@) {
        ("⏳ Creating"@, CellColor::Yellow)
    } else if one_of(s, "deleting"@, "Deleting"@, "DELETING"@) {
        ("🗑 Deleting"@, CellColor::Red)
    } else if one_of(s, "deleted"@, "Deleted"@, "DELETED"@) {
        ("🗑 Deleted"@, CellColor::Red)
    } else if one_of(s, "updating"@, "Updating"@, "UPDATING"@) {
        ("🔄 Updating"@, CellColor::Yellow)
    } else if one_of(s, "error"@, "Error"@, "ERROR"@) {
        ("⚠ Error"@, CellColor::Red)
    } else {
        ("Unknown"@, CellColor::White)
    }
}

/// The label and colour of a life-cycle state.
pub fn format_life_cycle_state(state: &str) -> (r: (&'static str, CellColor))
    ensures
        (r.0@, r.1) == life_cycle_label(state@),
{
    if str_eq(state, "available") || str_eq(state, "Available") || str_eq(state, "AVAILABLE") {
        ("✅ Available", CellColor::Green)
    } else if str_eq(state, "creating") || str_eq(state, "Creating") || str_eq(state, "CREATING") {
        ("⏳ Creating", CellColor::Yellow)
    } else if str_eq(state, "deleting") || str_eq(state, "Deleting") || str_eq(state, "DELETING") {
        ("🗑 Deleting", CellColor::Red)
    } else if str_eq(state, "deleted") || str_eq(state, "Deleted") || str_eq(state, "DELETED") {
        ("🗑 Deleted", CellColor::Red)
    } else if str_eq(state, "updating") || str_eq(state, "Updating") || str_eq(state, "UPDATING") {
        ("🔄 Updating", CellColor::Yellow)
    } else if str_eq(state, "error") || str_eq(state, "Error") || str_eq(state, "ERROR") {
        ("⚠ Error", CellColor::Red)
    } else {
        ("Unknown", CellColor::White)
    }
}

/// Tabs of the file-system detail view, in display order.
#[derive(Clone, Copy, Debug, PartialEq, Eq, Structural)]
pub enum DetailTab {
    MeteredSize,
    Monitoring,
    Tags,
    FileSystemPolicy,
    AccessPoints,
    Network,
    Replication,
}

impl DetailTab {
    /// The tab after this one, wrapping around.
    pub open spec fn following(self) -> DetailTab {
        match self {
            DetailTab::MeteredSize => DetailTab::Monitoring,
            DetailTab::Monitoring => DetailTab::Tags,
            DetailTab::Tags => DetailTab::FileSystemPolicy,
            DetailTab::FileSystemPolicy => DetailTab::AccessPoints,
            DetailTab::AccessPoints => DetailTab::Network,
            DetailTab::Network => DetailTab::Replication,
            DetailTab::Replication => DetailTab::MeteredSize,
        }
    }

    /// The tab before this one, wrapping around.
    pub open spec fn preceding(self) -> DetailTab {
        match self {
            DetailTab::MeteredSize => DetailTab::Replication,
            DetailTab::Monitoring => DetailTab::MeteredSize,
            DetailTab::Tags => DetailTab::Monitoring,
            DetailTab::FileSystemPolicy => DetailTab::Tags,
            DetailTab::AccessPoints => DetailTab::FileSystemPolicy,
            DetailTab::Network => DetailTab::AccessPoints,
            DetailTab::Replication => DetailTab::Network,
        }
    }

    /// The tab after this one, wrapping around.
    pub fn next(&self) -> (r: DetailTab)
        ensures
            r == self.following(),
    {
        match self {
            DetailTab::MeteredSize => DetailTab::Monitoring,
            DetailTab::Monitoring => DetailTab::Tags,
            DetailTab::Tags => DetailTab::FileSystemPolicy,
            DetailTab::FileSystemPolicy => DetailTab::AccessPoints,
            DetailTab::AccessPoints => DetailTab::Network,
            DetailTab::Network => DetailTab::Replication,
            DetailTab::Replication => DetailTab::MeteredSize,
        }
    }

    /// The tab before this one, wrapping around.
    pub fn prev(&self) -> (r: DetailTab)
        ensures
            r == self.preceding(),
    {
        match self {
            DetailTab::MeteredSize => DetailTab::Replication,
            DetailTab::Monitoring => DetailTab::MeteredSize,
            DetailTab::Tags => DetailTab::Monitoring,
            DetailTab::FileSystemPolicy => DetailTab::Tags,
            DetailTab::AccessPoints => DetailTab::FileSystemPolicy,
            DetailTab::Network => DetailTab::AccessPoints,
            DetailTab::Replication => DetailTab::Network,
        }
    }

    /// The `tabId` of the tab in console addresses.
    pub open spec fn console_id(self) -> Seq<char> {
        match self {
            DetailTab::MeteredSize => "meteredSize"@,
            DetailTab::Monitoring => "monitoring"@,
            DetailTab::Tags => "tags"@,
            DetailTab::FileSystemPolicy => "fileSystemPolicy"@,
            DetailTab::AccessPoints => "accessPoints"@,
            DetailTab::Network => "network"@,
            DetailTab::Replication => "replication"@,
        }
    }

    /// The `tabId` of the tab in console addresses.
    pub fn tab_id(&self) -> (r: &'static str)
        ensures
            r@ == self.console_id(),
    {
        match self {
            DetailTab::MeteredSize => "meteredSize",
            DetailTab::Monitoring => "monitoring",
            DetailTab::Tags => "tags",
            DetailTab::FileSystemPolicy => "fileSystemPolicy",
            DetailTab::AccessPoints => "accessPoints",
            DetailTab::Network => "network",
            DetailTab::Replication => "replication",
        }
    }

    /// Going forward one and back one (or back, then forward) returns to
    /// where it started.
    pub proof fn lemma_cycle(t: DetailTab)
        ensures
            t.following().preceding() == t,
            t.preceding().following() == t,
            <DetailTab as CyclicEnum>::all_values().no_duplicates(),
            t.following() == cyclic_next(<DetailTab as CyclicEnum>::all_values(), t),
            t.preceding() == cyclic_prev(<DetailTab as CyclicEnum>::all_values(), t),
    {
        let all = <DetailTab as CyclicEnum>::all_values();
        assert(all.no_duplicates()) by {
            assert forall|a: int, b: int| 0 <= a < all.len() && 0 <= b < all.len() && a != b implies all[a] != all[b] by {
            }
        }
        match t {
            DetailTab::MeteredSize => lemma_cyclic_law(all, 0),
            DetailTab::Monitoring => lemma_cyclic_law(all, 1),
            DetailTab::Tags => lemma_cyclic_law(all, 2),
            DetailTab::FileSystemPolicy => lemma_cyclic_law(all, 3),
            DetailTab::AccessPoints => lemma_cyclic_law(all, 4),
            DetailTab::Network => lemma_cyclic_law(all, 5),
            DetailTab::Replication => lemma_cyclic_law(all, 6),
        }
    }
}

/// The controls of the filter bar, in focus order.
pub open spec fn filter_controls() -> Seq<InputFocus> {
    seq![InputFocus::Filter, InputFocus::Pagination]
}

/// The controls of the filter bar, in focus order.
pub fn filter_control_list() -> (r: Vec<InputFocus>)
    ensures
        r@ == filter_controls(),
{
    let r = vec![InputFocus::Filter, InputFocus::Pagination];
    assert(r@ =~= filter_controls());
    r
}

/// State of the EFS view.
pub struct State {
    pub file_systems: TableState<EfsFileSystem>,
    pub access_points: TableState<EfsAccessPoint>,
    pub mount_targets: TableState<EfsMountTarget>,
    pub tags_table: TableState<(String, String)>,
    pub current_file_system: Option<String>,
    pub detail_tab: DetailTab,
    pub input_focus: InputFocus,
    pub ap_column_ids: Vec<ColumnId>,
    pub ap_visible_column_ids: Vec<ColumnId>,
    pub mt_column_ids: Vec<ColumnId>,
    pub mt_visible_column_ids: Vec<ColumnId>,
    pub policy_document: String,
    pub policy_loading: bool,
    pub policy_scroll: usize,
    pub ap_loading: bool,
    pub mt_loading: bool,
    pub replication_loading: bool,
    pub metrics_loading: bool,
    pub monitoring_scroll: usize,
    pub has_metrics: bool,
}

/// A file system passes the filter when the filter occurs in its name or id.
pub open spec fn file_system_kept(f: EfsFileSystem, filter: Seq<char>) -> bool {
    filter_keeps(filter, f.name@) || filter_keeps(filter, f.file_system_id@)
}

/// An access point passes the filter when the filter occurs in its name, id or path.
pub open spec fn access_point_kept(a: EfsAccessPoint, filter: Seq<char>) -> bool {
    filter_keeps(filter, a.name@) || filter_keeps(filter, a.access_point_id@) || filter_keeps(
        filter,
        a.path@,
    )
}

/// Indices of the file systems that pass the filter.
pub open spec fn filtered_file_system_rows(s: State) -> Seq<usize> {
    kept_indices(
        s.file_systems.items@.len(),
        |k: int| file_system_kept(s.file_systems.items@[k], s.file_systems.filter@),
    )
}

/// Indices of the access points that pass the filter.
pub open spec fn filtered_access_point_rows(s: State) -> Seq<usize> {
    kept_indices(
        s.access_points.items@.len(),
        |k: int| access_point_kept(s.access_points.items@[k], s.access_points.filter@),
    )
}

/// Indices of the file systems that pass the filter.
pub fn filtered_efs_file_systems(s: &State) -> (r: Vec<usize>)
    ensures
        r@ == filtered_file_system_rows(*s),
{
    let n = s.file_systems.items.len();
    let mut out: Vec<usize> = Vec::new();
    let mut i: usize = 0;
    while i < n
        invariant
            n == s.file_systems.items@.len(),
            i <= n,
            out@ == kept_indices(
                i as nat,
                |k: int| file_system_kept(s.file_systems.items@[k], s.file_systems.filter@),
            ),
        decreases n - i,
    {
        let f = &s.file_systems.items[i];
        if filter_matches(s.file_systems.filter.as_str(), f.name.as_str()) || filter_matches(
            s.file_systems.filter.as_str(),
            f.file_system_id.as_str(),
        ) {
            out.push(i);
        }
        i = i + 1;
    }
    out
}

/// Indices of the access points that pass the filter.
pub fn filtered_access_points(s: &State) -> (r: Vec<usize>)
    ensures
        r@ == filtered_access_point_rows(*s),
{
    let n = s.access_points.items.len();
    let mut out: Vec<usize> = Vec::new();
    let mut i: usize = 0;
    while i < n
        invariant
            n == s.access_points.items@.len(),
            i <= n,
            out@ == kept_indices(
                i as nat,
                |k: int| access_point_kept(s.access_points.items@[k], s.access_points.filter@),
            ),
        decreases n - i,
    {
        let a = &s.access_points.items[i];
        let f = s.access_points.filter.as_str();
        if filter_matches(f, a.name.as_str()) || filter_matches(f, a.access_point_id.as_str())
            || filter_matches(f, a.path.as_str()) {
            out.push(i);
        }
        i = i + 1;
    }
    out
}

/// Whether `i` is the first file system with id `id`.
pub open spec fn is_first_with_id(items: Seq<EfsFileSystem>, id: Seq<char>, i: int) -> bool {
    &&& 0 <= i < items.len()
    &&& items[i].file_system_id@ == id
    &&& forall|j: int| 0 <= j < i ==> (#[trigger] items[j]).file_system_id@ != id
}

/// The first file system with id `id`, if any.
pub open spec fn file_system_with_id(items: Seq<EfsFileSystem>, id: Seq<char>) -> Option<int> {
    if exists|i: int| is_first_with_id(items, id, i) {
        Some(choose|i: int| is_first_with_id(items, id, i))
    } else {
        None
    }
}

/// The position of the first file system with id `id`.
pub fn find_file_system(items: &Vec<EfsFileSystem>, id: &str) -> (r: Option<usize>)
    ensures
        match r {
            Some(i) => file_system_with_id(items@, id@) == Some(i as int) && i < items@.len(),
            None => file_system_with_id(items@, id@) is None,
        },
{
    let n = items.len();
    let mut i: usize = 0;
    while i < n
        invariant
            n == items@.len(),
            i <= n,
            forall|j: int| 0 <= j < i ==> (#[trigger] items@[j]).file_system_id@ != id@,
        decreases n - i,
    {
        if str_eq(items[i].file_system_id.as_str(), id) {
            assert(is_first_with_id(items@, id@, i as int));
            proof {
                let c = choose|k: int| is_first_with_id(items@, id@, k);
                if c < i {
                    assert(items@[c].file_system_id@ != id@);
                } else if c > i {
                    assert(items@[i as int].file_system_id@ != id@);
                }
            }
            return Some(i);
        }
        i = i + 1;
    }
    assert forall|k: int| !is_first_with_id(items@, id@, k) by {
        if 0 <= k < n {
            assert(items@[k].file_system_id@ != id@);
        }
    }
    None
}

/// The console address of the file systems of `region`.
pub open spec fn file_systems_address(region: Seq<char>) -> Seq<char> {
    "https://"@ + region + ".console.aws.amazon.com/efs/home?region="@ + region + "#/file-systems"@
}

/// The console address of one file system.
pub open spec fn file_system_address(region: Seq<char>, fs_id: Seq<char>) -> Seq<char> {
    file_systems_address(region) + "/"@ + fs_id
}

/// The console address of the file systems of `region`.
pub fn console_url_file_systems(region: &str) -> (r: String)
    ensures
        r@ == file_systems_address(region@),
{
    let mut s = String::from_str("https://");
    s.append(region);
    s.append(".console.aws.amazon.com/efs/home?region=");
    s.append(region);
    s.append("#/file-systems");
    s
}

/// The console address of one file system.
pub fn console_url_file_system(region: &str, fs_id: &str) -> (r: String)
    ensures
        r@ == file_system_address(region@, fs_id@),
{
    let mut s = console_url_file_systems(region);
    s.append("/");
    s.append(fs_id);
    s
}

/// The console address of one file system, opened on `tab`.
pub fn console_url_file_system_with_tab(region: &str, fs_id: &str, tab: DetailTab) -> (r: String)
    ensures
        r@ == file_system_address(region@, fs_id@) + "?tabId="@ + tab.console_id(),
{
    let mut s = console_url_file_system(region, fs_id);
    s.append("?tabId=");
    s.append(tab.tab_id());
    s
}


impl CyclicEnum for DetailTab {
    open spec fn all_values() -> Seq<DetailTab> {
        seq![DetailTab::MeteredSize, DetailTab::Monitoring, DetailTab::Tags, DetailTab::FileSystemPolicy, DetailTab::AccessPoints, DetailTab::Network, DetailTab::Replication]
    }

    fn all() -> (r: Vec<DetailTab>) {
        let r = vec![DetailTab::MeteredSize, DetailTab::Monitoring, DetailTab::Tags, DetailTab::FileSystemPolicy, DetailTab::AccessPoints, DetailTab::Network, DetailTab::Replication];
        assert(r@ =~= Self::all_values());
        r
    }

    fn next(&self) -> (r: DetailTab) {
        proof {
            DetailTab::lemma_cycle(*self);
        }
        DetailTab::next(self)
    }

    fn prev(&self) -> (r: DetailTab) {
        proof {
            DetailTab::lemma_cycle(*self);
        }
        DetailTab::prev(self)
    }

    proof fn lemma_values_listed() {
        let all = Self::all_values();
        DetailTab::lemma_cycle(DetailTab::MeteredSize);
        assert forall|x: DetailTab| all.contains(x) by {
            match x {
                DetailTab::MeteredSize => assert(all[0] == x),
                DetailTab::Monitoring => assert(all[1] == x),
                DetailTab::Tags => assert(all[2] == x),
                DetailTab::FileSystemPolicy => assert(all[3] == x),
                DetailTab::AccessPoints => assert(all[4] == x),
                DetailTab::Network => assert(all[5] == x),
                DetailTab::Replication => assert(all[6] == x),
            }
        }
    }
}

} // verus!
