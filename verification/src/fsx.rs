//! FSx file systems view: detail tabs, filter, state and console links.
use vstd::prelude::*;
use vstd::string::*;
use crate::cloud::fsx::{FsxBackup, FsxFileSystem, FsxUpdate};
use crate::common::{lookup, with_defaults, InputFocus, Translations};
use crate::table::{kept_indices, TableState};
use crate::text::{filter_keeps, filter_matches, str_eq};

pub mod actions;
pub mod fs;

use crate::common::{cyclic_next, cyclic_prev, lemma_cyclic_law, CyclicEnum};

verus! {

/// Gives the file system columns their default labels, unless they already
/// have a translation.
pub fn init(tr: &mut Translations)
    ensures
        forall|k: Seq<char>| #[trigger] lookup(final(tr).entries@, k) == with_defaults(
            lookup(old(tr).entries@, k), fs::default_labels().0, fs::default_labels().1, k),
{
    fs::init(tr);
}

/// Tabs of the file-system detail view, in display order.
#[derive(Clone, Copy, Debug, PartialEq, Eq, Structural)]
pub enum DetailTab {
    NetworkSecurity,
    Monitoring,
    Administration,
    Backups,
    Updates,
    Tags,
}

impl DetailTab {
    /// The tab after this one, wrapping around.
    pub open spec fn following(self) -> DetailTab {
        match self {
            DetailTab::NetworkSecurity => DetailTab::Monitoring,
            DetailTab::Monitoring => DetailTab::Administration,
            DetailTab::Administration => DetailTab::Backups,
            DetailTab::Backups => DetailTab::Updates,
            DetailTab::Updates => DetailTab::Tags,
            DetailTab::Tags => DetailTab::NetworkSecurity,
        }
    }

    /// The tab before this one, wrapping around.
    pub open spec fn preceding(self) -> DetailTab {
        match self {
            DetailTab::NetworkSecurity => DetailTab::Tags,
            DetailTab::Monitoring => DetailTab::NetworkSecurity,
            DetailTab::Administration => DetailTab::Monitoring,
            DetailTab::Backups => DetailTab::Administration,
            DetailTab::Updates => DetailTab::Backups,
            DetailTab::Tags => DetailTab::Updates,
        }
    }

    /// The tab after this one, wrapping around.
    pub fn next(&self) -> (r: DetailTab)
        ensures
            r == self.following(),
    {
        match self {
            DetailTab::NetworkSecurity => DetailTab::Monitoring,
            DetailTab::Monitoring => DetailTab::Administration,
            DetailTab::Administration => DetailTab::Backups,
            DetailTab::Backups => DetailTab::Updates,
            DetailTab::Updates => DetailTab::Tags,
            DetailTab::Tags => DetailTab::NetworkSecurity,
        }
    }

    /// The tab before this one, wrapping around.
    pub fn prev(&self) -> (r: DetailTab)
        ensures
            r == self.preceding(),
    {
        match self {
            DetailTab::NetworkSecurity => DetailTab::Tags,
            DetailTab::Monitoring => DetailTab::NetworkSecurity,
            DetailTab::Administration => DetailTab::Monitoring,
            DetailTab::Backups => DetailTab::Administration,
            DetailTab::Updates => DetailTab::Backups,
            DetailTab::Tags => DetailTab::Updates,
        }
    }

    /// Going forward one and back one (or back, then forward) returns to
    /// where it started.
    pub proof fn lemma_cycle(t: DetailTab)
        ensures
            t.following().preceding() == t,
            t.preceding().following() == t,
            <DetailTab as CyclicEnum>::all_values().no_duplicates(),
            t.following() == cyclic_next(<DetailTab as CyclicEnum>::all_values(), t),
            t.preceding() == cyclic_prev(<DetailTab as CyclicEnum>::all_values(), t),
    {
        let all = <DetailTab as CyclicEnum>::all_values();
        assert(all.no_duplicates()) by {
            assert forall|a: int, b: int| 0 <= a < all.len() && 0 <= b < all.len() && a != b implies all[a] != all[b] by {
            }
        }
        match t {
            DetailTab::NetworkSecurity => lemma_cyclic_law(all, 0),
            DetailTab::Monitoring => lemma_cyclic_law(all, 1),
            DetailTab::Administration => lemma_cyclic_law(all, 2),
            DetailTab::Backups => lemma_cyclic_law(all, 3),
            DetailTab::Updates => lemma_cyclic_law(all, 4),
            DetailTab::Tags => lemma_cyclic_law(all, 5),
        }
    }
}

/// The controls of the filter bar, in focus order.
pub open spec fn filter_controls() -> Seq<InputFocus> {
    seq![InputFocus::Filter, InputFocus::Pagination]
}

/// The controls of the filter bar, in focus order.
pub fn filter_control_list() -> (r: Vec<InputFocus>)
    ensures
        r@ == filter_controls(),
{
    let r = vec![InputFocus::Filter, InputFocus::Pagination];
    assert(r@ =~= filter_controls());
    r
}

/// State of the FSx view.
pub struct State {
    pub file_systems: TableState<FsxFileSystem>,
    pub tags_table: TableState<(String, String)>,
    pub updates_table: TableState<FsxUpdate>,
    pub backups: TableState<FsxBackup>,
    pub current_file_system: Option<String>,
    pub detail_tab: DetailTab,
    pub input_focus: InputFocus,
    pub backups_loading: bool,
}

/// A file system passes the filter when the filter occurs in its name or id.
pub open spec fn file_system_kept(f: FsxFileSystem, filter: Seq<char>) -> bool {
    filter_keeps(filter, f.name@) || filter_keeps(filter, f.file_system_id@)
}

/// Indices of the file systems that pass the filter.
pub open spec fn filtered_file_system_rows(s: State) -> Seq<usize> {
    kept_indices(
        s.file_systems.items@.len(),
        |k: int| file_system_kept(s.file_systems.items@[k], s.file_systems.filter@),
    )
}

/// Indices of the file systems that pass the filter.
pub fn filtered_fsx_file_systems(s: &State) -> (r: Vec<usize>)
    ensures
        r@ == filtered_file_system_rows(*s),
{
    let n = s.file_systems.items.len();
    let mut out: Vec<usize> = Vec::new();
    let mut i: usize = 0;
    while i < n
        invariant
            n == s.file_systems.items@.len(),
            i <= n,
            out@ == kept_indices(
                i as nat,
                |k: int| file_system_kept(s.file_systems.items@[k], s.file_systems.filter@),
            ),
        decreases n - i,
    {
        let f = &s.file_systems.items[i];
        if filter_matches(s.file_systems.filter.as_str(), f.name.as_str()) || filter_matches(
            s.file_systems.filter.as_str(),
            f.file_system_id.as_str(),
        ) {
            out.push(i);
        }
        i = i + 1;
    }
    out
}

/// Whether `i` is the first file system with id `id`.
pub open spec fn is_first_with_id(items: Seq<FsxFileSystem>, id: Seq<char>, i: int) -> bool {
    &&& 0 <= i < items.len()
    &&& items[i].file_system_id@ == id
    &&& forall|j: int| 0 <= j < i ==> (#[trigger] items[j]).file_system_id@ != id
}

/// The first file system with id `id`, if any.
pub open spec fn file_system_with_id(items: Seq<FsxFileSystem>, id: Seq<char>) -> Option<int> {
    if exists|i: int| is_first_with_id(items, id, i) {
        Some(choose|i: int| is_first_with_id(items, id, i))
    } else {
        None
    }
}

/// The position of the first file system with id `id`.
pub fn find_file_system(items: &Vec<FsxFileSystem>, id: &str) -> (r: Option<usize>)
    ensures
        match r {
            Some(i) => file_system_with_id(items@, id@) == Some(i as int) && i < items@.len(),
            None => file_system_with_id(items@, id@) is None,
        },
{
    let n = items.len();
    let mut i: usize = 0;
    while i < n
        invariant
            n == items@.len(),
            i <= n,
            forall|j: int| 0 <= j < i ==> (#[trigger] items@[j]).file_system_id@ != id@,
        decreases n - i,
    {
        if str_eq(items[i].file_system_id.as_str(), id) {
            assert(is_first_with_id(items@, id@, i as int));
            proof {
                let c = choose|k: int| is_first_with_id(items@, id@, k);
                if c < i {
                    assert(items@[c].file_system_id@ != id@);
                } else if c > i {
                    assert(items@[i as int].file_system_id@ != id@);
                }
            }
            return Some(i);
        }
        i = i + 1;
    }
    assert forall|k: int| !is_first_with_id(items@, id@, k) by {
        if 0 <= k < n {
            assert(items@[k].file_system_id@ != id@);
        }
    }
    None
}

/// The console address of the file systems of `region`.
pub open spec fn file_systems_address(region: Seq<char>) -> Seq<char> {
    "https://"@ + region + ".console.aws.amazon.com/fsx/home?region="@ + region + "#file-systems"@
}

/// The console address of one file system.
pub open spec fn file_system_address(region: Seq<char>, fs_id: Seq<char>) -> Seq<char> {
    "https://"@ + region + ".console.aws.amazon.com/fsx/home?region="@ + region
        + "#file-system-details/"@ + fs_id
}

/// The console address of the file systems of `region`.
pub fn console_url_file_systems(region: &str) -> (r: String)
    ensures
        r@ == file_systems_address(region@),
{
    let mut s = String::from_str("https://");
    s.append(region);
    s.append(".console.aws.amazon.com/fsx/home?region=");
    s.append(region);
    s.append("#file-systems");
    s
}

/// The console address of one file system.
pub fn console_url_file_system(region: &str, fs_id: &str) -> (r: String)
    ensures
        r@ == file_system_address(region@, fs_id@),
{
    let mut s = String::from_str("https://");
    s.append(region);
    s.append(".console.aws.amazon.com/fsx/home?region=");
    s.append(region);
    s.append("#file-system-details/");
    s.append(fs_id);
    s
}


impl CyclicEnum for DetailTab {
    open spec fn all_values() -> Seq<DetailTab> {
        seq![DetailTab::NetworkSecurity, DetailTab::Monitoring, DetailTab::Administration, DetailTab::Backups, DetailTab::Updates, DetailTab::Tags]
    }

    fn all() -> (r: Vec<DetailTab>) {
        let r = vec![DetailTab::NetworkSecurity, DetailTab::Monitoring, DetailTab::Administration, DetailTab::Backups, DetailTab::Updates, DetailTab::Tags];
        assert(r@ =~= Self::all_values());
        r
    }

    fn next(&self) -> (r: DetailTab) {
        proof {
            DetailTab::lemma_cycle(*self);
        }
        DetailTab::next(self)
    }

    fn prev(&self) -> (r: DetailTab) {
        proof {
            DetailTab::lemma_cycle(*self);
        }
        DetailTab::prev(self)
    }

    proof fn lemma_values_listed() {
        let all = Self::all_values();
        DetailTab::lemma_cycle(DetailTab::NetworkSecurity);
        assert forall|x: DetailTab| all.contains(x) by {
            match x {
                DetailTab::NetworkSecurity => assert(all[0] == x),
                DetailTab::Monitoring => assert(all[1] == x),
                DetailTab::Administration => assert(all[2] == x),
                DetailTab::Backups => assert(all[3] == x),
                DetailTab::Updates => assert(all[4] == x),
                DetailTab::Tags => assert(all[5] == x),
            }
        }
    }
}

} // verus!
