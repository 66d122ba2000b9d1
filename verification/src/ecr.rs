//! ECR repositories and images view: rows, filters, state and console links.
use vstd::prelude::*;
use vstd::string::*;
use crate::common::InputFocus;
use crate::table::{kept_indices, TableState};
use crate::text::{filter_keeps, filter_matches};

pub mod actions;
pub mod image;
pub mod repo;

verus! {

/// A repository as the repositories table shows it.
#[derive(Clone, Debug)]
pub struct Repository {
    pub name: String,
    pub uri: String,
    pub created_at: String,
    pub tag_immutability: String,
    pub encryption_type: String,
}

/// An image as the images table shows it.
#[derive(Clone, Debug)]
pub struct Image {
    pub tag: String,
    pub artifact_type: String,
    pub pushed_at: String,
    pub size_bytes: i64,
    pub uri: String,
    pub digest: String,
    pub last_pull_time: String,
}

/// Private or public registry.
#[derive(Clone, Copy, Debug, PartialEq, Eq, Structural)]
pub enum Tab {
    Private,
    Public,
}

impl Tab {
    /// The other registry.
    pub open spec fn other(self) -> Tab {
        match self {
            Tab::Private => Tab::Public,
            Tab::Public => Tab::Private,
        }
    }

    /// The next registry tab, wrapping around.
    pub fn next(&self) -> (r: Tab)
        ensures
            r == self.other(),
    {
        match self {
            Tab::Private => Tab::Public,
            Tab::Public => Tab::Private,
        }
    }

    /// The previous registry tab, wrapping around.
    pub fn prev(&self) -> (r: Tab)
        ensures
            r == self.other(),
    {
        match self {
            Tab::Private => Tab::Public,
            Tab::Public => Tab::Private,
        }
    }
}

/// The controls of the filter bar, in focus order.
pub open spec fn filter_controls() -> Seq<InputFocus> {
    seq![InputFocus::Filter, InputFocus::Pagination]
}

/// The controls of the filter bar, in focus order.
pub fn filter_control_list() -> (r: Vec<InputFocus>)
    ensures
        r@ == filter_controls(),
{
    let r = vec![InputFocus::Filter, InputFocus::Pagination];
    assert(r@ =~= filter_controls());
    r
}

/// State of the ECR view.
pub struct State {
    pub repositories: TableState<Repository>,
    pub images: TableState<Image>,
    pub current_repository: Option<String>,
    pub current_repository_uri: Option<String>,
    pub input_focus: InputFocus,
    pub tab: Tab,
}

/// A repository passes the filter when the filter occurs in its name.
pub open spec fn repository_kept(r: Repository, filter: Seq<char>) -> bool {
    filter_keeps(filter, r.name@)
}

/// An image passes the filter when the filter occurs in its tag or digest.
pub open spec fn image_kept(i: Image, filter: Seq<char>) -> bool {
    filter_keeps(filter, i.tag@) || filter_keeps(filter, i.digest@)
}

/// Indices of the repositories that pass the filter.
pub open spec fn filtered_repository_rows(s: State) -> Seq<usize> {
    kept_indices(
        s.repositories.items@.len(),
        |k: int| repository_kept(s.repositories.items@[k], s.repositories.filter@),
    )
}

/// Indices of the images that pass the filter.
pub open spec fn filtered_image_rows(s: State) -> Seq<usize> {
    kept_indices(s.images.items@.len(), |k: int| image_kept(s.images.items@[k], s.images.filter@))
}

/// Indices of the repositories that pass the filter.
pub fn filtered_ecr_repositories(s: &State) -> (r: Vec<usize>)
    ensures
        r@ == filtered_repository_rows(*s),
{
    let n = s.repositories.items.len();
    let mut out: Vec<usize> = Vec::new();
    let mut i: usize = 0;
    while i < n
        invariant
            n == s.repositories.items@.len(),
            i <= n,
            out@ == kept_indices(
                i as nat,
                |k: int| repository_kept(s.repositories.items@[k], s.repositories.filter@),
            ),
        decreases n - i,
    {
        if filter_matches(s.repositories.filter.as_str(), s.repositories.items[i].name.as_str()) {
            out.push(i);
        }
        i = i + 1;
    }
    out
}

/// Indices of the images that pass the filter.
pub fn filtered_ecr_images(s: &State) -> (r: Vec<usize>)
    ensures
        r@ == filtered_image_rows(*s),
{
    let n = s.images.items.len();
    let mut out: Vec<usize> = Vec::new();
    let mut i: usize = 0;
    while i < n
        invariant
            n == s.images.items@.len(),
            i <= n,
            out@ == kept_indices(i as nat, |k: int| image_kept(s.images.items@[k], s.images.filter@)),
        decreases n - i,
    {
        let img = &s.images.items[i];
        if filter_matches(s.images.filter.as_str(), img.tag.as_str()) || filter_matches(
            s.images.filter.as_str(),
            img.digest.as_str(),
        ) {
            out.push(i);
        }
        i = i + 1;
    }
    out
}

/// The console address of the private repositories of `region`.
pub fn console_url_repositories(region: &str) -> (r: String)
    ensures
        r@ == "https://"@ + region@ + ".console.aws.amazon.com/ecr/private-registry/repositories?region="@
            + region@,
{
    let mut s = String::from_str("https://");
    s.append(region);
    s.append(".console.aws.amazon.com/ecr/private-registry/repositories?region=");
    s.append(region);
    s
}

/// The console address of a private repository.
pub fn console_url_private_repository(region: &str, account_id: &str, repo_name: &str) -> (r: String)
    ensures
        r@ == "https://"@ + region@ + ".console.aws.amazon.com/ecr/repositories/private/"@
            + account_id@ + "/"@ + repo_name@ + "?region="@ + region@,
{
    let mut s = String::from_str("https://");
    s.append(region);
    s.append(".console.aws.amazon.com/ecr/repositories/private/");
    s.append(account_id);
    s.append("/");
    s.append(repo_name);
    s.append("?region=");
    s.append(region);
    s
}

/// The console address of a public repository.
pub fn console_url_public_repository(region: &str, repo_name: &str) -> (r: String)
    ensures
        r@ == "https://"@ + region@ + ".console.aws.amazon.com/ecr/repositories/public/"@
            + repo_name@ + "?region="@ + region@,
{
    let mut s = String::from_str("https://");
    s.append(region);
    s.append(".console.aws.amazon.com/ecr/repositories/public/");
    s.append(repo_name);
    s.append("?region=");
    s.append(region);
    s
}

} // verus!
