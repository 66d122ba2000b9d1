//! The AWS regions the console can switch to.
use vstd::prelude::*;

verus! {

/// An AWS region: its display name, code, the group it is listed under, whether
/// the account must opt in to it, and the latency measured to it, if any.
#[derive(Clone, Debug)]
pub struct Region {
    pub name: &'static str,
    pub code: &'static str,
    pub group: &'static str,
    pub opt_in: bool,
    pub latency_ms: Option<u64>,
}

/// The known regions as (name, code, group, opt-in), in the order the region
/// picker lists them.
pub open spec fn region_table() -> Seq<(Seq<char>, Seq<char>, Seq<char>, bool)> {
    seq![
        ("N. Virginia"@, "us-east-1"@, "United States"@, false),
        ("Ohio"@, "us-east-2"@, "United States"@, false),
        ("N. California"@, "us-west-1"@, "United States"@, false),
        ("Oregon"@, "us-west-2"@, "United States"@, false),
        ("Cape Town"@, "af-south-1"@, "Africa"@, true),
        ("Hong Kong"@, "ap-east-1"@, "Asia Pacific"@, true),
        ("Hyderabad"@, "ap-south-2"@, "Asia Pacific"@, true),
        ("Jakarta"@, "ap-southeast-3"@, "Asia Pacific"@, true),
        ("Malaysia"@, "ap-southeast-5"@, "Asia Pacific"@, true),
        ("Melbourne"@, "ap-southeast-4"@, "Asia Pacific"@, true),
        ("Mumbai"@, "ap-south-1"@, "Asia Pacific"@, false),
        ("New Zealand"@, "ap-southeast-6"@, "Asia Pacific"@, true),
        ("Osaka"@, "ap-northeast-3"@, "Asia Pacific"@, false),
        ("Seoul"@, "ap-northeast-2"@, "Asia Pacific"@, false),
        ("Singapore"@, "ap-southeast-1"@, "Asia Pacific"@, false),
        ("Sydney"@, "ap-southeast-2"@, "Asia Pacific"@, false),
        ("Taipei"@, "ap-east-2"@, "Asia Pacific"@, true),
        ("Thailand"@, "ap-southeast-7"@, "Asia Pacific"@, true),
        ("Tokyo"@, "ap-northeast-1"@, "Asia Pacific"@, false),
        ("Central"@, "ca-central-1"@, "Canada"@, false),
        ("Calgary"@, "ca-west-1"@, "Canada West"@, true),
        ("Frankfurt"@, "eu-central-1"@, "Europe"@, false),
        ("Ireland"@, "eu-west-1"@, "Europe"@, false),
        ("London"@, "eu-west-2"@, "Europe"@, false),
        ("Milan"@, "eu-south-1"@, "Europe"@, true),
        ("Paris"@, "eu-west-3"@, "Europe"@, false),
        ("Spain"@, "eu-south-2"@, "Europe"@, true),
        ("Stockholm"@, "eu-north-1"@, "Europe"@, false),
        ("Zurich"@, "eu-central-2"@, "Europe"@, true),
        ("Tel Aviv"@, "il-central-1"@, "Israel"@, true),
        ("Central"@, "mx-central-1"@, "Mexico"@, true),
        ("Bahrain"@, "me-south-1"@, "Middle East"@, true),
        ("UAE"@, "me-central-1"@, "Middle East"@, true),
        ("São Paulo"@, "sa-east-1"@, "South America"@, false),
    ]
}

impl Region {
    /// The name, code, group and opt-in flag of the region.
    pub open spec fn row(self) -> (Seq<char>, Seq<char>, Seq<char>, bool) {
        (self.name@, self.code@, self.group@, self.opt_in)
    }

    fn entry(name: &'static str, code: &'static str, group: &'static str, opt_in: bool) -> (r: Region)
        ensures
            r.row() == (name@, code@, group@, opt_in),
            r.latency_ms is None,
    {
        Region { name, code, group, opt_in, latency_ms: None }
    }

    /// Every known region, in picker order, with no latency measured yet.
    pub fn all() -> (r: Vec<Region>)
        ensures
            r@.len() == region_table().len(),
            forall|i: int| 0 <= i < r@.len() ==> (#[trigger] r@[i]).row() == region_table()[i]
                && r@[i].latency_ms is None,
    {
        let mut r: Vec<Region> = Vec::new();
    r.push(Region::entry("N. Virginia", "us-east-1", "United States", false));
    r.push(Region::entry("Ohio", "us-east-2", "United States", false));
    r.push(Region::entry("N. California", "us-west-1", "United States", false));
    r.push(Region::entry("Oregon", "us-west-2", "United States", false));
    r.push(Region::entry("Cape Town", "af-south-1", "Africa", true));
    r.push(Region::entry("Hong Kong", "ap-east-1", "Asia Pacific", true));
    r.push(Region::entry("Hyderabad", "ap-south-2", "Asia Pacific", true));
    r.push(Region::entry("Jakarta", "ap-southeast-3", "Asia Pacific", true));
    r.push(Region::entry("Malaysia", "ap-southeast-5", "Asia Pacific", true));
    r.push(Region::entry("Melbourne", "ap-southeast-4", "Asia Pacific", true));
    r.push(Region::entry("Mumbai", "ap-south-1", "Asia Pacific", false));
    r.push(Region::entry("New Zealand", "ap-southeast-6", "Asia Pacific", true));
    r.push(Region::entry("Osaka", "ap-northeast-3", "Asia Pacific", false));
    r.push(Region::entry("Seoul", "ap-northeast-2", "Asia Pacific", false));
    r.push(Region::entry("Singapore", "ap-southeast-1", "Asia Pacific", false));
    r.push(Region::entry("Sydney", "ap-southeast-2", "Asia Pacific", false));
    r.push(Region::entry("Taipei", "ap-east-2", "Asia Pacific", true));
    r.push(Region::entry("Thailand", "ap-southeast-7", "Asia Pacific", true));
    r.push(Region::entry("Tokyo", "ap-northeast-1", "Asia Pacific", false));
    r.push(Region::entry("Central", "ca-central-1", "Canada", false));
    r.push(Region::entry("Calgary", "ca-west-1", "Canada West", true));
    r.push(Region::entry("Frankfurt", "eu-central-1", "Europe", false));
    r.push(Region::entry("Ireland", "eu-west-1", "Europe", false));
    r.push(Region::entry("London", "eu-west-2", "Europe", false));
    r.push(Region::entry("Milan", "eu-south-1", "Europe", true));
    r.push(Region::entry("Paris", "eu-west-3", "Europe", false));
    r.push(Region::entry("Spain", "eu-south-2", "Europe", true));
    r.push(Region::entry("Stockholm", "eu-north-1", "Europe", false));
    r.push(Region::entry("Zurich", "eu-central-2", "Europe", true));
    r.push(Region::entry("Tel Aviv", "il-central-1", "Israel", true));
    r.push(Region::entry("Central", "mx-central-1", "Mexico", true));
    r.push(Region::entry("Bahrain", "me-south-1", "Middle East", true));
    r.push(Region::entry("UAE", "me-central-1", "Middle East", true));
    r.push(Region::entry("São Paulo", "sa-east-1", "South America", false));
        assert(r@.map_values(|x: Region| x.row()) =~= region_table());
        assert forall|i: int| 0 <= i < r@.len() implies (#[trigger] r@[i]).row() == region_table()[i]
            && r@[i].latency_ms is None by {
            assert(r@.map_values(|x: Region| x.row())[i] == r@[i].row());
        }
        r
    }
}

} // verus!
