//! Account, region and role the console works in.
use vstd::prelude::*;

verus! {

/// The AWS account, region and role of the session.
#[derive(Clone, Debug)]
pub struct AwsConfig {
    pub region: String,
    pub account_id: String,
    pub role_arn: String,
    pub region_auto_detected: bool,
}

impl AwsConfig {
    /// A configuration that names a region (or none) and no account or role.
    pub fn dummy(region: Option<String>) -> (r: Self)
        ensures
            r.region@ == (match region {
                Some(s) => s@,
                None => Seq::<char>::empty(),
            }),
            r.account_id@.len() == 0,
            r.role_arn@.len() == 0,
            !r.region_auto_detected,
    {
        let region = match region {
            Some(s) => s,
            None => String::new(),
        };
        AwsConfig {
            region,
            account_id: String::new(),
            role_arn: String::new(),
            region_auto_detected: false,
        }
    }
}


/// The regions whose latency is measured to pick the fastest.
pub fn probe_regions() -> (r: Vec<&'static str>)
    ensures
        r@ == seq![
            "us-east-1", "us-east-2", "us-west-1", "us-west-2", "af-south-1", "ap-east-1", "ap-south-1",
            "ap-south-2", "ap-northeast-1", "ap-northeast-2", "ap-northeast-3", "ap-southeast-1",
            "ap-southeast-2", "ap-southeast-3", "ap-southeast-4", "ca-central-1", "ca-west-1",
            "eu-central-1", "eu-central-2", "eu-west-1", "eu-west-2", "eu-west-3", "eu-north-1",
            "eu-south-1", "eu-south-2", "il-central-1", "me-central-1", "me-south-1", "sa-east-1",
        ],
{
    let r = vec![
        "us-east-1", "us-east-2", "us-west-1", "us-west-2", "af-south-1", "ap-east-1", "ap-south-1",
        "ap-south-2", "ap-northeast-1", "ap-northeast-2", "ap-northeast-3", "ap-southeast-1",
        "ap-southeast-2", "ap-southeast-3", "ap-southeast-4", "ca-central-1", "ca-west-1",
        "eu-central-1", "eu-central-2", "eu-west-1", "eu-west-2", "eu-west-3", "eu-north-1",
        "eu-south-1", "eu-south-2", "il-central-1", "me-central-1", "me-south-1", "sa-east-1",
    ];
    assert(r@ =~= seq![
        "us-east-1", "us-east-2", "us-west-1", "us-west-2", "af-south-1", "ap-east-1", "ap-south-1",
        "ap-south-2", "ap-northeast-1", "ap-northeast-2", "ap-northeast-3", "ap-southeast-1",
        "ap-southeast-2", "ap-southeast-3", "ap-southeast-4", "ca-central-1", "ca-west-1",
        "eu-central-1", "eu-central-2", "eu-west-1", "eu-west-2", "eu-west-3", "eu-north-1",
        "eu-south-1", "eu-south-2", "il-central-1", "me-central-1", "me-south-1", "sa-east-1",
    ]);
    r
}

/// The latency, in nanoseconds, that a probe of a region counts for: the time
/// it took when it answered in time, else 9999 seconds.
pub open spec fn latency_of(answered: bool, elapsed_nanos: u128) -> u128 {
    if answered { elapsed_nanos } else { 9_999_000_000_000u128 }
}

/// The latency that a probe counts for.
pub fn probe_latency(answered: bool, elapsed_nanos: u128) -> (r: u128)
    ensures
        r == latency_of(answered, elapsed_nanos),
{
    if answered { elapsed_nanos } else { 9_999_000_000_000u128 }
}

/// Whether `k` is the first of the lowest latencies of `probes`.
pub open spec fn first_lowest(probes: Seq<(String, u128)>, k: int) -> bool {
    &&& 0 <= k < probes.len()
    &&& forall|j: int| 0 <= j < probes.len() ==> probes[k].1 <= #[trigger] probes[j].1
    &&& forall|j: int| 0 <= j < k ==> probes[k].1 < #[trigger] probes[j].1
}

/// The fastest region of the measured `probes` (region and latency): the
/// first of those with the lowest latency, or `None` when nothing was
/// measured.
pub fn fastest_region(probes: &Vec<(String, u128)>) -> (r: Option<String>)
    ensures
        probes@.len() == 0 <==> r is None,
        r matches Some(name) ==> exists|k: int| first_lowest(probes@, k) && name@ == #[trigger] probes@[k].0@,
{
    if probes.len() == 0 {
        return None;
    }
    let mut best: usize = 0;
    let mut i: usize = 1;
    while i < probes.len()
        invariant
            0 < i <= probes@.len(),
            best < i,
            forall|j: int| 0 <= j < i ==> probes@[best as int].1 <= #[trigger] probes@[j].1,
            forall|j: int| 0 <= j < best ==> probes@[best as int].1 < #[trigger] probes@[j].1,
        decreases probes.len() - i,
    {
        if probes[i].1 < probes[best].1 {
            best = i;
        }
        i = i + 1;
    }
    let name = probes[best].0.clone();
    assert(first_lowest(probes@, best as int) && name@ == probes@[best as int].0@);
    Some(name)
}

} // verus!
