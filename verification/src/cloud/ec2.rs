//! EC2: the records the console shows and the client that reads them.
use vstd::prelude::*;
use crate::cloud::apig::{join_strings, joined, views};
use crate::cloud::config::AwsConfig;
use crate::text::str_eq;
use crate::timestamp::{format_launch_time, launch_time_text};

verus! {

/// A tag of an EC2 instance.
#[derive(Clone, Debug)]
pub struct InstanceTag {
    pub key: String,
    pub value: String,
}

/// Client of EC2 for one session.
pub struct Ec2Client {
    config: AwsConfig,
}

impl Ec2Client {
    /// A client for the session `config`.
    pub fn new(config: AwsConfig) -> (r: Self)
        ensures
            r.session() == config,
    {
        Ec2Client { config }
    }

    /// The session of the client.
    pub closed spec fn session(&self) -> AwsConfig {
        self.config
    }

    /// The session of the client.
    pub fn config(&self) -> (r: &AwsConfig)
        ensures
            *r == self.session(),
    {
        &self.config
    }
}


/// An EC2 instance as the instance list shows it.
#[derive(Clone, Debug)]
pub struct Instance {
    pub instance_id: String,
    pub name: String,
    pub state: String,
    pub instance_type: String,
    pub availability_zone: String,
    pub public_ipv4_dns: String,
    pub public_ipv4_address: String,
    pub elastic_ip: String,
    pub ipv6_ips: String,
    pub monitoring: String,
    pub security_groups: String,
    pub key_name: String,
    pub launch_time: String,
    pub platform_details: String,
    pub status_checks: String,
    pub alarm_status: String,
}

/// An instance as EC2 describes it: enumerations by name, tags as optional
/// keys and values, the IPv6 addresses of each network interface, the launch
/// time in seconds since the Unix epoch.
pub struct Ec2InstanceDescription {
    pub instance_id: Option<String>,
    pub tags: Vec<(Option<String>, Option<String>)>,
    pub state: Option<String>,
    pub instance_type: Option<String>,
    pub availability_zone: Option<String>,
    pub public_dns_name: Option<String>,
    pub public_ip_address: Option<String>,
    pub ipv6_addresses: Vec<Vec<Option<String>>>,
    pub monitoring: Option<String>,
    pub security_group_names: Vec<Option<String>>,
    pub key_name: Option<String>,
    pub launch_time_secs: Option<i64>,
    pub platform_details: Option<String>,
}

/// The text of an optional string: empty when absent.
pub open spec fn or_empty(o: Option<String>) -> Seq<char> {
    match o {
        Some(s) => s@,
        None => Seq::empty(),
    }
}

fn or_empty_of(o: &Option<String>) -> (r: String)
    ensures
        r@ == or_empty(*o),
{
    match o {
        Some(s) => s.clone(),
        None => String::new(),
    }
}

/// The value of the last tag keyed `Name` that has a value (tags gathered
/// into a map, where a later key wins), empty when there is none.
pub open spec fn name_of_tags(tags: Seq<(Option<String>, Option<String>)>) -> Seq<char>
    decreases tags.len(),
{
    if tags.len() == 0 {
        Seq::empty()
    } else {
        let t = tags.last();
        if t.0 is Some && t.0.unwrap()@ == "Name"@ && t.1 is Some {
            t.1.unwrap()@
        } else {
            name_of_tags(tags.drop_last())
        }
    }
}

fn name_of_tags_exec(tags: &Vec<(Option<String>, Option<String>)>) -> (r: String)
    ensures
        r@ == name_of_tags(tags@),
{
    let mut i: usize = tags.len();
    assert(tags@.take(i as int) =~= tags@);
    while i > 0
        invariant
            i <= tags@.len(),
            name_of_tags(tags@) == name_of_tags(tags@.take(i as int)),
        decreases i,
    {
        assert(tags@.take(i as int).drop_last() =~= tags@.take(i - 1));
        assert(tags@.take(i as int).last() == tags@[i - 1]);
        match (&tags[i - 1].0, &tags[i - 1].1) {
            (Some(k), Some(v)) => {
                if str_eq(k.as_str(), "Name") {
                    return v.clone();
                }
            },
            _ => {},
        }
        i = i - 1;
    }
    String::new()
}

/// The texts that are present, in order.
pub open spec fn present(v: Seq<Option<String>>) -> Seq<Seq<char>>
    decreases v.len(),
{
    if v.len() == 0 {
        Seq::empty()
    } else {
        match v.last() {
            Some(s) => present(v.drop_last()).push(s@),
            None => present(v.drop_last()),
        }
    }
}

/// The addresses that are present, network interface after network interface.
pub open spec fn present_addresses(ifs: Seq<Vec<Option<String>>>) -> Seq<Seq<char>>
    decreases ifs.len(),
{
    if ifs.len() == 0 {
        Seq::empty()
    } else {
        present_addresses(ifs.drop_last()) + present(ifs.last()@)
    }
}

fn push_present(out: &mut Vec<String>, v: &Vec<Option<String>>)
    ensures
        views(final(out)@) == views(old(out)@) + present(v@),
{
    let mut i: usize = 0;
    assert(v@.take(0) =~= Seq::<Option<String>>::empty());
    assert(views(out@) =~= views(old(out)@) + present(v@.take(0)));
    while i < v.len()
        invariant
            i <= v@.len(),
            views(out@) == views(old(out)@) + present(v@.take(i as int)),
        decreases v@.len() - i,
    {
        assert(v@.take(i + 1).drop_last() =~= v@.take(i as int));
        let ghost before = out@;
        match &v[i] {
            Some(s) => {
                out.push(s.clone());
                assert(views(out@) =~= views(before).push(s@));
            },
            None => {},
        }
        i = i + 1;
    }
    assert(v@.take(i as int) =~= v@);
}

/// `r` is the row of the instance EC2 describes as `d`: its name from its
/// `Name` tag, its security groups and IPv6 addresses joined by `, `, its
/// launch time written out; the elastic IP, status checks and alarm status
/// stay empty.
pub open spec fn is_instance_row_of(r: Instance, d: Ec2InstanceDescription) -> bool {
    &&& r.instance_id@ == or_empty(d.instance_id)
    &&& r.name@ == name_of_tags(d.tags@)
    &&& r.state@ == or_empty(d.state)
    &&& r.instance_type@ == or_empty(d.instance_type)
    &&& r.availability_zone@ == or_empty(d.availability_zone)
    &&& r.public_ipv4_dns@ == or_empty(d.public_dns_name)
    &&& r.public_ipv4_address@ == or_empty(d.public_ip_address)
    &&& r.elastic_ip@.len() == 0
    &&& r.ipv6_ips@ == joined(present_addresses(d.ipv6_addresses@), ", "@)
    &&& r.monitoring@ == or_empty(d.monitoring)
    &&& r.security_groups@ == joined(present(d.security_group_names@), ", "@)
    &&& r.key_name@ == or_empty(d.key_name)
    &&& r.launch_time@ == launch_time_text(d.launch_time_secs)
    &&& r.platform_details@ == or_empty(d.platform_details)
    &&& r.status_checks@.len() == 0
    &&& r.alarm_status@.len() == 0
}

/// Each of these columns comes from its own field of the description,
/// whatever the other fields hold: two descriptions that agree on the field
/// give rows that agree on the column.
pub proof fn lemma_instance_row_of_own_fields(r1: Instance, d1: Ec2InstanceDescription, r2: Instance, d2: Ec2InstanceDescription)
    requires
        is_instance_row_of(r1, d1),
        is_instance_row_of(r2, d2),
    ensures
        d1.instance_id == d2.instance_id ==> r1.instance_id@ == r2.instance_id@,
        d1.state == d2.state ==> r1.state@ == r2.state@,
        d1.instance_type == d2.instance_type ==> r1.instance_type@ == r2.instance_type@,
        d1.availability_zone == d2.availability_zone ==> r1.availability_zone@ == r2.availability_zone@,
        d1.public_dns_name == d2.public_dns_name ==> r1.public_ipv4_dns@ == r2.public_ipv4_dns@,
        d1.public_ip_address == d2.public_ip_address ==> r1.public_ipv4_address@ == r2.public_ipv4_address@,
        d1.monitoring == d2.monitoring ==> r1.monitoring@ == r2.monitoring@,
        d1.key_name == d2.key_name ==> r1.key_name@ == r2.key_name@,
        d1.launch_time_secs == d2.launch_time_secs ==> r1.launch_time@ == r2.launch_time@,
        d1.platform_details == d2.platform_details ==> r1.platform_details@ == r2.platform_details@,
{
}

/// The row of an instance, from EC2's description of it.
pub fn instance_from(d: &Ec2InstanceDescription) -> (r: Instance)
    ensures
        is_instance_row_of(r, *d),
{
    let mut groups: Vec<String> = Vec::new();
    assert(views(groups@) =~= Seq::<Seq<char>>::empty());
    push_present(&mut groups, &d.security_group_names);
    let mut addresses: Vec<String> = Vec::new();
    let mut i: usize = 0;
    assert(d.ipv6_addresses@.take(0) =~= Seq::<Vec<Option<String>>>::empty());
    assert(views(addresses@) =~= Seq::<Seq<char>>::empty());
    while i < d.ipv6_addresses.len()
        invariant
            i <= d.ipv6_addresses@.len(),
            views(addresses@) == present_addresses(d.ipv6_addresses@.take(i as int)),
        decreases d.ipv6_addresses@.len() - i,
    {
        assert(d.ipv6_addresses@.take(i + 1).drop_last() =~= d.ipv6_addresses@.take(i as int));
        push_present(&mut addresses, &d.ipv6_addresses[i]);
        i = i + 1;
    }
    assert(d.ipv6_addresses@.take(i as int) =~= d.ipv6_addresses@);
    Instance {
        instance_id: or_empty_of(&d.instance_id),
        name: name_of_tags_exec(&d.tags),
        state: or_empty_of(&d.state),
        instance_type: or_empty_of(&d.instance_type),
        availability_zone: or_empty_of(&d.availability_zone),
        public_ipv4_dns: or_empty_of(&d.public_dns_name),
        public_ipv4_address: or_empty_of(&d.public_ip_address),
        elastic_ip: String::new(),
        ipv6_ips: join_strings(&addresses, ", "),
        monitoring: or_empty_of(&d.monitoring),
        security_groups: join_strings(&groups, ", "),
        key_name: or_empty_of(&d.key_name),
        launch_time: format_launch_time(d.launch_time_secs),
        platform_details: or_empty_of(&d.platform_details),
        status_checks: String::new(),
        alarm_status: String::new(),
    }
}

/// The rows of the instances EC2 describes, in the order it gives them.
pub fn instances_from(descriptions: &Vec<Ec2InstanceDescription>) -> (r: Vec<Instance>)
    ensures
        r@.len() == descriptions@.len(),
        forall|i: int| 0 <= i < r@.len() ==> is_instance_row_of(#[trigger] r@[i], descriptions@[i]),
{
    let mut out: Vec<Instance> = Vec::new();
    let mut i: usize = 0;
    while i < descriptions.len()
        invariant
            i <= descriptions@.len(),
            out@.len() == i,
            forall|k: int| 0 <= k < i ==> is_instance_row_of(#[trigger] out@[k], descriptions@[k]),
        decreases descriptions@.len() - i,
    {
        out.push(instance_from(&descriptions[i]));
        i = i + 1;
    }
    out
}


/// The tags that have both a key and a value, in order.
pub open spec fn complete_tags(tags: Seq<(Option<String>, Option<String>)>) -> Seq<(Seq<char>, Seq<char>)>
    decreases tags.len(),
{
    if tags.len() == 0 {
        Seq::empty()
    } else {
        let rest = complete_tags(tags.drop_last());
        match tags.last() {
            (Some(k), Some(v)) => rest.push((k@, v@)),
            _ => rest,
        }
    }
}

/// The keys and values of a list of tags.
pub open spec fn tag_texts(v: Seq<InstanceTag>) -> Seq<(Seq<char>, Seq<char>)> {
    Seq::new(v.len(), |i: int| (v[i].key@, v[i].value@))
}

/// The tags of an instance, from EC2's description of them: those that have
/// both a key and a value, in order.
pub fn tags_from(tags: &Vec<(Option<String>, Option<String>)>) -> (r: Vec<InstanceTag>)
    ensures
        tag_texts(r@) == complete_tags(tags@),
{
    let mut out: Vec<InstanceTag> = Vec::new();
    let mut i: usize = 0;
    assert(tags@.take(0) =~= Seq::<(Option<String>, Option<String>)>::empty());
    assert(tag_texts(out@) =~= Seq::<(Seq<char>, Seq<char>)>::empty());
    while i < tags.len()
        invariant
            i <= tags@.len(),
            tag_texts(out@) == complete_tags(tags@.take(i as int)),
        decreases tags@.len() - i,
    {
        assert(tags@.take(i + 1).drop_last() =~= tags@.take(i as int));
        assert(tags@.take(i + 1).last() == tags@[i as int]);
        let ghost before = out@;
        match (&tags[i].0, &tags[i].1) {
            (Some(k), Some(v)) => {
                let t = InstanceTag { key: k.clone(), value: v.clone() };
                out.push(t);
                assert(tag_texts(out@) =~= tag_texts(before).push((k@, v@)));
            },
            _ => {},
        }
        i = i + 1;
    }
    assert(tags@.take(i as int) =~= tags@);
    out
}

} // verus!
