//! S3: the records the console shows and the client that reads them.
use vstd::prelude::*;
use vstd::string::*;
use crate::cloud::config::AwsConfig;
use crate::text::str_eq;

verus! {

/// Client of S3 for one session.
pub struct S3Client {
    config: AwsConfig,
}

impl S3Client {
    /// A client for the session `config`.
    pub fn new(config: AwsConfig) -> (r: Self)
        ensures
            r.session() == config,
    {
        S3Client { config }
    }

    /// The session of the client.
    pub closed spec fn session(&self) -> AwsConfig {
        self.config
    }

    /// The session of the client.
    pub fn config(&self) -> (r: &AwsConfig)
        ensures
            *r == self.session(),
    {
        &self.config
    }
}


/// The text of an optional string: empty when absent.
pub open spec fn or_empty(o: Option<String>) -> Seq<char> {
    match o {
        Some(s) => s@,
        None => Seq::empty(),
    }
}

fn or_empty_of(o: &Option<String>) -> (r: String)
    ensures
        r@ == or_empty(*o),
{
    match o {
        Some(s) => s.clone(),
        None => String::new(),
    }
}

/// The region of a bucket from its location constraint: the constraint
/// itself, `us-east-1` when there is none (or it could not be read), it is
/// empty or it reads `null`.
pub open spec fn bucket_region(constraint: Option<Seq<char>>) -> Seq<char> {
    match constraint {
        Some(c) => if c.len() == 0 || c == "null"@ { "us-east-1"@ } else { c },
        None => "us-east-1"@,
    }
}

/// The region of a bucket from its location constraint.
pub fn bucket_location_from(constraint: &Option<String>) -> (r: String)
    ensures
        r@ == bucket_region(match *constraint { Some(c) => Some(c@), None => None }),
{
    match constraint {
        Some(c) => {
            if c.as_str().unicode_len() == 0 || str_eq(c.as_str(), "null") {
                String::from_str("us-east-1")
            } else {
                c.clone()
            }
        },
        None => String::from_str("us-east-1"),
    }
}

/// The names that are present, each with an empty region and the creation
/// date given for it (empty when absent).
pub open spec fn named_buckets(bs: Seq<(Option<String>, Option<String>)>) -> Seq<(Seq<char>, Seq<char>, Seq<char>)>
    decreases bs.len(),
{
    if bs.len() == 0 {
        Seq::empty()
    } else {
        let rest = named_buckets(bs.drop_last());
        match bs.last().0 {
            Some(n) => rest.push((n@, Seq::empty(), or_empty(bs.last().1))),
            None => rest,
        }
    }
}

/// The texts of a list of buckets.
pub open spec fn bucket_texts(v: Seq<(String, String, String)>) -> Seq<(Seq<char>, Seq<char>, Seq<char>)> {
    Seq::new(v.len(), |i: int| (v[i].0@, v[i].1@, v[i].2@))
}

/// The buckets S3 lists (name and creation date, written out), as name,
/// region (left empty) and date; buckets without a name are left out.
pub fn buckets_from(buckets: &Vec<(Option<String>, Option<String>)>) -> (r: Vec<(String, String, String)>)
    ensures
        bucket_texts(r@) == named_buckets(buckets@),
{
    let mut out: Vec<(String, String, String)> = Vec::new();
    let mut i: usize = 0;
    assert(buckets@.take(0) =~= Seq::<(Option<String>, Option<String>)>::empty());
    assert(bucket_texts(out@) =~= Seq::<(Seq<char>, Seq<char>, Seq<char>)>::empty());
    while i < buckets.len()
        invariant
            i <= buckets@.len(),
            bucket_texts(out@) == named_buckets(buckets@.take(i as int)),
        decreases buckets@.len() - i,
    {
        assert(buckets@.take(i + 1).drop_last() =~= buckets@.take(i as int));
        assert(buckets@.take(i + 1).last() == buckets@[i as int]);
        let ghost before = out@;
        match &buckets[i].0 {
            Some(n) => {
                let item = (n.clone(), String::new(), or_empty_of(&buckets[i].1));
                out.push(item);
                assert(bucket_texts(out@) =~= bucket_texts(before).push((n@, Seq::empty(), or_empty(buckets@[i as int].1))));
            },
            None => {},
        }
        i = i + 1;
    }
    assert(buckets@.take(i as int) =~= buckets@);
    out
}

/// An object as S3 lists it: its modification time written out and its
/// storage class by name.
pub struct ObjectDescription {
    pub key: Option<String>,
    pub size: Option<i64>,
    pub last_modified: Option<String>,
    pub storage_class: Option<String>,
}

/// An entry of a listing as plain values: key, size, modification time,
/// whether it is a folder, storage class.
pub type ObjectTexts = (Seq<char>, i64, Seq<char>, bool, Seq<char>);

/// The folders (common prefixes that are present) as entries.
pub open spec fn folder_entries(prefixes: Seq<Option<String>>) -> Seq<ObjectTexts>
    decreases prefixes.len(),
{
    if prefixes.len() == 0 {
        Seq::empty()
    } else {
        let rest = folder_entries(prefixes.drop_last());
        match prefixes.last() {
            Some(p) => rest.push((p@, 0i64, Seq::empty(), true, Seq::empty())),
            None => rest,
        }
    }
}

/// The objects that have a key as entries: size 0 when not given, storage
/// class `STANDARD` when not given.
pub open spec fn object_entries(objects: Seq<ObjectDescription>) -> Seq<ObjectTexts>
    decreases objects.len(),
{
    if objects.len() == 0 {
        Seq::empty()
    } else {
        let rest = object_entries(objects.drop_last());
        let o = objects.last();
        match o.key {
            Some(k) => rest.push((
                k@,
                match o.size { Some(n) => n, None => 0 },
                or_empty(o.last_modified),
                false,
                match o.storage_class { Some(c) => c@, None => "STANDARD"@ },
            )),
            None => rest,
        }
    }
}

/// The texts of a listing.
pub open spec fn entry_texts(v: Seq<(String, i64, String, bool, String)>) -> Seq<ObjectTexts> {
    Seq::new(v.len(), |i: int| (v[i].0@, v[i].1, v[i].2@, v[i].3, v[i].4@))
}

/// A listing of a bucket under a prefix: its folders first, then its objects.
pub fn objects_from(
    prefixes: &Vec<Option<String>>,
    objects: &Vec<ObjectDescription>,
) -> (r: Vec<(String, i64, String, bool, String)>)
    ensures
        entry_texts(r@) == folder_entries(prefixes@) + object_entries(objects@),
{
    let mut out: Vec<(String, i64, String, bool, String)> = Vec::new();
    let mut i: usize = 0;
    assert(prefixes@.take(0) =~= Seq::<Option<String>>::empty());
    assert(entry_texts(out@) =~= Seq::<ObjectTexts>::empty());
    while i < prefixes.len()
        invariant
            i <= prefixes@.len(),
            entry_texts(out@) == folder_entries(prefixes@.take(i as int)),
        decreases prefixes@.len() - i,
    {
        assert(prefixes@.take(i + 1).drop_last() =~= prefixes@.take(i as int));
        assert(prefixes@.take(i + 1).last() == prefixes@[i as int]);
        let ghost before = out@;
        match &prefixes[i] {
            Some(p) => {
                out.push((p.clone(), 0, String::new(), true, String::new()));
                assert(entry_texts(out@) =~= entry_texts(before).push((p@, 0i64, Seq::empty(), true, Seq::empty())));
            },
            None => {},
        }
        i = i + 1;
    }
    assert(prefixes@.take(i as int) =~= prefixes@);
    let ghost folders = entry_texts(out@);
    let mut j: usize = 0;
    assert(objects@.take(0) =~= Seq::<ObjectDescription>::empty());
    assert(folders + object_entries(objects@.take(0)) =~= folders);
    while j < objects.len()
        invariant
            j <= objects@.len(),
            entry_texts(out@) == folders + object_entries(objects@.take(j as int)),
        decreases objects@.len() - j,
    {
        assert(objects@.take(j + 1).drop_last() =~= objects@.take(j as int));
        assert(objects@.take(j + 1).last() == objects@[j as int]);
        let o = &objects[j];
        let ghost before = out@;
        match &o.key {
            Some(k) => {
                let class = match &o.storage_class {
                    Some(c) => c.clone(),
                    None => String::from_str("STANDARD"),
                };
                proof {
                    reveal_strlit("STANDARD");
                }
                let size = match o.size {
                    Some(n) => n,
                    None => 0,
                };
                let entry = (k.clone(), size, or_empty_of(&o.last_modified), false, class);
                out.push(entry);
                assert(entry_texts(out@) =~= entry_texts(before).push((entry.0@, entry.1, entry.2@, entry.3, entry.4@)));
            },
            None => {},
        }
        j = j + 1;
    }
    assert(objects@.take(j as int) =~= objects@);
    out
}

} // verus!
