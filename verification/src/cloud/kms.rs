//! KMS: the records the console shows and the client that reads them.
use vstd::prelude::*;
use vstd::string::*;
use crate::cloud::config::AwsConfig;
use crate::cloud::fsx::{owned_or_empty, text_of};
use crate::sort::{lemma_seq_lt_asymmetric, lemma_seq_lt_transitive, seq_lt, str_lt};
use crate::text::{owned, starts_with_seq, str_eq, str_starts_with};

verus! {

/// A KMS key.
#[derive(Clone, Debug)]
pub struct KmsKey {
    pub key_id: String,
    pub key_arn: String,
    pub description: String,
    pub key_state: String,
    pub key_usage: String,
    pub key_spec: String,
    pub key_manager: String,
    pub creation_date: String,
    pub expiration_date: String,
    pub deletion_date: String,
    pub custom_key_store_id: String,
    pub origin: String,
    pub enabled: bool,
    pub alias: String,
    pub multi_region: bool,
}

/// Client of KMS for one session.
pub struct KmsClient {
    config: AwsConfig,
}

impl KmsClient {
    /// A client for the session `config`.
    pub fn new(config: AwsConfig) -> (r: Self)
        ensures
            r.session() == config,
    {
        KmsClient { config }
    }

    /// The session of the client.
    pub closed spec fn session(&self) -> AwsConfig {
        self.config
    }

    /// The session of the client.
    pub fn config(&self) -> (r: &AwsConfig)
        ensures
            *r == self.session(),
    {
        &self.config
    }
}

/// A key's metadata as KMS describes it; enumerations by name, dates written
/// out as dates and times.
pub struct KmsKeyDescription {
    pub key_id: String,
    pub arn: Option<String>,
    pub description: Option<String>,
    pub enabled: bool,
    pub key_state: Option<String>,
    pub key_usage: Option<String>,
    pub key_spec: Option<String>,
    pub key_manager: Option<String>,
    pub creation_date: Option<String>,
    pub valid_to: Option<String>,
    pub deletion_date: Option<String>,
    pub custom_key_store_id: Option<String>,
    pub origin: Option<String>,
    pub multi_region: Option<bool>,
}

/// An alias as KMS lists it: its name (`alias/...`) and the key it points
/// at, when KMS gives them.
pub struct KmsAliasDescription {
    pub alias_name: Option<String>,
    pub target_key_id: Option<String>,
}

/// The name an alias is shown by: its name without the `alias/` prefix.
pub open spec fn alias_display(name: Seq<char>) -> Seq<char> {
    if starts_with_seq(name, "alias/"@) { name.subrange(6, name.len() as int) } else { name }
}

/// The aliases of key `key_id` among `aliases`, shown by name and separated
/// by `, `, in the order KMS lists them; empty when it has none.
pub open spec fn aliases_of(aliases: Seq<KmsAliasDescription>, key_id: Seq<char>) -> Seq<char>
    decreases aliases.len(),
{
    if aliases.len() == 0 {
        Seq::empty()
    } else {
        let before = aliases_of(aliases.drop_last(), key_id);
        let a = aliases.last();
        if a.alias_name is Some && a.target_key_id is Some && a.target_key_id.unwrap()@ == key_id {
            let d = alias_display(a.alias_name.unwrap()@);
            if before.len() == 0 { d } else { before + ", "@ + d }
        } else {
            before
        }
    }
}

fn display_alias(name: &str) -> (r: String)
    ensures
        r@ == alias_display(name@),
{
    proof {
        reveal_strlit("alias/");
    }
    if str_starts_with(name, "alias/") {
        owned(name.substring_char(6, name.unicode_len()))
    } else {
        owned(name)
    }
}

/// The aliases of key `key_id`, shown by name and separated by `, `.
pub fn alias_for(aliases: &Vec<KmsAliasDescription>, key_id: &str) -> (r: String)
    ensures
        r@ == aliases_of(aliases@, key_id@),
{
    let mut out = String::new();
    let mut i: usize = 0;
    assert(aliases@.take(0) =~= Seq::<KmsAliasDescription>::empty());
    while i < aliases.len()
        invariant
            i <= aliases@.len(),
            out@ == aliases_of(aliases@.take(i as int), key_id@),
        decreases aliases@.len() - i,
    {
        assert(aliases@.take(i + 1).drop_last() =~= aliases@.take(i as int));
        let a = &aliases[i];
        match (&a.alias_name, &a.target_key_id) {
            (Some(name), Some(target)) => {
                if str_eq(target.as_str(), key_id) {
                    let d = display_alias(name.as_str());
                    if out.unicode_len() > 0 {
                        out.append(", ");
                    }
                    out.append(d.as_str());
                }
            },
            _ => {},
        }
        i = i + 1;
    }
    assert(aliases@.take(aliases@.len() as int) =~= aliases@);
    out
}

/// `k` is the key KMS describes as `d`, shown under the aliases `alias`.
pub open spec fn is_key_of(k: KmsKey, d: KmsKeyDescription, alias: Seq<char>) -> bool {
    &&& k.key_id@ == d.key_id@
    &&& k.key_arn@ == text_of(d.arn)
    &&& k.description@ == text_of(d.description)
    &&& k.enabled == d.enabled
    &&& k.alias@ == alias
    &&& k.key_state@ == text_of(d.key_state)
    &&& k.key_usage@ == text_of(d.key_usage)
    &&& k.key_spec@ == text_of(d.key_spec)
    &&& k.key_manager@ == text_of(d.key_manager)
    &&& k.creation_date@ == text_of(d.creation_date)
    &&& k.expiration_date@ == text_of(d.valid_to)
    &&& k.deletion_date@ == text_of(d.deletion_date)
    &&& k.custom_key_store_id@ == text_of(d.custom_key_store_id)
    &&& k.origin@ == text_of(d.origin)
    &&& k.multi_region == (d.multi_region == Some(true))
}

/// The key KMS describes as `d`, with the aliases that point at it.
pub fn key_from(d: &KmsKeyDescription, aliases: &Vec<KmsAliasDescription>) -> (r: KmsKey)
    ensures
        is_key_of(r, *d, aliases_of(aliases@, d.key_id@)),
{
    KmsKey {
        key_id: d.key_id.clone(),
        key_arn: owned_or_empty(&d.arn),
        description: owned_or_empty(&d.description),
        key_state: owned_or_empty(&d.key_state),
        key_usage: owned_or_empty(&d.key_usage),
        key_spec: owned_or_empty(&d.key_spec),
        key_manager: owned_or_empty(&d.key_manager),
        creation_date: owned_or_empty(&d.creation_date),
        expiration_date: owned_or_empty(&d.valid_to),
        deletion_date: owned_or_empty(&d.deletion_date),
        custom_key_store_id: owned_or_empty(&d.custom_key_store_id),
        origin: owned_or_empty(&d.origin),
        enabled: d.enabled,
        alias: alias_for(aliases, d.key_id.as_str()),
        multi_region: match d.multi_region {
            Some(true) => true,
            _ => false,
        },
    }
}

/// Key `a` is listed before key `b`: by alias, then by key id.
pub open spec fn key_before(a: KmsKey, b: KmsKey) -> bool {
    seq_lt(a.alias@, b.alias@) || (a.alias@ == b.alias@ && seq_lt(a.key_id@, b.key_id@))
}

fn key_lt(a: &KmsKey, b: &KmsKey) -> (r: bool)
    ensures
        r == key_before(*a, *b),
{
    if str_lt(a.alias.as_str(), b.alias.as_str()) {
        true
    } else if str_eq(a.alias.as_str(), b.alias.as_str()) {
        str_lt(a.key_id.as_str(), b.key_id.as_str())
    } else {
        false
    }
}

proof fn lemma_key_before_transitive(a: KmsKey, b: KmsKey, c: KmsKey)
    requires
        key_before(a, b),
        key_before(b, c),
    ensures
        key_before(a, c),
{
    if seq_lt(a.alias@, b.alias@) && seq_lt(b.alias@, c.alias@) {
        lemma_seq_lt_transitive(a.alias@, b.alias@, c.alias@);
    } else if a.alias@ == b.alias@ && b.alias@ == c.alias@ {
        lemma_seq_lt_transitive(a.key_id@, b.key_id@, c.key_id@);
    }
}

proof fn lemma_key_before_asymmetric(a: KmsKey, b: KmsKey)
    ensures
        !(key_before(a, b) && key_before(b, a)),
{
    lemma_seq_lt_asymmetric(a.alias@, b.alias@);
    lemma_seq_lt_asymmetric(a.key_id@, b.key_id@);
    if seq_lt(a.alias@, b.alias@) {
        assert(a.alias@ != b.alias@) by {
            if a.alias@ == b.alias@ {
                lemma_seq_lt_asymmetric(a.alias@, a.alias@);
            }
        }
    }
}

/// Keys in the order the list shows them: by alias, then by key id.
pub open spec fn keys_in_order(s: Seq<KmsKey>) -> bool {
    forall|i: int, j: int| 0 <= i < j < s.len() ==> !key_before(#[trigger] s[j], #[trigger] s[i])
}

/// The keys in the order the list shows them. Keys are moved, never changed.
pub fn sort_keys(v: Vec<KmsKey>) -> (r: Vec<KmsKey>)
    ensures
        r@.to_multiset() == v@.to_multiset(),
        keys_in_order(r@),
{
    broadcast use vstd::seq_lib::group_to_multiset_ensures;
    let mut src = v;
    let ghost orig = src@;
    let n = src.len();
    let mut out: Vec<KmsKey> = Vec::new();
    let mut i: usize = 0;
    assert(orig.take(0) =~= Seq::<KmsKey>::empty());
    while i < n
        invariant
            n == orig.len(),
            src@ == orig.skip(i as int),
            i <= n,
            out@.to_multiset() == orig.take(i as int).to_multiset(),
            keys_in_order(out@),
        decreases n - i,
    {
        let x = src.remove(0);
        assert(x == orig[i as int]);
        assert(src@ =~= orig.skip(i + 1));
        let m = out.len();
        let mut p: usize = 0;
        while p < m && !key_lt(&x, &out[p])
            invariant
                m == out@.len(),
                p <= m,
                forall|k: int| 0 <= k < p ==> !key_before(x, #[trigger] out@[k]),
            decreases m - p,
        {
            p = p + 1;
        }
        let ghost before = out@;
        proof {
            if p < m {
                assert forall|k: int| p < k < m implies !key_before(#[trigger] before[k], x) by {
                    if key_before(before[k], x) {
                        lemma_key_before_transitive(before[k], x, before[p as int]);
                    }
                }
                lemma_key_before_asymmetric(before[p as int], x);
            }
        }
        let ghost xv = x;
        out.insert(p, x);
        assert(out@ == before.insert(p as int, xv));
        assert(orig.take(i + 1) =~= orig.take(i as int).push(orig[i as int]));
        proof {
            vstd::seq_lib::to_multiset_insert(before, p as int, xv);
            vstd::seq_lib::to_multiset_build(orig.take(i as int), orig[i as int]);
            assert forall|a: int, b: int| 0 <= a < b < out@.len() implies !key_before(
                #[trigger] out@[b],
                #[trigger] out@[a],
            ) by {
                if a < p && b < p {
                    assert(out@[a] == before[a] && out@[b] == before[b]);
                } else if a < p && b == p {
                    assert(out@[a] == before[a]);
                } else if a < p && b > p {
                    assert(out@[a] == before[a] && out@[b] == before[b - 1]);
                } else if a == p {
                    assert(out@[b] == before[b - 1]);
                } else {
                    assert(out@[a] == before[a - 1] && out@[b] == before[b - 1]);
                }
            }
        }
        i = i + 1;
    }
    assert(orig.take(n as int) =~= orig);
    out
}

/// `u` holds the keys `descriptions` describe, one for one and in order, each
/// with the aliases that point at it.
pub open spec fn keys_of(u: Seq<KmsKey>, descriptions: Seq<KmsKeyDescription>, aliases: Seq<KmsAliasDescription>) -> bool {
    &&& u.len() == descriptions.len()
    &&& forall|i: int| 0 <= i < u.len() ==> is_key_of(#[trigger] u[i], descriptions[i],
        aliases_of(aliases, descriptions[i].key_id@))
}

/// The keys KMS describes, each with the aliases that point at it, by alias
/// and then by key id.
pub fn keys_from(descriptions: &Vec<KmsKeyDescription>, aliases: &Vec<KmsAliasDescription>) -> (r: Vec<KmsKey>)
    ensures
        keys_in_order(r@),
        exists|u: Seq<KmsKey>| #[trigger] keys_of(u, descriptions@, aliases@) && r@.to_multiset() == u.to_multiset(),
{
    let mut keys: Vec<KmsKey> = Vec::new();
    let mut i: usize = 0;
    while i < descriptions.len()
        invariant
            i <= descriptions@.len(),
            keys@.len() == i,
            forall|k: int| 0 <= k < i ==> is_key_of(#[trigger] keys@[k], descriptions@[k],
                aliases_of(aliases@, descriptions@[k].key_id@)),
        decreases descriptions@.len() - i,
    {
        keys.push(key_from(&descriptions[i], aliases));
        i = i + 1;
    }
    let ghost u = keys@;
    assert(keys_of(u, descriptions@, aliases@));
    sort_keys(keys)
}

} // verus!
