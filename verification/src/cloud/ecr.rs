//! ECR: the records the console shows and the client that reads them.
use vstd::prelude::*;
use vstd::string::*;
use crate::cloud::config::AwsConfig;

verus! {

/// A private or public ECR repository.
#[derive(Clone, Debug)]
pub struct EcrRepository {
    pub name: String,
    pub uri: String,
    pub created_at: String,
    pub tag_immutability: String,
    pub encryption_type: String,
}

/// An image of a repository.
#[derive(Clone, Debug)]
pub struct EcrImage {
    pub tag: String,
    pub artifact_type: String,
    pub pushed_at: String,
    pub size_bytes: i64,
    pub uri: String,
    pub digest: String,
    pub last_pull_time: String,
}

/// The URI of an image: the repository URI, `:` and the tag.
pub fn image_uri(repository_uri: &str, tag: &str) -> (r: String)
    ensures
        r@ == repository_uri@ + ":"@ + tag@,
{
    let mut s = crate::text::owned(repository_uri);
    s.append(":");
    s.append(tag);
    s
}

/// The label of a repository's encryption type: `Aes256` reads `AES256`, any
/// other type is shown as it is.
pub fn format_encryption_type(enc_type: &str) -> (r: String)
    ensures
        r@ == (if enc_type@ == "Aes256"@ { "AES256"@ } else { enc_type@ }),
{
    if crate::text::str_eq(enc_type, "Aes256") {
        String::from_str("AES256")
    } else {
        crate::text::owned(enc_type)
    }
}

/// Client of ECR for one session.
pub struct EcrClient {
    config: AwsConfig,
}

impl EcrClient {
    /// A client for the session `config`.
    pub fn new(config: AwsConfig) -> (r: Self)
        ensures
            r.session() == config,
    {
        EcrClient { config }
    }

    /// The session of the client.
    pub closed spec fn session(&self) -> AwsConfig {
        self.config
    }

    /// The session of the client.
    pub fn config(&self) -> (r: &AwsConfig)
        ensures
            *r == self.session(),
    {
        &self.config
    }
}


/// The text of an optional string: empty when absent.
pub open spec fn or_empty(o: Option<String>) -> Seq<char> {
    match o {
        Some(s) => s@,
        None => Seq::empty(),
    }
}

fn or_empty_of(o: &Option<String>) -> (r: String)
    ensures
        r@ == or_empty(*o),
{
    match o {
        Some(s) => s.clone(),
        None => String::new(),
    }
}

/// The label of an encryption type.
pub open spec fn encryption_label(t: Seq<char>) -> Seq<char> {
    if t == "Aes256"@ { "AES256"@ } else { t }
}

/// A repository as ECR describes it: its creation time written out as a date
/// and time, its tag mutability and encryption type by name (the latter
/// present when the repository has an encryption configuration).
pub struct RepositoryDescription {
    pub repository_name: Option<String>,
    pub repository_uri: Option<String>,
    pub created_at: Option<String>,
    pub image_tag_mutability: Option<String>,
    pub encryption_type: Option<String>,
}

/// `r` is the row of the private repository ECR describes as `d`.
pub open spec fn is_private_repository_row_of(r: EcrRepository, d: RepositoryDescription) -> bool {
    &&& r.name@ == or_empty(d.repository_name)
    &&& r.uri@ == or_empty(d.repository_uri)
    &&& r.created_at@ == or_empty(d.created_at)
    &&& r.tag_immutability@ == or_empty(d.image_tag_mutability)
    &&& r.encryption_type@ == (match d.encryption_type {
        Some(t) => encryption_label(t@),
        None => Seq::empty(),
    })
}

/// Each of these columns comes from its own field of the description,
/// whatever the other fields hold: two descriptions that agree on the field
/// give rows that agree on the column.
pub proof fn lemma_private_repository_row_of_own_fields(r1: EcrRepository, d1: RepositoryDescription, r2: EcrRepository, d2: RepositoryDescription)
    requires
        is_private_repository_row_of(r1, d1),
        is_private_repository_row_of(r2, d2),
    ensures
        d1.repository_name == d2.repository_name ==> r1.name@ == r2.name@,
        d1.repository_uri == d2.repository_uri ==> r1.uri@ == r2.uri@,
        d1.created_at == d2.created_at ==> r1.created_at@ == r2.created_at@,
        d1.image_tag_mutability == d2.image_tag_mutability ==> r1.tag_immutability@ == r2.tag_immutability@,
{
}

/// The rows of the private repositories ECR describes, in its order.
pub fn private_repositories_from(descriptions: &Vec<RepositoryDescription>) -> (r: Vec<EcrRepository>)
    ensures
        r@.len() == descriptions@.len(),
        forall|i: int| 0 <= i < r@.len() ==> is_private_repository_row_of(#[trigger] r@[i], descriptions@[i]),
{
    let mut out: Vec<EcrRepository> = Vec::new();
    let mut i: usize = 0;
    while i < descriptions.len()
        invariant
            i <= descriptions@.len(),
            out@.len() == i,
            forall|k: int| 0 <= k < i ==> is_private_repository_row_of(#[trigger] out@[k], descriptions@[k]),
        decreases descriptions@.len() - i,
    {
        let d = &descriptions[i];
        out.push(EcrRepository {
            name: or_empty_of(&d.repository_name),
            uri: or_empty_of(&d.repository_uri),
            created_at: or_empty_of(&d.created_at),
            tag_immutability: or_empty_of(&d.image_tag_mutability),
            encryption_type: match &d.encryption_type {
                Some(t) => format_encryption_type(t.as_str()),
                None => String::new(),
            },
        });
        i = i + 1;
    }
    out
}

/// The rows of the public repositories ECR Public describes, in its order:
/// public repositories have no tag mutability or encryption shown.
pub fn public_repositories_from(descriptions: &Vec<RepositoryDescription>) -> (r: Vec<EcrRepository>)
    ensures
        r@.len() == descriptions@.len(),
        forall|i: int| 0 <= i < r@.len() ==> {
            &&& #[trigger] r@[i].name@ == or_empty(descriptions@[i].repository_name)
            &&& r@[i].uri@ == or_empty(descriptions@[i].repository_uri)
            &&& r@[i].created_at@ == or_empty(descriptions@[i].created_at)
            &&& r@[i].tag_immutability@.len() == 0
            &&& r@[i].encryption_type@.len() == 0
        },
{
    let mut out: Vec<EcrRepository> = Vec::new();
    let mut i: usize = 0;
    while i < descriptions.len()
        invariant
            i <= descriptions@.len(),
            out@.len() == i,
            forall|k: int| 0 <= k < i ==> {
                &&& #[trigger] out@[k].name@ == or_empty(descriptions@[k].repository_name)
                &&& out@[k].uri@ == or_empty(descriptions@[k].repository_uri)
                &&& out@[k].created_at@ == or_empty(descriptions@[k].created_at)
                &&& out@[k].tag_immutability@.len() == 0
                &&& out@[k].encryption_type@.len() == 0
            },
        decreases descriptions@.len() - i,
    {
        let d = &descriptions[i];
        out.push(EcrRepository {
            name: or_empty_of(&d.repository_name),
            uri: or_empty_of(&d.repository_uri),
            created_at: or_empty_of(&d.created_at),
            tag_immutability: String::new(),
            encryption_type: String::new(),
        });
        i = i + 1;
    }
    out
}

/// An image as ECR describes it: its times written out as dates and times.
pub struct ImageDescription {
    pub image_tags: Vec<String>,
    pub artifact_media_type: Option<String>,
    pub image_pushed_at: Option<String>,
    pub image_size_in_bytes: Option<i64>,
    pub image_digest: Option<String>,
    pub last_recorded_pull_time: Option<String>,
}

/// The tag an image is listed by: its first tag, or `<untagged>`.
pub open spec fn image_tag(d: ImageDescription) -> Seq<char> {
    if d.image_tags@.len() > 0 { d.image_tags@[0]@ } else { "<untagged>"@ }
}

/// `r` is the row of the image ECR describes as `d` in the repository at
/// `repository_uri`.
pub open spec fn is_image_row_of(r: EcrImage, d: ImageDescription, repository_uri: Seq<char>) -> bool {
    &&& r.tag@ == image_tag(d)
    &&& r.artifact_type@ == or_empty(d.artifact_media_type)
    &&& r.pushed_at@ == or_empty(d.image_pushed_at)
    &&& r.size_bytes == (match d.image_size_in_bytes { Some(n) => n, None => 0 })
    &&& r.uri@ == repository_uri + ":"@ + image_tag(d)
    &&& r.digest@ == or_empty(d.image_digest)
    &&& r.last_pull_time@ == or_empty(d.last_recorded_pull_time)
}

/// The rows of the images ECR describes for the repository at
/// `repository_uri`, in its order.
pub fn images_from(descriptions: &Vec<ImageDescription>, repository_uri: &str) -> (r: Vec<EcrImage>)
    ensures
        r@.len() == descriptions@.len(),
        forall|i: int| 0 <= i < r@.len() ==> is_image_row_of(#[trigger] r@[i], descriptions@[i], repository_uri@),
{
    let mut out: Vec<EcrImage> = Vec::new();
    let mut i: usize = 0;
    while i < descriptions.len()
        invariant
            i <= descriptions@.len(),
            out@.len() == i,
            forall|k: int| 0 <= k < i ==> is_image_row_of(#[trigger] out@[k], descriptions@[k], repository_uri@),
        decreases descriptions@.len() - i,
    {
        let d = &descriptions[i];
        let tag = if d.image_tags.len() > 0 { d.image_tags[0].clone() } else { String::from_str("<untagged>") };
        proof {
            reveal_strlit("<untagged>");
        }
        let uri = image_uri(repository_uri, tag.as_str());
        out.push(EcrImage {
            tag,
            artifact_type: or_empty_of(&d.artifact_media_type),
            pushed_at: or_empty_of(&d.image_pushed_at),
            size_bytes: match d.image_size_in_bytes {
                Some(n) => n,
                None => 0,
            },
            uri,
            digest: or_empty_of(&d.image_digest),
            last_pull_time: or_empty_of(&d.last_recorded_pull_time),
        });
        i = i + 1;
    }
    out
}

} // verus!
