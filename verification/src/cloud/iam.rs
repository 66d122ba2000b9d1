//! IAM: the records the console shows and the client that reads them.
use vstd::prelude::*;
use crate::cloud::config::AwsConfig;
use crate::json::{json_pretty, pretty_text};
use crate::text::owned;

verus! {

/// Client of IAM for one session.
pub struct IamClient {
    config: AwsConfig,
}

impl IamClient {
    /// A client for the session `config`.
    pub fn new(config: AwsConfig) -> (r: Self)
        ensures
            r.session() == config,
    {
        IamClient { config }
    }

    /// The session of the client.
    pub closed spec fn session(&self) -> AwsConfig {
        self.config
    }

    /// The session of the client.
    pub fn config(&self) -> (r: &AwsConfig)
        ensures
            *r == self.session(),
    {
        &self.config
    }
}


/// The text that percent-decoding `doc` gives (each `%` followed by two
/// hexadecimal digits read as the byte they spell) when the bytes are UTF-8,
/// else the message of the UTF-8 error.
pub uninterp spec fn percent_decoded(doc: Seq<char>) -> Result<Seq<char>, Seq<char>>;

/// Calls `percent_encoding::percent_decode_str` and `decode_utf8` on its
/// result: the decoded text, or the message of the UTF-8 error. The contract
/// names the result.
#[verifier::external_body]
fn percent_decode_text(doc: &str) -> (r: Result<String, String>)
    ensures
        match r {
            Ok(t) => percent_decoded(doc@) == Ok::<Seq<char>, Seq<char>>(t@),
            Err(e) => percent_decoded(doc@) == Err::<Seq<char>, Seq<char>>(e@),
        },
{
    match percent_encoding::percent_decode_str(doc).decode_utf8() {
        Ok(t) => Ok(t.into_owned()),
        Err(e) => Err(e.to_string()),
    }
}

/// What a policy document as IAM returns it (percent-encoded JSON) shows: the
/// JSON laid out for reading, or the error that stopped it.
pub open spec fn policy_text(doc: Seq<char>) -> Result<Seq<char>, Seq<char>> {
    match percent_decoded(doc) {
        Ok(d) => match json_pretty(d) {
            Ok(p) => Ok(p),
            Err(m) => Err("Failed to parse policy JSON: "@ + m),
        },
        Err(m) => Err("Failed to decode policy: "@ + m),
    }
}

/// A policy document as IAM returns it, decoded and laid out for reading.
pub fn format_policy_document(doc: &str) -> (r: Result<String, String>)
    ensures
        match r {
            Ok(t) => policy_text(doc@) == Ok::<Seq<char>, Seq<char>>(t@),
            Err(e) => policy_text(doc@) == Err::<Seq<char>, Seq<char>>(e@),
        },
{
    match percent_decode_text(doc) {
        Ok(d) => match pretty_text(d.as_str()) {
            Ok(p) => Ok(p),
            Err(m) => {
                let mut e = owned("Failed to parse policy JSON: ");
                e.append(m.as_str());
                Err(e)
            },
        },
        Err(m) => {
            let mut e = owned("Failed to decode policy: ");
            e.append(m.as_str());
            Err(e)
        },
    }
}

/// The document of a policy's default version, when IAM gave the version and
/// its document, laid out for reading; the error names what was missing.
pub fn default_version_document(default_version_found: bool, document: &Option<String>) -> (r: Result<String, String>)
    ensures
        !default_version_found ==> (r matches Err(e) && e@ == "No default version found"@),
        default_version_found && document is None ==> (r matches Err(e) && e@ == "No policy document found"@),
        default_version_found && document is Some ==> match r {
            Ok(t) => policy_text(document.unwrap()@) == Ok::<Seq<char>, Seq<char>>(t@),
            Err(e) => policy_text(document.unwrap()@) == Err::<Seq<char>, Seq<char>>(e@),
        },
{
    if !default_version_found {
        return Err(owned("No default version found"));
    }
    match document {
        Some(d) => format_policy_document(d.as_str()),
        None => Err(owned("No policy document found")),
    }
}


/// A role's trust policy, when IAM gave it, laid out for reading.
pub fn assume_role_document(document: &Option<String>) -> (r: Result<String, String>)
    ensures
        document is None ==> (r matches Err(e) && e@ == "No assume role policy document found"@),
        document is Some ==> match r {
            Ok(t) => policy_text(document.unwrap()@) == Ok::<Seq<char>, Seq<char>>(t@),
            Err(e) => policy_text(document.unwrap()@) == Err::<Seq<char>, Seq<char>>(e@),
        },
{
    match document {
        Some(d) => format_policy_document(d.as_str()),
        None => Err(owned("No assume role policy document found")),
    }
}

} // verus!
