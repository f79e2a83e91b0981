use vstd::prelude::*;

use crate::extract::{extract_of, extract_version, spec_pattern, Source};
use crate::version::{sem_eq, valid_semver, version_matches, Version};

verus! {

/// Why a component's check had to stop. The two causes are kept distinct on
/// purpose: a source that cannot be fetched is not a source whose version
/// marker exists but cannot be read.
#[derive(Debug, Clone, PartialEq, Eq)]
pub enum CheckError {
    /// The named source could not be fetched; carries the transport detail.
    Transport(Source, String),
    /// The named source held a version token that is not a well-formed
    /// semantic version; carries the offending token.
    Malformed(Source, String),
}

/// One audited component: its name, its three source locations, what each
/// source yielded, and whether they agree.
#[derive(Debug)]
pub struct Service {
    pub name: String,
    pub docs_url: String,
    pub manifest_url: String,
    pub readme_url: String,
    pub docs_version: Option<Version>,
    pub manifest_version: Option<Version>,
    pub readme_version: Option<Version>,
    pub consistent: bool,
}

/// Consistency: every source yielded a version and no pair of them differs
/// under semantic-version equality. A source that yielded nothing never passes.
pub open spec fn consistent_spec(d: Option<Version>, m: Option<Version>, r: Option<Version>) -> bool {
    &&& d matches Some(dv)
    &&& m matches Some(mv)
    &&& r matches Some(rv)
    &&& sem_eq(dv, mv)
    &&& sem_eq(mv, rv)
    &&& sem_eq(dv, rv)
}

/// What one source's optional version must be, given the fetched body:
/// absent when the pattern missed, the parsed token otherwise — and the
/// token must have been well-formed.
pub open spec fn outcome_ok(kind: Source, body: Seq<char>, out: Option<Version>) -> bool {
    match extract_of(spec_pattern(kind), body) {
        None => out is None,
        Some(t) => valid_semver(t) && (out matches Some(v) && version_matches(v, t)),
    }
}

/// A fetched body fails only one way: it holds a token that is not a
/// well-formed semantic version.
pub open spec fn body_fails(kind: Source, body: Seq<char>) -> bool {
    extract_of(spec_pattern(kind), body) matches Some(t) && !valid_semver(t)
}

/// A source's retrieval fails on a transport error or on a malformed token.
pub open spec fn fetch_fails(kind: Source, fetch: Result<String, String>) -> bool {
    match fetch {
        Ok(body) => body_fails(kind, body@),
        Err(_) => true,
    }
}

/// The error a failing retrieval reports: the transport detail, or the token
/// that would not parse — never one for the other.
pub open spec fn error_matches(kind: Source, fetch: Result<String, String>, e: CheckError) -> bool {
    match fetch {
        Ok(body) => {
            &&& extract_of(spec_pattern(kind), body@) matches Some(t)
            &&& !valid_semver(t)
            &&& e matches CheckError::Malformed(k, tok) && k == kind && tok@ == t
        },
        Err(detail) => e matches CheckError::Transport(k, d) && k == kind && d@ == detail@,
    }
}

/// One source's fetch outcome turned into an optional version: a transport
/// error or an unparsable token is fatal, a missing marker is a plain `None`.
pub fn source_version(kind: Source, fetch: Result<String, String>) -> (r: Result<
    Option<Version>,
    CheckError,
>)
    ensures
        r is Ok <==> !fetch_fails(kind, fetch),
        r matches Ok(out) ==> fetch matches Ok(body) && outcome_ok(kind, body@, out),
        r matches Err(e) ==> error_matches(kind, fetch, e),
{
    match fetch {
        Err(detail) => Err(CheckError::Transport(kind, detail)),
        Ok(body) => match extract_version(kind, body.as_str()) {
            None => Ok(None),
            Some(token) => match Version::parse(token.as_str()) {
                Ok(v) => Ok(Some(v)),
                Err(_) => Err(CheckError::Malformed(kind, token)),
            },
        },
    }
}

impl Service {
    /// A fresh, unchecked record: nothing retrieved yet, and not consistent.
    pub fn new(name: String, docs_url: String, manifest_url: String, readme_url: String) -> (r:
        Service)
        ensures
            r.name == name,
            r.docs_url == docs_url,
            r.manifest_url == manifest_url,
            r.readme_url == readme_url,
            r.docs_version is None,
            r.manifest_version is None,
            r.readme_version is None,
            r.consistent == false,
    {
        Service {
            name,
            docs_url,
            manifest_url,
            readme_url,
            docs_version: None,
            manifest_version: None,
            readme_version: None,
            consistent: false,
        }
    }

    /// The three-way judgment over the retrieved versions.
    pub fn judge(d: &Option<Version>, m: &Option<Version>, r: &Option<Version>) -> (c: bool)
        ensures
            c == consistent_spec(*d, *m, *r),
    {
        match (d, m, r) {
            (Some(dv), Some(mv), Some(rv)) => dv.eq_semantic(mv) && mv.eq_semantic(rv)
                && dv.eq_semantic(rv),
            _ => false,
        }
    }

    /// Reduces the three fetch outcomes to a fully populated record, or
    /// aborts on the first fatal outcome (docs, then manifest, then readme),
    /// leaving this record as it was.
    pub fn check(&self, docs: Result<String, String>, manifest: Result<String, String>, readme: Result<
        String,
        String,
    >) -> (r: Result<Service, CheckError>)
        ensures
            r is Ok <==> {
                &&& !fetch_fails(Source::Docs, docs)
                &&& !fetch_fails(Source::Manifest, manifest)
                &&& !fetch_fails(Source::Readme, readme)
            },
            r matches Ok(rec) ==> {
                &&& rec.name == self.name
                &&& rec.docs_url == self.docs_url
                &&& rec.manifest_url == self.manifest_url
                &&& rec.readme_url == self.readme_url
                &&& docs matches Ok(b) && outcome_ok(Source::Docs, b@, rec.docs_version)
                &&& manifest matches Ok(b) && outcome_ok(Source::Manifest, b@, rec.manifest_version)
                &&& readme matches Ok(b) && outcome_ok(Source::Readme, b@, rec.readme_version)
                &&& rec.consistent == consistent_spec(
                    rec.docs_version,
                    rec.manifest_version,
                    rec.readme_version,
                )
            },
            r matches Err(e) ==> {
                ||| fetch_fails(Source::Docs, docs) && error_matches(Source::Docs, docs, e)
                ||| {
                    &&& !fetch_fails(Source::Docs, docs)
                    &&& fetch_fails(Source::Manifest, manifest)
                    &&& error_matches(Source::Manifest, manifest, e)
                }
                ||| {
                    &&& !fetch_fails(Source::Docs, docs)
                    &&& !fetch_fails(Source::Manifest, manifest)
                    &&& fetch_fails(Source::Readme, readme)
                    &&& error_matches(Source::Readme, readme, e)
                }
            },
    {
        let docs_version = match source_version(Source::Docs, docs) {
            Ok(v) => v,
            Err(e) => return Err(e),
        };
        let manifest_version = match source_version(Source::Manifest, manifest) {
            Ok(v) => v,
            Err(e) => return Err(e),
        };
        let readme_version = match source_version(Source::Readme, readme) {
            Ok(v) => v,
            Err(e) => return Err(e),
        };
        let consistent = Service::judge(&docs_version, &manifest_version, &readme_version);
        Ok(
            Service {
                name: self.name.clone(),
                docs_url: self.docs_url.clone(),
                manifest_url: self.manifest_url.clone(),
                readme_url: self.readme_url.clone(),
                docs_version,
                manifest_version,
                readme_version,
                consistent,
            },
        )
    }
}

/// Three present versions that agree pairwise always pass.
pub proof fn lemma_all_equal_consistent(d: Version, m: Version, r: Version)
    requires
        sem_eq(d, m),
        sem_eq(m, r),
    ensures
        consistent_spec(Some(d), Some(m), Some(r)),
{
}

/// Two present versions that differ anywhere leave the record inconsistent.
pub proof fn lemma_unequal_inconsistent(d: Version, m: Version, r: Version)
    requires
        !sem_eq(d, m) || !sem_eq(m, r) || !sem_eq(d, r),
    ensures
        !consistent_spec(Some(d), Some(m), Some(r)),
{
}

/// A missing version can never pass, whatever the other two hold.
pub proof fn lemma_missing_inconsistent(d: Option<Version>, m: Option<Version>, r: Option<Version>)
    requires
        d is None || m is None || r is None,
    ensures
        !consistent_spec(d, m, r),
{
}

/// Extraction and parsing are deterministic: whenever two outcomes both fit
/// the same body, they hold the same version, or none at all.
pub proof fn lemma_outcome_deterministic(
    kind: Source,
    body: Seq<char>,
    first: Option<Version>,
    second: Option<Version>,
)
    requires
        outcome_ok(kind, body, first),
        outcome_ok(kind, body, second),
    ensures
        first is Some <==> second is Some,
        first matches Some(a) ==> second matches Some(b) && sem_eq(a, b),
{
}

} // verus!
