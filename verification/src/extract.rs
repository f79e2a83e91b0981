use vstd::prelude::*;

verus! {

/// The three channels a component's version is scraped from.
#[derive(Debug, Clone, Copy, PartialEq, Eq)]
pub enum Source {
    /// The published documentation page; embeds a shields.io badge, URL-encoded.
    Docs,
    /// The dependency-manifest file; declares `version = "..."`.
    Manifest,
    /// The repository readme; embeds a shields.io badge.
    Readme,
}

/// The fixed capture pattern a source kind embeds its version with.
pub open spec fn spec_pattern(kind: Source) -> Seq<char> {
    match kind {
        Source::Docs => "badge/version-(.*)-%3C"@,
        Source::Manifest => "version = \"(.*)\""@,
        Source::Readme => "badge/version-(.*)-"@,
    }
}

impl Source {
    /// The fixed capture pattern this source kind embeds its version with.
    pub fn pattern(&self) -> (r: &'static str)
        ensures
            r@ == spec_pattern(*self),
    {
        match self {
            Source::Docs => "badge/version-(.*)-%3C",
            Source::Manifest => "version = \"(.*)\"",
            Source::Readme => "badge/version-(.*)-",
        }
    }
}

/// What a pattern yields on a body: the first match's first capture group,
/// or nothing when the pattern does not match. A function of the two texts
/// alone, so two runs over the same body always agree.
pub uninterp spec fn extract_of(pattern: Seq<char>, text: Seq<char>) -> Option<Seq<char>>;

/// Relies on regex::Regex::new, regex::Regex::captures and
/// regex::Captures::get: the first match's first capture group is a function
/// of the pattern and the haystack alone.
#[verifier::external_body]
fn regex_capture(pattern: &str, text: &str) -> (r: Option<String>)
    ensures
        match extract_of(pattern@, text@) {
            Some(t) => r matches Some(x) && x@ == t,
            None => r is None,
        },
{
    let re = match regex::Regex::new(pattern) {
        Ok(re) => re,
        Err(_) => return None,
    };
    match re.captures(text) {
        Some(caps) => match caps.get(1) {
            Some(m) => Some(m.as_str().to_string()),
            None => None,
        },
        None => None,
    }
}

/// Runs a source kind's pattern over a body. `None` means the body holds no
/// version marker at all: an expected, reportable state, not an error.
pub fn extract_version(kind: Source, body: &str) -> (r: Option<String>)
    ensures
        match extract_of(spec_pattern(kind), body@) {
            Some(t) => r matches Some(x) && x@ == t,
            None => r is None,
        },
{
    regex_capture(kind.pattern(), body)
}

} // verus!
