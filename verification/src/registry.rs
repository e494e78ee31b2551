//! Interpreting a registry response: deciding found / absent /
//! malformed from the HTTP status and body, and reducing the parsed
//! JSON document to a [`PackageRecord`].
//!
//! The JSON work itself is done by `serde_json`; the library sees a
//! `serde_json::Value` only as an opaque handle and makes every
//! decision on the plain values pulled out of it.

use vstd::prelude::*;

use crate::record::{PackageRecord, VersionRecord};

verus! {

#[verifier::external_type_specification]
#[verifier::external_body]
pub struct ExValue(serde_json::Value);

/// Names the strings that `serde_json::from_str` accepts as a JSON
/// document; parsing is a pure function of the text.
pub uninterp spec fn is_json_text(s: Seq<char>) -> bool;

/// Relies on `serde_json::from_str`: returns the parsed value exactly
/// when the body is a JSON document, and an error otherwise.
#[verifier::external_body]
fn parse_json(body: &str) -> (r: Option<serde_json::Value>)
    ensures
        r is Some <==> is_json_text(body@),
{
    match serde_json::from_str::<serde_json::Value>(body) {
        Ok(value) => Some(value),
        Err(_) => None,
    }
}

/// Relies on `serde_json::Value::get`: looks a key up in a JSON object
/// (`None` on a missing key or a non-object).
#[verifier::external_body]
fn json_get<'a>(value: &'a serde_json::Value, key: &str) -> (r: Option<&'a serde_json::Value>) {
    value.get(key)
}

/// Relies on `serde_json::Value::as_str`: the string content of a JSON
/// string, `None` for any other kind of value.
#[verifier::external_body]
fn json_as_string(value: &serde_json::Value) -> (r: Option<String>) {
    match value.as_str() {
        Some(s) => Some(s.to_owned()),
        None => None,
    }
}

/// Relies on `serde_json::Value::as_u64`: the value of a JSON number
/// that fits in a `u64`, `None` otherwise.
#[verifier::external_body]
fn json_as_u64(value: &serde_json::Value) -> (r: Option<u64>) {
    value.as_u64()
}

/// Relies on `serde_json::Value::as_array`: the elements of a JSON
/// array, `None` for any other kind of value.
#[verifier::external_body]
fn json_as_array<'a>(value: &'a serde_json::Value) -> (r: Option<&'a Vec<serde_json::Value>>) {
    value.as_array()
}

// ---------------------------------------------------------------------------
// Fetch outcome.
// ---------------------------------------------------------------------------

/// What a registry response amounts to once interpreted.
pub enum FetchOutcome {
    /// Status 200 and a JSON body: the parsed document.
    Found(serde_json::Value),
    /// Any status other than 200: the package is not there.
    Absent,
    /// Status 200 but a body that is not a JSON document; the caller
    /// treats this as fatal.
    Malformed,
}

/// Decides what a registry response means.  Any status other than 200
/// signals absence, never an error; a 200 body is parsed, and a body
/// that does not parse is reported as malformed rather than absent.
pub fn interpret_response(status: u16, body: &str) -> (r: FetchOutcome)
    ensures
        r is Absent <==> status != 200,
        status == 200 ==> ((r is Found) <==> is_json_text(body@)),
        status == 200 ==> ((r is Malformed) <==> !is_json_text(body@)),
{
    if status == 200 {
        match parse_json(body) {
            Some(value) => FetchOutcome::Found(value),
            None => FetchOutcome::Malformed,
        }
    } else {
        FetchOutcome::Absent
    }
}

// ---------------------------------------------------------------------------
// Extraction.
// ---------------------------------------------------------------------------

fn unwrap_or_empty(s: Option<String>) -> (r: String)
    ensures
        r@ == match s {
            Some(text) => text@,
            None => Seq::<char>::empty(),
        },
{
    match s {
        Some(text) => text,
        None => String::new(),
    }
}

/// Builds the record of one version from its fields as the response
/// held them.  The version string, the date and the license are
/// required: the record exists exactly when all three are present.
/// The download count and the size stay optional.
pub fn make_version_record(
    semver: Option<String>,
    date: Option<String>,
    downloads: Option<u64>,
    size_in_bytes: Option<u64>,
    license: Option<String>,
) -> (r: Option<VersionRecord>)
    ensures
        r is Some <==> (semver is Some && date is Some && license is Some),
        r matches Some(v) ==> {
            &&& semver matches Some(s) && v.semver == s
            &&& date matches Some(d) && v.date == d
            &&& license matches Some(l) && v.license == l
            &&& v.downloads == downloads
            &&& v.size_in_bytes == size_in_bytes
        },
{
    match (semver, date, license) {
        (Some(semver), Some(date), Some(license)) => Some(
            VersionRecord { date, semver, downloads, size_in_bytes, license },
        ),
        _ => None,
    }
}

/// Builds the package record from its fields as the response held
/// them.  The name and the version list are required: the record
/// exists exactly when both were present.  Missing optional strings
/// become empty; the version order is kept.
pub fn assemble_package(
    name: Option<String>,
    description: Option<String>,
    downloads: Option<u64>,
    recent_downloads: Option<u64>,
    repository: Option<String>,
    documentation: Option<String>,
    keywords: Vec<String>,
    categories: Vec<String>,
    has_versions: bool,
    versions: Vec<VersionRecord>,
) -> (r: Option<PackageRecord>)
    ensures
        r is Some <==> (name is Some && has_versions),
        r matches Some(p) ==> {
            &&& name matches Some(n) && p.name == n
            &&& p.description@ == match description {
                Some(d) => d@,
                None => Seq::<char>::empty(),
            }
            &&& p.downloads == downloads
            &&& p.recent_downloads == recent_downloads
            &&& p.repository@ == match repository {
                Some(u) => u@,
                None => Seq::<char>::empty(),
            }
            &&& p.documentation@ == match documentation {
                Some(u) => u@,
                None => Seq::<char>::empty(),
            }
            &&& p.keywords == keywords
            &&& p.categories == categories
            &&& p.versions == versions
        },
{
    if !has_versions {
        return None;
    }
    match name {
        Some(name) => Some(
            PackageRecord {
                name,
                description: unwrap_or_empty(description),
                downloads,
                recent_downloads,
                repository: unwrap_or_empty(repository),
                documentation: unwrap_or_empty(documentation),
                versions,
                keywords,
                categories,
            },
        ),
        None => None,
    }
}

fn lookup_string(value: &serde_json::Value, key: &str) -> (r: Option<String>) {
    match json_get(value, key) {
        Some(field) => json_as_string(field),
        None => None,
    }
}

fn lookup_u64(value: &serde_json::Value, key: &str) -> (r: Option<u64>) {
    match json_get(value, key) {
        Some(field) => json_as_u64(field),
        None => None,
    }
}

fn lookup_string_list(value: &serde_json::Value, key: &str) -> (r: Vec<String>) {
    let mut out: Vec<String> = Vec::new();
    match json_get(value, key) {
        Some(field) => {
            match json_as_array(field) {
                Some(entries) => {
                    let n = entries.len();
                    let mut i: usize = 0;
                    while i < n
                        invariant
                            i <= n,
                            n == entries@.len(),
                        decreases n - i,
                    {
                        match json_as_string(&entries[i]) {
                            Some(text) => out.push(text),
                            None => {},
                        }
                        i = i + 1;
                    }
                },
                None => {},
            }
        },
        None => {},
    }
    out
}

/// Reduces a parsed registry response to a [`PackageRecord`].  The
/// document is opaque here, so which record comes out cannot be pinned
/// to the document; the decisions are in [`make_version_record`] and
/// [`assemble_package`], which this function only feeds: the name and
/// the version array are required, a malformed version entry is
/// skipped, and the version order of the response is kept.
pub fn fields(json: &serde_json::Value) -> (r: Option<PackageRecord>) {
    let name = lookup_string(json, "name");
    let description = lookup_string(json, "description");
    let downloads = lookup_u64(json, "downloads");
    let recent_downloads = lookup_u64(json, "recent_downloads");
    let repository = lookup_string(json, "repository");
    let documentation = lookup_string(json, "documentation");
    let keywords = lookup_string_list(json, "keywords");
    let categories = lookup_string_list(json, "categories");
    let mut has_versions = false;
    let mut versions: Vec<VersionRecord> = Vec::new();
    match json_get(json, "versions") {
        Some(field) => {
            match json_as_array(field) {
                Some(entries) => {
                    has_versions = true;
                    let n = entries.len();
                    let mut i: usize = 0;
                    while i < n
                        invariant
                            i <= n,
                            n == entries@.len(),
                        decreases n - i,
                    {
                        let entry = &entries[i];
                        let version = make_version_record(
                            lookup_string(entry, "num"),
                            lookup_string(entry, "created_at"),
                            lookup_u64(entry, "downloads"),
                            lookup_u64(entry, "crate_size"),
                            lookup_string(entry, "license"),
                        );
                        match version {
                            Some(record) => versions.push(record),
                            None => {},
                        }
                        i = i + 1;
                    }
                },
                None => {},
            }
        },
        None => {},
    }
    assemble_package(
        name,
        description,
        downloads,
        recent_downloads,
        repository,
        documentation,
        keywords,
        categories,
        has_versions,
        versions,
    )
}

} // verus!
