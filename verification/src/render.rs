//! Rendering a package record as an ordered sequence of styled lines:
//! a title bar, a fixed header, and one line per version.

use vstd::prelude::*;
use vstd::string::{StrSliceExecFns, StringExecFns};

use crate::record::{PackageRecord, VersionRecord};
use crate::text::{
    bright_blue, bright_blue_spec, decimal_of, kilobytes, kilobytes_spec, lemma_styled_len,
    u64_to_decimal,
};

verus! {

// ---------------------------------------------------------------------------
// Bars.
// ---------------------------------------------------------------------------

/// A run of `n` bar characters.
pub open spec fn bar_seq(n: nat) -> Seq<char> {
    Seq::new(n, |i: int| '═')
}

/// How many bar characters stand on each side of the name in the title
/// bar: half of whatever the display width leaves over.
pub open spec fn side_len(width: nat, name_len: nat) -> nat {
    if name_len < width {
        ((width - name_len) / 2) as nat
    } else {
        0
    }
}

/// The title bar: a styled run of bar characters on either side of the
/// styled package name.
pub open spec fn title_bar_spec(width: nat, name: Seq<char>) -> Seq<char> {
    bright_blue_spec(bar_seq(side_len(width, name.len()))) + " "@ + bright_blue_spec(name) + " "@
        + bright_blue_spec(bar_seq(side_len(width, name.len())))
}

/// The closing bar: a styled run of bar characters across the width.
pub open spec fn end_bar_spec(width: nat) -> Seq<char> {
    bright_blue_spec(bar_seq(width))
}

/// The fixed header line above the version list.
pub open spec fn header_line_spec() -> Seq<char> {
    bright_blue_spec("Versions:"@)
}

fn bar(n: usize) -> (r: String)
    ensures
        r@ == bar_seq(n as nat),
{
    let mut r = String::new();
    let mut i: usize = 0;
    while i < n
        invariant
            i <= n,
            r@ == bar_seq(i as nat),
        decreases n - i,
    {
        r.append("═");
        i = i + 1;
        proof {
            reveal_strlit("═");
            assert(r@ =~= bar_seq(i as nat));
        }
    }
    r
}

/// Builds the title bar for the given display width and package name.
pub fn title_bar(width: usize, name: &str) -> (r: String)
    ensures
        r@ == title_bar_spec(width as nat, name@),
{
    let name_len = name.unicode_len();
    let side = if name_len < width {
        (width - name_len) / 2
    } else {
        0
    };
    let mut r = bright_blue(bar(side).as_str());
    r.append(" ");
    let styled_name = bright_blue(name);
    r.append(styled_name.as_str());
    r.append(" ");
    let right = bright_blue(bar(side).as_str());
    r.append(right.as_str());
    r
}

/// Builds the closing bar for the given display width.
pub fn end_bar(width: usize) -> (r: String)
    ensures
        r@ == end_bar_spec(width as nat),
{
    bright_blue(bar(width).as_str())
}

// ---------------------------------------------------------------------------
// Version lines.
// ---------------------------------------------------------------------------

/// The line shown for one version.  With a recorded size it carries
/// four fields (version, parenthesised license, date, kilobyte figure);
/// without one it carries only the version and the date.  Either form
/// is indented four spaces and separated by ` | `.
pub open spec fn version_line_spec(version: VersionRecord) -> Seq<char> {
    match version.size_in_bytes {
        Some(size) => "    "@ + bright_blue_spec(version.semver@) + "  "@ + bright_blue_spec(
            "("@ + version.license@ + ")"@,
        ) + " | "@ + bright_blue_spec(version.date@) + " | "@ + bright_blue_spec(
            decimal_of(kilobytes_spec(size as nat)) + " kB"@,
        ),
        None => "    "@ + bright_blue_spec(version.semver@) + " | "@ + bright_blue_spec(
            version.date@,
        ),
    }
}

/// Builds the report line for one version.
pub fn version_line(version: &VersionRecord) -> (r: String)
    ensures
        r@ == version_line_spec(*version),
{
    let mut r = String::from_str("    ");
    let styled_semver = bright_blue(version.semver.as_str());
    r.append(styled_semver.as_str());
    match version.size_in_bytes {
        Some(size) => {
            r.append("  ");
            let mut parenthesised = String::from_str("(");
            parenthesised.append(version.license.as_str());
            parenthesised.append(")");
            let styled_license = bright_blue(parenthesised.as_str());
            r.append(styled_license.as_str());
            r.append(" | ");
            let styled_date = bright_blue(version.date.as_str());
            r.append(styled_date.as_str());
            r.append(" | ");
            let mut size_text = u64_to_decimal(kilobytes(size));
            size_text.append(" kB");
            let styled_size = bright_blue(size_text.as_str());
            r.append(styled_size.as_str());
        },
        None => {
            r.append(" | ");
            let styled_date = bright_blue(version.date.as_str());
            r.append(styled_date.as_str());
        },
    }
    r
}

// ---------------------------------------------------------------------------
// The whole report body.
// ---------------------------------------------------------------------------

/// The lines of the report body: title bar, header, one line per
/// version in the order the registry returned them.
pub open spec fn describe_lines_spec(width: nat, fields: PackageRecord) -> Seq<Seq<char>> {
    seq![title_bar_spec(width, fields.name@), header_line_spec()]
        + fields.versions@.map_values(|v: VersionRecord| version_line_spec(v))
}

/// Renders the report body for a package: the title bar, the header,
/// and one line per version, in registry order.
pub fn describe_versions(width: usize, fields: PackageRecord) -> (lines: Vec<String>)
    ensures
        lines.deep_view() == describe_lines_spec(width as nat, fields),
        lines@.len() == 2 + fields.versions@.len(),
{
    let mut lines: Vec<String> = Vec::new();
    lines.push(title_bar(width, fields.name.as_str()));
    lines.push(bright_blue("Versions:"));
    let n = fields.versions.len();
    let mut i: usize = 0;
    while i < n
        invariant
            i <= n,
            n == fields.versions@.len(),
            lines@.len() == 2 + i,
            lines@[0]@ == title_bar_spec(width as nat, fields.name@),
            lines@[1]@ == header_line_spec(),
            forall|j: int|
                0 <= j < i ==> #[trigger] lines@[2 + j]@ == version_line_spec(
                    fields.versions@[j],
                ),
        decreases n - i,
    {
        let line = version_line(&fields.versions[i]);
        lines.push(line);
        i = i + 1;
    }
    proof {
        let target = describe_lines_spec(width as nat, fields);
        assert forall|k: int| 0 <= k < target.len() implies lines.deep_view()[k] == target[k] by {
            assert(lines.deep_view()[k] == lines@[k]@);
            if k >= 2 {
                assert(target[k] == version_line_spec(fields.versions@[k - 2]));
                assert(lines@[2 + (k - 2)]@ == version_line_spec(fields.versions@[k - 2]));
            }
        }
        assert(lines.deep_view() =~= target);
    }
    lines
}

// ---------------------------------------------------------------------------
// Laws.
// ---------------------------------------------------------------------------

/// Law: the report body always holds one line per version plus the
/// title bar and the header, whatever the record holds.
pub proof fn lemma_line_count(width: nat, fields: PackageRecord)
    ensures
        describe_lines_spec(width, fields).len() == 2 + fields.versions@.len(),
{
}

/// The title bar's rendered length, in characters: three styled
/// fragments (nine characters of escapes each) and two separating
/// spaces around the name.
pub proof fn lemma_title_bar_len(width: nat, name: Seq<char>)
    ensures
        title_bar_spec(width, name).len() == 29 + name.len() + 2 * side_len(width, name.len()),
{
    lemma_styled_len(bar_seq(side_len(width, name.len())));
    lemma_styled_len(name);
    reveal_strlit(" ");
}

/// Law: the title bar's rendered length is a pure function of the
/// display width and the length of the name; the rest of the record
/// plays no part in it.
pub proof fn lemma_title_bar_len_pure_in_lengths(width: nat, name_a: Seq<char>, name_b: Seq<char>)
    requires
        name_a.len() == name_b.len(),
    ensures
        title_bar_spec(width, name_a).len() == title_bar_spec(width, name_b).len(),
{
    lemma_title_bar_len(width, name_a);
    lemma_title_bar_len(width, name_b);
}

/// Law: the header line renders to exactly 18 characters, whatever the
/// record and the width.
pub proof fn lemma_header_line_len()
    ensures
        header_line_spec().len() == 18,
{
    lemma_styled_len("Versions:"@);
    reveal_strlit("Versions:");
}

/// Law: a version without a recorded size renders in the short,
/// two-field form, the version string and the date alone.
pub proof fn lemma_version_line_short_form(version: VersionRecord)
    requires
        version.size_in_bytes is None,
    ensures
        version_line_spec(version) == "    "@ + bright_blue_spec(version.semver@) + " | "@
            + bright_blue_spec(version.date@),
{
}

} // verus!
