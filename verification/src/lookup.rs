//! The driver's computed output: the searching notice, the failure
//! notice, and the full sequence of lines a lookup prints.

use vstd::prelude::*;
use vstd::string::StringExecFns;

use crate::record::PackageRecord;
use crate::render::{
    describe_lines_spec, describe_versions, end_bar, end_bar_spec, title_bar_spec,
};
use crate::text::{magenta, magenta_code, red, red_code, styled};

verus! {

/// The notice printed before the registry is asked anything.
pub open spec fn search_message_spec(name: Seq<char>) -> Seq<char> {
    "Searching for "@ + name
}

/// Builds the notice printed before the registry call.
pub fn search_message(name: &str) -> (r: String)
    ensures
        r@ == search_message_spec(name@),
{
    let mut r = String::from_str("Searching for ");
    r.append(name);
    r
}

/// The styled notice printed when the package cannot be found.
pub open spec fn failure_line_spec() -> Seq<char> {
    styled(red_code(), "Failed"@) + " "@ + styled(magenta_code(), "to find that crate"@)
}

/// Builds the notice printed when the package cannot be found.
pub fn failure_line() -> (r: String)
    ensures
        r@ == failure_line_spec(),
{
    let mut r = red("Failed");
    r.append(" ");
    let rest = magenta("to find that crate");
    r.append(rest.as_str());
    r
}

/// Everything a lookup prints after the searching notice.  A found
/// package gives the report body followed by the closing bar; an
/// absent one gives the single failure line, with neither bar.
pub open spec fn lookup_lines_spec(width: nat, found: Option<PackageRecord>) -> Seq<Seq<char>> {
    match found {
        Some(fields) => describe_lines_spec(width, fields).push(end_bar_spec(width)),
        None => seq![failure_line_spec()],
    }
}

/// Renders everything a lookup prints after the searching notice:
/// title bar, header, version lines and closing bar for a found
/// package, the failure line alone for an absent one.
pub fn render_lookup(width: usize, found: Option<PackageRecord>) -> (lines: Vec<String>)
    ensures
        lines.deep_view() == lookup_lines_spec(width as nat, found),
{
    match found {
        Some(fields) => {
            let mut lines = describe_versions(width, fields);
            lines.push(end_bar(width));
            proof {
                assert(lines.deep_view() =~= lookup_lines_spec(width as nat, found));
            }
            lines
        },
        None => {
            let mut lines: Vec<String> = Vec::new();
            lines.push(failure_line());
            proof {
                assert(lines.deep_view() =~= lookup_lines_spec(width as nat, found));
            }
            lines
        },
    }
}

/// Law: the report of an absent package is the failure line alone, and
/// that line is neither a title bar nor a closing bar, whatever width
/// and name those would have been drawn with.
pub proof fn lemma_absent_report_omits_bars(width: nat, bar_width: nat, name: Seq<char>)
    ensures
        lookup_lines_spec(width, None).len() == 1,
        lookup_lines_spec(width, None)[0] == failure_line_spec(),
        failure_line_spec() != title_bar_spec(bar_width, name),
        failure_line_spec() != end_bar_spec(bar_width),
{
    reveal_strlit("\u{1b}[31m");
    reveal_strlit("\u{1b}[94m");
    assert(failure_line_spec()[2] == '3');
    assert(title_bar_spec(bar_width, name)[2] == '9');
    assert(end_bar_spec(bar_width)[2] == '9');
}

} // verus!
