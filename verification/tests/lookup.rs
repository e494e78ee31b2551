use chit::{
    fields, interpret_response, render_lookup, search_message, FetchOutcome, PackageRecord,
    VersionRecord,
};

const FAILURE_LINE: &str = "\u{1b}[31mFailed\u{1b}[0m \u{1b}[35mto find that crate\u{1b}[0m";

#[test]
fn absent_package_prints_only_the_failure_line() {
    let lines = render_lookup(40, None);
    assert_eq!(lines, vec![FAILURE_LINE.to_string()]);
}

#[test]
fn failure_output_omits_both_bars() {
    let lines = render_lookup(40, None);
    assert_eq!(lines.len(), 1);
    assert!(lines[0].contains("Failed"));
    assert!(lines[0].contains("to find that crate"));
    assert!(!lines[0].contains('\u{2550}'));
}

#[test]
fn found_package_prints_body_then_closing_bar() {
    let record = PackageRecord {
        name: String::from("name"),
        description: String::new(),
        downloads: None,
        versions: vec![VersionRecord {
            date: String::from("some date"),
            semver: String::from("0.1.3"),
            downloads: None,
            size_in_bytes: Some(20),
            license: String::from("MIT"),
        }],
        recent_downloads: None,
        repository: String::new(),
        documentation: String::new(),
        keywords: Vec::new(),
        categories: Vec::new(),
    };

    let lines = render_lookup(40, Some(record));
    assert_eq!(lines.len(), 4);
    assert_eq!(lines[0].len(), 141);
    assert_eq!(lines[1], "\u{1b}[94mVersions:\u{1b}[0m");
    let bar: String = std::iter::repeat('\u{2550}').take(40).collect();
    assert_eq!(lines[3], format!("\u{1b}[94m{}\u{1b}[0m", bar));
}

#[test]
fn search_message_names_the_package() {
    assert_eq!(search_message("chit"), "Searching for chit");
}

#[test]
fn not_found_lookup_end_to_end() {
    let package = "doesnotexist123";

    let mut output: Vec<String> = vec![search_message(package)];
    let outcome = interpret_response(404, "");
    let found = match outcome {
        FetchOutcome::Found(json) => fields(&json),
        FetchOutcome::Absent => None,
        FetchOutcome::Malformed => panic!("a 404 must not read the body"),
    };
    output.extend(render_lookup(40, found));

    assert_eq!(
        output,
        vec!["Searching for doesnotexist123".to_string(), FAILURE_LINE.to_string()]
    );
    assert!(!output.iter().any(|line| line.contains('\u{2550}')));
}
