use chit::{fields, interpret_response, make_version_record, FetchOutcome};

const DOCUMENT: &str = "{\
    \"name\": \"demo\",\
    \"description\": \"a demo package\",\
    \"downloads\": 321,\
    \"recent_downloads\": 12,\
    \"repository\": \"https://example.invalid/demo\",\
    \"documentation\": \"https://docs.invalid/demo\",\
    \"keywords\": [\"cli\", 7, \"demo\"],\
    \"categories\": [\"tools\"],\
    \"versions\": [\
        {\"num\": \"0.2.0\", \"created_at\": \"2019-05-01\", \"downloads\": 200, \"crate_size\": 1500, \"license\": \"MIT\"},\
        {\"created_at\": \"2019-04-01\", \"license\": \"MIT\"},\
        {\"num\": \"0.1.0\", \"created_at\": \"2019-03-01\", \"license\": \"Apache-2.0\"}\
    ]\
}";

#[test]
fn non_200_status_is_absence_not_error() {
    assert!(matches!(interpret_response(404, ""), FetchOutcome::Absent));
    assert!(matches!(interpret_response(500, "{}"), FetchOutcome::Absent));
    assert!(matches!(interpret_response(301, "not json"), FetchOutcome::Absent));
}

#[test]
fn status_200_with_json_body_is_found() {
    assert!(matches!(interpret_response(200, "{}"), FetchOutcome::Found(_)));
}

#[test]
fn status_200_with_bad_body_is_malformed() {
    assert!(matches!(interpret_response(200, "not json at all"), FetchOutcome::Malformed));
}

#[test]
fn extraction_reads_the_whole_schema() {
    let json: serde_json::Value = serde_json::from_str(DOCUMENT).unwrap();
    let record = fields(&json).unwrap();

    assert_eq!(record.name, "demo");
    assert_eq!(record.description, "a demo package");
    assert_eq!(record.downloads, Some(321));
    assert_eq!(record.recent_downloads, Some(12));
    assert_eq!(record.repository, "https://example.invalid/demo");
    assert_eq!(record.documentation, "https://docs.invalid/demo");
    assert_eq!(record.keywords, vec!["cli".to_string(), "demo".to_string()]);
    assert_eq!(record.categories, vec!["tools".to_string()]);
}

#[test]
fn extraction_skips_malformed_versions_and_keeps_order() {
    let json: serde_json::Value = serde_json::from_str(DOCUMENT).unwrap();
    let record = fields(&json).unwrap();

    assert_eq!(record.versions.len(), 2);
    assert_eq!(record.versions[0].semver, "0.2.0");
    assert_eq!(record.versions[0].date, "2019-05-01");
    assert_eq!(record.versions[0].downloads, Some(200));
    assert_eq!(record.versions[0].size_in_bytes, Some(1500));
    assert_eq!(record.versions[0].license, "MIT");
    assert_eq!(record.versions[1].semver, "0.1.0");
    assert_eq!(record.versions[1].downloads, None);
    assert_eq!(record.versions[1].size_in_bytes, None);
    assert_eq!(record.versions[1].license, "Apache-2.0");
}

#[test]
fn extraction_requires_name_and_versions() {
    let no_name: serde_json::Value =
        serde_json::from_str("{\"versions\": []}").unwrap();
    assert!(fields(&no_name).is_none());

    let no_versions: serde_json::Value =
        serde_json::from_str("{\"name\": \"demo\"}").unwrap();
    assert!(fields(&no_versions).is_none());

    let both: serde_json::Value =
        serde_json::from_str("{\"name\": \"demo\", \"versions\": []}").unwrap();
    let record = fields(&both).unwrap();
    assert_eq!(record.name, "demo");
    assert!(record.versions.is_empty());
    assert_eq!(record.description, "");
}

#[test]
fn version_record_requires_semver_date_and_license() {
    let complete = make_version_record(
        Some("1.0.0".to_string()),
        Some("2020-02-02".to_string()),
        None,
        Some(10),
        Some("MIT".to_string()),
    )
    .unwrap();
    assert_eq!(complete.semver, "1.0.0");
    assert_eq!(complete.date, "2020-02-02");
    assert_eq!(complete.downloads, None);
    assert_eq!(complete.size_in_bytes, Some(10));
    assert_eq!(complete.license, "MIT");

    assert!(make_version_record(
        None,
        Some("2020-02-02".to_string()),
        None,
        None,
        Some("MIT".to_string())
    )
    .is_none());
    assert!(make_version_record(
        Some("1.0.0".to_string()),
        None,
        None,
        None,
        Some("MIT".to_string())
    )
    .is_none());
    assert!(make_version_record(
        Some("1.0.0".to_string()),
        Some("2020-02-02".to_string()),
        None,
        None,
        None
    )
    .is_none());
}

#[test]
fn package_assembly_requires_name_and_version_list() {
    let version = make_version_record(
        Some("1.0.0".to_string()),
        Some("2020-02-02".to_string()),
        None,
        None,
        Some("MIT".to_string()),
    )
    .unwrap();

    let assembled = chit::assemble_package(
        Some("demo".to_string()),
        None,
        Some(5),
        None,
        None,
        None,
        Vec::new(),
        Vec::new(),
        true,
        vec![version],
    )
    .unwrap();
    assert_eq!(assembled.name, "demo");
    assert_eq!(assembled.description, "");
    assert_eq!(assembled.downloads, Some(5));
    assert_eq!(assembled.versions.len(), 1);

    assert!(chit::assemble_package(
        None,
        None,
        None,
        None,
        None,
        None,
        Vec::new(),
        Vec::new(),
        true,
        Vec::new()
    )
    .is_none());
    assert!(chit::assemble_package(
        Some("demo".to_string()),
        None,
        None,
        None,
        None,
        None,
        Vec::new(),
        Vec::new(),
        false,
        Vec::new()
    )
    .is_none());
}
