use survey_tool_cli::check::check_document;
use survey_tool_cli::check::compile_schema;
use survey_tool_cli::check::load_schema;
use survey_tool_cli::check::ConfigError;
use survey_tool_cli::check::SchemaValidator;
use survey_tool_cli::config_check;
use survey_tool_cli::models::result::Violation;
use survey_tool_cli::CheckResult;

fn get_validator() -> SchemaValidator {
    let schema = r#"{
        "$schema": "https://json-schema.org/draft/2020-12/schema",
        "type": "object",
        "properties": {
            "productId": {
                "type": "integer"
            },
            "productName": {
                "type": "string"
            }
        },
        "required": [
            "productId"
        ]
    }"#;
    compile_schema(schema).unwrap()
}

fn parse_instance(text: &str) -> serde_json::Value {
    serde_json::from_str(text).unwrap()
}

#[test]
fn test_one_wrong_config() {
    let instance = parse_instance(r#"{ "productName": "A green door" }"#);

    let result = &mut CheckResult::all_ok();
    check_document(&instance, &get_validator(), result, 0).unwrap();

    assert!(!result.all_ok);
    assert_eq!(result.error_list.len(), 1);
}

#[test]
fn test_two_wrong_config() {
    let instance = parse_instance(r#"{ "productId": "1", "productName": true }"#);

    let result = &mut CheckResult::all_ok();
    check_document(&instance, &get_validator(), result, 0).unwrap();

    assert!(!result.all_ok);
    assert_eq!(result.error_list.len(), 2);
}

#[test]
fn test_right_config() {
    let instance = parse_instance(r#"{ "productId": 1, "productName": "A green door" }"#);

    let result = &mut CheckResult::all_ok();
    check_document(&instance, &get_validator(), result, 0).unwrap();

    assert!(result.all_ok);
    assert_eq!(result.error_list.len(), 0);
}

#[test]
fn test_missing_required_field_names_it() {
    let instance = parse_instance(r#"{ "productName": "A green door" }"#);

    let result = &mut CheckResult::all_ok();
    check_document(&instance, &get_validator(), result, 0).unwrap();

    assert!(result.error_list[0].contains("productId"));
    assert!(result.error_list[0].contains("document 1"));
    assert_eq!(result.all_ok, result.error_list.is_empty());
}

#[test]
fn test_violation_formatting_exact() {
    let v = Violation {
        message: "bad value".to_string(),
        instance_location: "/title".to_string(),
        schema_location: "/properties/title/type".to_string(),
    };
    let mut rep = CheckResult::all_ok();
    rep.record_document_violations(4, &vec![v]);

    assert_eq!(
        rep.error_list[0],
        "bad value (document 5, loc /title - schema /properties/title/type)"
    );
    assert!(!rep.all_ok);
    assert_eq!(rep.all_ok, rep.error_list.is_empty());
}

#[test]
fn test_load_schema_ok() {
    assert!(load_schema().is_ok());
}

#[test]
fn test_compile_schema_rejects_bad_json() {
    let res = compile_schema("not json at all");
    assert!(matches!(res, Err(ConfigError::SchemaLoad(_))));
}

#[test]
fn test_full_config_ok() {
    let yaml = "title: My survey\ndescription: First try\n---\ntitle: Page one\n";
    let rep = config_check(yaml, "survey.yaml").unwrap();

    assert!(rep.all_ok);
    assert!(rep.error_list.is_empty());
    assert!(rep.success_list.is_empty());
    assert_eq!(rep.all_ok, rep.error_list.is_empty());
}

#[test]
fn test_yml_extension_accepted() {
    let yaml = "title: My survey\n---\ntitle: Page one\n";
    let rep = config_check(yaml, "survey.yml").unwrap();

    assert!(rep.all_ok);
    assert_eq!(rep.all_ok, rep.error_list.is_empty());
}

#[test]
fn test_single_document() {
    let rep = config_check("title: Only a header\n", "survey.yaml").unwrap();

    assert!(!rep.all_ok);
    assert_eq!(rep.error_list.len(), 1);
    assert_eq!(
        rep.error_list[0],
        "Found only 1 documents in yaml. At least two (survey header and one page) are needed"
    );
    assert_eq!(rep.all_ok, rep.error_list.is_empty());
}

#[test]
fn test_wrong_extension() {
    let rep = config_check("title: whatever\n---\ntitle: page\n", "survey.txt").unwrap();

    assert!(!rep.all_ok);
    assert_eq!(rep.error_list.len(), 1);
    assert_eq!(rep.error_list[0], "File has no Yaml extension (.yaml or .yml)");
    assert_eq!(rep.all_ok, rep.error_list.is_empty());
}

#[test]
fn test_wrong_extension_skips_parsing() {
    let rep = config_check("title: [broken\n", "survey.json").unwrap();

    assert!(!rep.all_ok);
    assert_eq!(rep.error_list[0], "File has no Yaml extension (.yaml or .yml)");
}

#[test]
fn test_malformed_yaml_is_error() {
    let res = config_check("title: [broken\n", "survey.yaml");

    assert!(matches!(res, Err(ConfigError::Parse(_))));
}

#[test]
fn test_two_violations_same_document() {
    let yaml = "title: Header\n---\ntitle: 5\ndescription: 6\n";
    let rep = config_check(yaml, "survey.yaml").unwrap();

    assert!(!rep.all_ok);
    assert_eq!(rep.error_list.len(), 2);
    assert!(rep.error_list[0].contains("document 2"));
    assert!(rep.error_list[1].contains("document 2"));
    assert_eq!(rep.all_ok, rep.error_list.is_empty());
}

#[test]
fn test_document_ordering_preserved() {
    let yaml = "title: Header\n---\ntitle: Good page\n---\ntitle: 123\n";
    let rep = config_check(yaml, "survey.yaml").unwrap();

    assert!(!rep.all_ok);
    assert_eq!(rep.error_list.len(), 1);
    assert!(rep.error_list[0].contains("document 3"));
    assert_eq!(rep.all_ok, rep.error_list.is_empty());
}
