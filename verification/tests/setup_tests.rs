use survey_tool_cli::setup_check;

#[test]
fn test_setup_all_good() {
    let out = "openjdk 21.0.1 2023-10-17\nOpenJDK Runtime Environment (build 21.0.1+12-29)\n";
    let rep = setup_check("linux", Some(out.to_string()));

    assert!(rep.all_ok);
    assert!(rep.error_list.is_empty());
    assert_eq!(rep.success_list.len(), 3);
    assert_eq!(rep.success_list[0], "Supported operating system found");
    assert_eq!(rep.success_list[1], "Java installation found");
    assert_eq!(
        rep.success_list[2],
        "Installed Java version good. Minimum needed: 21 - found: 21.0.1"
    );
    assert_eq!(rep.all_ok, rep.error_list.is_empty());
}

#[test]
fn test_setup_unsupported_os() {
    let rep = setup_check("macos", None);

    assert!(!rep.all_ok);
    assert_eq!(rep.error_list.len(), 3);
    assert_eq!(
        rep.error_list[0],
        "Only Windows and Linux supported as operating system. Found 'macos'"
    );
    assert_eq!(rep.error_list[1], "Java not found. Please install Java or set JAVA_HOME");
    assert_eq!(rep.error_list[2], "Java not found. Cant check it's version");
    assert!(rep.success_list.is_empty());
    assert_eq!(rep.all_ok, rep.error_list.is_empty());
}

#[test]
fn test_setup_no_java() {
    let rep = setup_check("windows", None);

    assert!(!rep.all_ok);
    assert_eq!(rep.success_list.len(), 1);
    assert_eq!(rep.success_list[0], "Supported operating system found");
    assert_eq!(rep.error_list.len(), 2);
    assert_eq!(rep.error_list[0], "Java not found. Please install Java or set JAVA_HOME");
    assert_eq!(rep.error_list[1], "Java not found. Cant check it's version");
    assert_eq!(rep.all_ok, rep.error_list.is_empty());
}

#[test]
fn test_setup_old_java() {
    let out = "java 17.0.2 2022-01-18 LTS\n";
    let rep = setup_check("linux", Some(out.to_string()));

    assert!(!rep.all_ok);
    assert_eq!(rep.error_list.len(), 1);
    assert_eq!(
        rep.error_list[0],
        "Installed Java version too low. Minimum needed: 21 - found: 17.0.2"
    );
    assert_eq!(rep.success_list.len(), 2);
    assert_eq!(rep.all_ok, rep.error_list.is_empty());
}

#[test]
fn test_setup_huge_version_treated_as_zero() {
    let out = "openjdk 99999999999999999999.0.1 2030-01-01\n";
    let rep = setup_check("linux", Some(out.to_string()));

    assert!(!rep.all_ok);
    assert_eq!(
        rep.error_list[0],
        "Installed Java version too low. Minimum needed: 21 - found: 99999999999999999999.0.1"
    );
    assert_eq!(rep.all_ok, rep.error_list.is_empty());
}

#[test]
fn test_setup_unicode_digits_parse_to_zero() {
    let out = "openjdk \u{0662}\u{0665}.\u{0660}.\u{0661} 2030-01-01\n";
    let rep = setup_check("linux", Some(out.to_string()));

    assert!(!rep.all_ok);
    assert_eq!(rep.error_list.len(), 1);
    assert_eq!(
        rep.error_list[0],
        format!(
            "Installed Java version too low. Minimum needed: 21 - found: {}",
            "\u{0662}\u{0665}.\u{0660}.\u{0661}"
        )
    );
    assert_eq!(rep.all_ok, rep.error_list.is_empty());
}

#[test]
fn test_setup_no_version_in_output() {
    let rep = setup_check("linux", Some("no version text here".to_string()));

    assert!(!rep.all_ok);
    assert_eq!(rep.error_list.len(), 1);
    assert_eq!(rep.error_list[0], "Could not detect any Java version");
    assert_eq!(rep.all_ok, rep.error_list.is_empty());
}
