use gitwise::grouping::{
    check_groups, is_known, validate_grouping, GroupingResult, ValidationError,
};

fn paths(names: &[&str]) -> Vec<String> {
    names.iter().map(|n| n.to_string()).collect()
}

fn groups(names: &[&[&str]]) -> Vec<Vec<String>> {
    names.iter().map(|g| paths(g)).collect()
}

fn malformed(response: &str) -> ValidationError {
    ValidationError::MalformedResponse { response: response.to_string() }
}

fn unknown(path: &str, response: &str) -> ValidationError {
    ValidationError::UnknownFileInGroup { path: path.to_string(), response: response.to_string() }
}

#[test]
fn two_groups_of_known_files_validate() {
    let response = r#"[["x.rs","y.rs"],["z.rs"]]"#;
    let result = validate_grouping(response, &paths(&["x.rs", "y.rs", "z.rs"])).unwrap();
    assert_eq!(result.len(), 2);
    assert_eq!(result.groups, groups(&[&["x.rs", "y.rs"], &["z.rs"]]));
}

#[test]
fn a_file_that_is_not_among_the_changes_is_named() {
    let response = r#"[["x.rs","q.rs"]]"#;
    let verdict = validate_grouping(response, &paths(&["x.rs", "y.rs"]));
    assert_eq!(verdict, Err(unknown("q.rs", response)));
}

#[test]
fn the_first_unknown_file_in_reading_order_is_the_one_named() {
    let known = paths(&["a", "b"]);
    let response = r#"[["a","b"],["a","u1","u2"],["u3"]]"#;
    assert_eq!(validate_grouping(response, &known), Err(unknown("u1", response)));
    let response = r#"[[],["a"],["b","u3"],["u1"]]"#;
    assert_eq!(validate_grouping(response, &known), Err(unknown("u3", response)));
}

#[test]
fn text_that_is_not_json_is_malformed() {
    let known = paths(&["x.rs"]);
    for response in ["", "x.rs", "Here are the groups: [[\"x.rs\"]]", "[[\"x.rs\"]", "[['x.rs']]"] {
        assert_eq!(validate_grouping(response, &known), Err(malformed(response)));
    }
}

#[test]
fn json_of_another_shape_is_malformed() {
    let known = paths(&["x.rs"]);
    for response in [
        "null",
        "{}",
        "\"x.rs\"",
        "[\"x.rs\"]",
        "[[1]]",
        "[[\"x.rs\", null]]",
        "[[[\"x.rs\"]]]",
        "{\"groups\": [[\"x.rs\"]]}",
        "[[\"x.rs\"]] trailing",
        "[[\"x.rs\"]][[\"x.rs\"]]",
    ] {
        assert_eq!(validate_grouping(response, &known), Err(malformed(response)));
    }
}

#[test]
fn blanks_around_the_document_are_json_too() {
    let response = " \n[ [ \"x.rs\" ] ,\n  [ ] ]\n";
    let result = validate_grouping(response, &paths(&["x.rs"])).unwrap();
    assert_eq!(result.groups, groups(&[&["x.rs"], &[]]));
}

#[test]
fn escapes_in_strings_are_decoded_before_the_check() {
    let response = r#"[["dir\\file \"a\".rs","é.txt"]]"#;
    let known = paths(&["dir\\file \"a\".rs", "\u{e9}.txt"]);
    let result = validate_grouping(response, &known).unwrap();
    assert_eq!(result.groups, vec![known.clone()]);
}

#[test]
fn no_groups_at_all_validate() {
    assert_eq!(validate_grouping("[]", &paths(&["x.rs"])), Ok(GroupingResult { groups: vec![] }));
    assert_eq!(validate_grouping("[]", &vec![]), Ok(GroupingResult::empty()));
    assert_eq!(GroupingResult::empty().len(), 0);
}

#[test]
fn nothing_is_known_when_there_are_no_changes() {
    let response = r#"[["x.rs"]]"#;
    assert_eq!(validate_grouping(response, &vec![]), Err(unknown("x.rs", response)));
}

#[test]
fn repeated_and_missing_paths_pass_through() {
    let known = paths(&["a", "b", "c"]);
    let response = r#"[["a","a"],["a"]]"#;
    let result = validate_grouping(response, &known).unwrap();
    assert_eq!(result.groups, groups(&[&["a", "a"], &["a"]]));
}

#[test]
fn paths_are_matched_exactly() {
    let known = paths(&["src/lib.rs"]);
    for response in [r#"[["src/Lib.rs"]]"#, r#"[["./src/lib.rs"]]"#, r#"[["src/lib.rs "]]"#, r#"[[""]]"#] {
        assert!(matches!(
            validate_grouping(response, &known),
            Err(ValidationError::UnknownFileInGroup { .. })
        ));
    }
}

#[test]
fn a_validated_result_holds_known_paths_only() {
    let known = paths(&["a", "b", "c", "d"]);
    for response in [r#"[["a","b","c","d"]]"#, r#"[["d"],["c"],["b"],["a"]]"#, r#"[["b","b"],[]]"#] {
        let result = validate_grouping(response, &known).unwrap();
        for group in &result.groups {
            for path in group {
                assert!(known.contains(path));
            }
        }
    }
}

#[test]
fn check_groups_hands_known_groups_back_unchanged() {
    let given = groups(&[&["b"], &[], &["a", "b"]]);
    let verdict = check_groups(given.clone(), &paths(&["a", "b"]), "raw");
    assert_eq!(verdict, Ok(GroupingResult { groups: given }));
}

#[test]
fn check_groups_reports_the_raw_answer_with_the_path() {
    let verdict = check_groups(groups(&[&["a", "zz"]]), &paths(&["a"]), "the raw answer");
    assert_eq!(verdict, Err(unknown("zz", "the raw answer")));
    assert_eq!(verdict.unwrap_err().response(), "the raw answer");
}

#[test]
fn is_known_looks_the_path_up() {
    let known = paths(&["a.rs", "b.rs", "a.rs"]);
    assert!(is_known(&known, &"a.rs".to_string()));
    assert!(is_known(&known, &"b.rs".to_string()));
    assert!(!is_known(&known, &"c.rs".to_string()));
    assert!(!is_known(&vec![], &"a.rs".to_string()));
}

#[test]
fn messages_end_with_the_raw_answer() {
    assert_eq!(
        malformed("not json").message(),
        "Failed to parse AI response as JSON array of file groups. Response was: not json"
    );
    assert_eq!(malformed("not json").response(), "not json");
    assert_eq!(
        unknown("q.rs", "[[\"q.rs\"]]").message(),
        "AI response groups a file that is not among the changes: q.rs. Response was: [[\"q.rs\"]]"
    );
}
