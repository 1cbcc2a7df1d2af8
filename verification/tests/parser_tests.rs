use jj_bridge::error::JJError;
use jj_bridge::parser::JJParser;

fn valid_commit_text() -> &'static str {
    r#"{
        "change_id": "abc",
        "commit_id": "def",
        "author": {"name": "A", "email": "a@x", "timestamp": "t1"},
        "committer": {"name": "B", "email": "b@x", "timestamp": "t2"},
        "description": "d",
        "branches": ["main"],
        "tags": [],
        "is_working_copy": true
    }"#
}

fn parse_error_message(e: JJError) -> String {
    match e {
        JJError::ParseError(m) => m,
        other => panic!("expected a parse error, got {:?}", other),
    }
}

#[test]
fn scenario_single_valid_commit() {
    let text = r#"[{"change_id":"abc","commit_id":"def","author":{"name":"A","email":"a@x","timestamp":"t1"},"committer":{"name":"A","email":"a@x","timestamp":"t1"},"description":"d","branches":["main"],"tags":[],"is_working_copy":true}]"#;
    let json: serde_json::Value = serde_json::from_str(text).unwrap();
    let commits = JJParser::parse_log(&json).unwrap();
    assert_eq!(commits.len(), 1);
    let c = &commits[0];
    assert_eq!(c.change_id, "abc");
    assert_eq!(c.commit_id, "def");
    assert_eq!(c.author.name, "A");
    assert_eq!(c.author.email, "a@x");
    assert_eq!(c.author.timestamp, "t1");
    assert_eq!(c.committer.name, "A");
    assert_eq!(c.description, "d");
    assert_eq!(c.branches, vec!["main".to_string()]);
    assert!(c.tags.is_empty());
    assert!(c.is_working_copy);
}

#[test]
fn scenario_missing_commit_id_names_it() {
    let json: serde_json::Value = serde_json::from_str(r#"[{"change_id":"abc"}]"#).unwrap();
    let err = JJParser::parse_log(&json).unwrap_err();
    let msg = parse_error_message(err);
    assert_eq!(msg, "Missing or invalid field: commit_id");
}

#[test]
fn parse_log_preserves_count_and_order() {
    let one = valid_commit_text();
    let text = format!(
        "[{},{},{}]",
        one,
        one.replace("\"abc\"", "\"second\""),
        one.replace("\"abc\"", "\"third\"")
    );
    let json: serde_json::Value = serde_json::from_str(&text).unwrap();
    let commits = JJParser::parse_log(&json).unwrap();
    assert_eq!(commits.len(), 3);
    assert_eq!(commits[0].change_id, "abc");
    assert_eq!(commits[1].change_id, "second");
    assert_eq!(commits[2].change_id, "third");
}

#[test]
fn parse_log_rejects_non_array() {
    let json: serde_json::Value = serde_json::from_str("{}").unwrap();
    let msg = parse_error_message(JJParser::parse_log(&json).unwrap_err());
    assert_eq!(msg, "Expected array of commits");
}

#[test]
fn parse_log_is_all_or_nothing() {
    let text = format!("[{},{{\"change_id\":\"x\"}}]", valid_commit_text());
    let json: serde_json::Value = serde_json::from_str(&text).unwrap();
    let msg = parse_error_message(JJParser::parse_log(&json).unwrap_err());
    assert_eq!(msg, "Missing or invalid field: commit_id");
}

#[test]
fn removing_each_required_field_names_it() {
    for key in ["change_id", "commit_id", "description", "author", "committer"] {
        let mut json: serde_json::Value = serde_json::from_str(valid_commit_text()).unwrap();
        json.as_object_mut().unwrap().remove(key);
        let msg = parse_error_message(JJParser::parse_commit(&json).unwrap_err());
        assert_eq!(msg, format!("Missing or invalid field: {}", key));
    }
}

#[test]
fn removing_each_author_field_names_its_path() {
    for outer in ["author", "committer"] {
        for sub in ["name", "email", "timestamp"] {
            let mut json: serde_json::Value = serde_json::from_str(valid_commit_text()).unwrap();
            json.as_object_mut().unwrap().get_mut(outer).unwrap().as_object_mut().unwrap().remove(
                sub,
            );
            let msg = parse_error_message(JJParser::parse_commit(&json).unwrap_err());
            assert_eq!(msg, format!("Missing or invalid field: {}.{}", outer, sub));
        }
    }
}

#[test]
fn mistyped_required_field_names_it() {
    let mut json: serde_json::Value = serde_json::from_str(valid_commit_text()).unwrap();
    let num: serde_json::Value = serde_json::from_str("7").unwrap();
    json.as_object_mut().unwrap().insert("description".to_string(), num);
    let msg = parse_error_message(JJParser::parse_commit(&json).unwrap_err());
    assert_eq!(msg, "Missing or invalid field: description");
}

#[test]
fn omitted_branches_and_tags_default_to_empty() {
    let mut json: serde_json::Value = serde_json::from_str(valid_commit_text()).unwrap();
    json.as_object_mut().unwrap().remove("branches");
    json.as_object_mut().unwrap().remove("tags");
    let c = JJParser::parse_commit(&json).unwrap();
    assert!(c.branches.is_empty());
    assert!(c.tags.is_empty());
}

#[test]
fn mistyped_branches_default_to_empty() {
    let mut json: serde_json::Value = serde_json::from_str(valid_commit_text()).unwrap();
    let wrong: serde_json::Value = serde_json::from_str("\"main\"").unwrap();
    json.as_object_mut().unwrap().insert("branches".to_string(), wrong);
    let c = JJParser::parse_commit(&json).unwrap();
    assert!(c.branches.is_empty());
}

#[test]
fn omitted_or_mistyped_working_copy_defaults_to_false() {
    let mut json: serde_json::Value = serde_json::from_str(valid_commit_text()).unwrap();
    json.as_object_mut().unwrap().remove("is_working_copy");
    assert!(!JJParser::parse_commit(&json).unwrap().is_working_copy);

    let mut json: serde_json::Value = serde_json::from_str(valid_commit_text()).unwrap();
    let wrong: serde_json::Value = serde_json::from_str("\"yes\"").unwrap();
    json.as_object_mut().unwrap().insert("is_working_copy".to_string(), wrong);
    assert!(!JJParser::parse_commit(&json).unwrap().is_working_copy);
}

#[test]
fn non_object_commit_is_rejected() {
    let json: serde_json::Value = serde_json::from_str("[42]").unwrap();
    let msg = parse_error_message(JJParser::parse_log(&json).unwrap_err());
    assert_eq!(msg, "Expected commit object");
}

#[test]
fn get_string_returns_the_stored_text() {
    let json: serde_json::Value =
        serde_json::from_str(r#"{"k":"stored value","n":3}"#).unwrap();
    let obj = json.as_object().unwrap();
    assert_eq!(JJParser::get_string(obj, "k").unwrap(), "stored value");
    let msg = parse_error_message(JJParser::get_string(obj, "n").unwrap_err());
    assert_eq!(msg, "Missing or invalid field: n");
    let msg = parse_error_message(JJParser::get_string(obj, "absent").unwrap_err());
    assert_eq!(msg, "Missing or invalid field: absent");
}

#[test]
fn get_string_array_keeps_string_elements_in_order() {
    let json: serde_json::Value =
        serde_json::from_str(r#"{"a":["x",1,"y",null,"z"],"b":3}"#).unwrap();
    let obj = json.as_object().unwrap();
    assert_eq!(
        JJParser::get_string_array(obj, "a").unwrap(),
        vec!["x".to_string(), "y".to_string(), "z".to_string()]
    );
    let msg = parse_error_message(JJParser::get_string_array(obj, "b").unwrap_err());
    assert_eq!(msg, "Missing or invalid array: b");
}

#[test]
fn parse_author_requires_all_three_fields() {
    let json: serde_json::Value =
        serde_json::from_str(r#"{"name":"N","email":"E","timestamp":"T"}"#).unwrap();
    let a = JJParser::parse_author(Some(&json), "author").unwrap();
    assert_eq!(a.name, "N");
    assert_eq!(a.email, "E");
    assert_eq!(a.timestamp, "T");
    let msg = parse_error_message(JJParser::parse_author(None, "committer").unwrap_err());
    assert_eq!(msg, "Missing or invalid field: committer");
}

#[test]
fn parse_bookmarks_reads_records() {
    let text = r#"[
        {"name":"main","target":"rev1","is_tracking":true,"remote":"origin"},
        {"name":"local","target":"rev2"}
    ]"#;
    let json: serde_json::Value = serde_json::from_str(text).unwrap();
    let bs = JJParser::parse_bookmarks(&json).unwrap();
    assert_eq!(bs.len(), 2);
    assert_eq!(bs[0].name, "main");
    assert_eq!(bs[0].target, "rev1");
    assert!(bs[0].is_tracking);
    assert_eq!(bs[0].remote.as_deref(), Some("origin"));
    assert_eq!(bs[1].name, "local");
    assert!(!bs[1].is_tracking);
    assert!(bs[1].remote.is_none());
}

#[test]
fn parse_bookmarks_requires_name_and_target() {
    let json: serde_json::Value = serde_json::from_str(r#"[{"name":"main"}]"#).unwrap();
    let msg = parse_error_message(JJParser::parse_bookmarks(&json).unwrap_err());
    assert_eq!(msg, "Missing or invalid field: target");

    let json: serde_json::Value = serde_json::from_str(r#"{"a":1}"#).unwrap();
    let msg = parse_error_message(JJParser::parse_bookmarks(&json).unwrap_err());
    assert_eq!(msg, "Expected array of bookmarks");
}
