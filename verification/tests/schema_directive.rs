use crsql::schema_directive::{
    can_parse_directives, is_truthy, parse_directives, read_flag, read_skip_hash_directive_opt,
};

#[test]
fn test_parse_directives_basic() {
    let sql = "CREATE TABLE foo /* crsql: skip_hash=1, use_rowid_key=0 */ (id INTEGER PRIMARY KEY, x TEXT)";
    let directives = parse_directives(sql);
    assert_eq!(directives.get("skip_hash"), Some(&"1".to_string()));
    assert_eq!(directives.get("use_rowid_key"), Some(&"0".to_string()));
}

#[test]
fn test_parse_directives_case_insensitive_prefix() {
    let sql = "CREATE TABLE foo /* CRSQL: skip_hash=1 */ (id INTEGER PRIMARY KEY)";
    let directives = parse_directives(sql);
    assert_eq!(directives.get("skip_hash"), Some(&"1".to_string()));
}

#[test]
fn test_parse_directives_no_directive() {
    let sql = "CREATE TABLE foo (id INTEGER PRIMARY KEY, x TEXT)";
    let directives = parse_directives(sql);
    assert!(directives.is_empty());
}

#[test]
fn test_parse_directives_non_crsql_comment() {
    let sql = "CREATE TABLE foo /* just a comment */ (id INTEGER PRIMARY KEY)";
    let directives = parse_directives(sql);
    assert!(directives.is_empty());
}

#[test]
fn test_parse_directives_multiple_comments() {
    let sql = "CREATE TABLE foo /* some comment */ /* crsql: skip_hash=1 */ (id INTEGER PRIMARY KEY)";
    let directives = parse_directives(sql);
    assert_eq!(directives.get("skip_hash"), Some(&"1".to_string()));
}

#[test]
fn test_parse_directives_true_value() {
    let sql = "CREATE TABLE foo /* crsql: skip_hash=true */ (id BLOB PRIMARY KEY)";
    let directives = parse_directives(sql);
    assert_eq!(directives.get("skip_hash"), Some(&"true".to_string()));
    assert!(is_truthy(directives.get("skip_hash").unwrap()));
}

#[test]
fn test_parse_directives_false_value() {
    let sql = "CREATE TABLE foo /* crsql: skip_hash=0 */ (id INTEGER PRIMARY KEY)";
    let directives = parse_directives(sql);
    assert_eq!(directives.get("skip_hash"), Some(&"0".to_string()));
    assert!(!is_truthy(directives.get("skip_hash").unwrap()));
}

#[test]
fn test_parse_directives_empty_value() {
    let sql = "CREATE TABLE foo /* crsql: skip_hash= */ (id INTEGER PRIMARY KEY)";
    let directives = parse_directives(sql);
    // Empty value — key exists but value is empty, not truthy
    assert_eq!(directives.get("skip_hash"), Some(&"".to_string()));
    assert!(!is_truthy(directives.get("skip_hash").unwrap()));
}

#[test]
fn test_parse_directives_with_spaces() {
    let sql = "CREATE TABLE foo /* crsql:  skip_hash = 1  ,  use_rowid_key = 1  */ (id INTEGER PRIMARY KEY)";
    let directives = parse_directives(sql);
    assert_eq!(directives.get("skip_hash"), Some(&"1".to_string()));
    assert_eq!(directives.get("use_rowid_key"), Some(&"1".to_string()));
}

#[test]
fn test_parse_directives_unterminated_comment() {
    let sql = "CREATE TABLE foo /* crsql: skip_hash=1 (id INTEGER PRIMARY KEY)";
    let directives = parse_directives(sql);
    assert!(directives.is_empty()); // unterminated → no directives
}

#[test]
fn test_is_truthy() {
    assert!(is_truthy("1"));
    assert!(is_truthy("true"));
    assert!(is_truthy("TRUE"));
    assert!(is_truthy("on"));
    assert!(is_truthy("yes"));
    assert!(is_truthy("On"));
    assert!(!is_truthy("0"));
    assert!(!is_truthy("false"));
    assert!(!is_truthy(""));
    assert!(!is_truthy("random"));
}

#[test]
fn names_are_in_lower_case_and_the_last_value_stays() {
    let d = parse_directives("/*crsql:SKIP_Hash=1,ÄB= X y ,skip_hash=Off*/ t /* crsql: b */ /*crsql:a=1=2*/");
    assert_eq!(d.get("skip_hash"), Some(&"Off".to_string()));
    assert_eq!(d.get("SKIP_Hash"), None);
    assert_eq!(d.get("äb"), Some(&"X y".to_string()));
    assert_eq!(d.get("b"), None);
    assert_eq!(d.get("a"), Some(&"1=2".to_string()));
    assert!(!d.is_empty());
}

#[test]
fn white_space_of_any_kind_is_trimmed() {
    let d = parse_directives("/*\u{3000}\tcrsql:\u{a0}k\u{2003}=\n v \u{85}*/");
    assert_eq!(d.get("k"), Some(&"v".to_string()));
}

#[test]
fn a_comment_that_shares_its_star_cannot_be_parsed() {
    assert!(!can_parse_directives("t /*/ crsql: a=1 */"));
    assert!(can_parse_directives("t /**/ /* crsql: a=1 */"));
    assert!(can_parse_directives("/* open"));
    // Behind an open comment nothing is read.
    assert!(can_parse_directives(""));
}

#[test]
fn flags_of_a_definition() {
    let sql = "CREATE TABLE t /* crsql: skip_hash=YES, use_rowid=0 */ (a)";
    assert_eq!(read_skip_hash_directive_opt(Some(sql)), Some(true));
    assert_eq!(read_flag(Some(sql), "use_rowid"), Some(false));
    assert_eq!(read_flag(Some(sql), "nope"), None);
    assert_eq!(read_skip_hash_directive_opt(None), None);
    assert_eq!(read_skip_hash_directive_opt(Some("CREATE TABLE t (a)")), None);
}
