use crsql::text::{decimal, decimal_usize, eq_ignore_case, find, find_pair, from_chars, join, same, to_chars, trim};

#[test]
fn decimals() {
    assert_eq!(decimal(0), "0");
    assert_eq!(decimal(-7), "-7");
    assert_eq!(decimal(1205), "1205");
    assert_eq!(decimal(i64::MAX), i64::MAX.to_string());
    assert_eq!(decimal(i64::MIN), i64::MIN.to_string());
    assert_eq!(decimal_usize(usize::MAX), usize::MAX.to_string());
}

#[test]
fn joining() {
    let parts = ["a".to_string(), "b".to_string(), "".to_string()];
    assert_eq!(join(&parts, ", "), "a, b, ");
    assert_eq!(join(&[], ", "), "");
    assert_eq!(from_chars(&to_chars("h\u{e9}llo")), "h\u{e9}llo");
    assert!(same("abc", "abc"));
    assert!(!same("abc", "abd"));
    assert!(!same("abc", "ab"));
}

#[test]
fn searching() {
    let s = to_chars("  a=b -- c*/ ");
    assert_eq!(from_chars(trim(&s)), "a=b -- c*/");
    assert_eq!(find(&s, '='), Some(3));
    assert_eq!(find(&s, 'z'), None);
    assert_eq!(find_pair(&s, '*', '/'), Some(10));
    assert_eq!(find_pair(&s, '/', '*'), None);
    assert!(eq_ignore_case(&to_chars("TrUe"), &to_chars("true")));
    assert!(!eq_ignore_case(&to_chars("true"), &to_chars("yes")));
}
