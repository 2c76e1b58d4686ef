use session_pipeline::text::join_with_comma;
use session_pipeline::text::split_cookie_header;
use session_pipeline::text::u64_to_string;

#[test]
fn decimal_rendering() {
    assert_eq!(u64_to_string(0), "0");
    assert_eq!(u64_to_string(7), "7");
    assert_eq!(u64_to_string(10), "10");
    assert_eq!(u64_to_string(86_400), "86400");
    assert_eq!(u64_to_string(u64::MAX), "18446744073709551615");
}

#[test]
fn splitting_a_cookie_header() {
    assert_eq!(split_cookie_header("a=1; b=2; c=3"), vec!["a=1", "b=2", "c=3"]);
    assert_eq!(split_cookie_header("single=1"), vec!["single=1"]);
    assert_eq!(split_cookie_header(""), vec![""]);
    // A semicolon without the following space does not separate.
    assert_eq!(split_cookie_header("a=1;b=2"), vec!["a=1;b=2"]);
    // An empty fragment between separators is preserved.
    assert_eq!(split_cookie_header("a=1; ; b=2"), vec!["a=1", "", "b=2"]);
}

#[test]
fn joining_with_commas() {
    assert_eq!(join_with_comma(&vec![]), "");
    assert_eq!(join_with_comma(&vec!["x".to_string()]), "x");
    assert_eq!(
        join_with_comma(&vec!["x".to_string(), "y".to_string(), "z".to_string()]),
        "x,y,z"
    );
    assert_eq!(join_with_comma(&vec!["".to_string(), "".to_string()]), ",");
}
