use lambda_sidecar::jsonfmt::escape_json_fragment;
use lambda_sidecar::jsonfmt::str_eq;
use lambda_sidecar::jsonfmt::u64_to_string;

#[test]
fn decimal_rendering() {
    assert_eq!(u64_to_string(0), "0");
    assert_eq!(u64_to_string(7), "7");
    assert_eq!(u64_to_string(10), "10");
    assert_eq!(u64_to_string(42), "42");
    assert_eq!(u64_to_string(2000000000), "2000000000");
    assert_eq!(u64_to_string(u64::MAX), "18446744073709551615");
}

#[test]
fn escaping_leaves_plain_text_alone() {
    assert_eq!(escape_json_fragment("plain text"), "plain text");
    assert_eq!(escape_json_fragment(""), "");
}

#[test]
fn escaping_quotes_and_backslashes() {
    assert_eq!(escape_json_fragment("a\"b\\c"), "a\\\"b\\\\c");
}

#[test]
fn escaping_named_controls() {
    assert_eq!(escape_json_fragment("\n\t\r"), "\\n\\t\\r");
    assert_eq!(escape_json_fragment("\u{8}\u{c}"), "\\b\\f");
}

#[test]
fn escaping_other_controls_as_four_digits() {
    assert_eq!(escape_json_fragment("\u{1}"), "\\u0001");
    assert_eq!(escape_json_fragment("\u{1f}"), "\\u001f");
}

#[test]
fn escaped_output_parses_back() {
    let raw = "line\nwith \"quotes\" and \\slashes\\ and \u{1f} control";
    let mut json = String::from("\"");
    json.push_str(&escape_json_fragment(raw));
    json.push('"');
    let v: serde_json::Value = serde_json::from_str(&json).unwrap();
    assert_eq!(v.as_str().unwrap(), raw);
}

#[test]
fn str_eq_behaves_like_equality() {
    assert!(str_eq("abc", "abc"));
    assert!(!str_eq("abc", "abd"));
    assert!(!str_eq("a", "ab"));
    assert!(str_eq("", ""));
    assert!(str_eq("héllo wörld", "héllo wörld"));
    assert!(!str_eq("héllo", "hello"));
}
