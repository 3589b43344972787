use recording_session::codes::{generate_code, CODE_LENGTH};
use recording_session::detector::is_complete;
use recording_session::request::{parse_count, router, Route};
use recording_session::text::same_text;

#[test]
fn routes_answer_to_their_path_and_method() {
    assert_eq!(router("/create-session", "POST"), Route::CreateSession);
    assert_eq!(router("/add-buffer", "POST"), Route::AddBuffer);
    assert_eq!(router("/get-session", "GET"), Route::GetSession);
    assert_eq!(router("/subscribe-guest", "GET"), Route::SubscribeGuest);
    assert_eq!(router("/set-finished", "POST"), Route::SetFinished);
}

#[test]
fn wrong_method_is_no_route() {
    assert_eq!(router("/create-session", "GET"), Route::Invalid);
    assert_eq!(router("/add-buffer", "GET"), Route::Invalid);
    assert_eq!(router("/get-session", "POST"), Route::Invalid);
    assert_eq!(router("/subscribe-guest", "POST"), Route::Invalid);
    assert_eq!(router("/set-finished", "GET"), Route::Invalid);
    assert_eq!(router("/set-finished", "post"), Route::Invalid);
    assert_eq!(router("/set-finished", "PUT"), Route::Invalid);
}

#[test]
fn unknown_path_is_no_route() {
    assert_eq!(router("/", "GET"), Route::Invalid);
    assert_eq!(router("", ""), Route::Invalid);
    assert_eq!(router("/get-session/", "GET"), Route::Invalid);
    assert_eq!(router("/GET-SESSION", "GET"), Route::Invalid);
    assert_eq!(router("get-session", "GET"), Route::Invalid);
}

#[test]
fn counts_are_read_in_decimal() {
    assert_eq!(parse_count("0"), Some(0));
    assert_eq!(parse_count("2"), Some(2));
    assert_eq!(parse_count("10"), Some(10));
    assert_eq!(parse_count("007"), Some(7));
    assert_eq!(parse_count("4096"), Some(4096));
}

#[test]
fn largest_count_is_read_and_the_next_is_not() {
    let largest = usize::MAX.to_string();
    assert_eq!(parse_count(&largest), Some(usize::MAX));
    let mut beyond = (usize::MAX / 10).to_string();
    beyond.push_str(&format!("{}", usize::MAX % 10 + 1));
    assert_eq!(parse_count(&beyond), None);
    assert_eq!(parse_count("99999999999999999999999999999999999999999999"), None);
    assert_eq!(parse_count("00000000000000000000000000000000000000000012"), Some(12));
}

#[test]
fn text_that_is_no_count_is_refused() {
    assert_eq!(parse_count(""), None);
    assert_eq!(parse_count(" 2"), None);
    assert_eq!(parse_count("2 "), None);
    assert_eq!(parse_count("+2"), None);
    assert_eq!(parse_count("-2"), None);
    assert_eq!(parse_count("2a"), None);
    assert_eq!(parse_count("two"), None);
    assert_eq!(parse_count("1.5"), None);
    assert_eq!(parse_count("/"), None);
    assert_eq!(parse_count(":"), None);
    assert_eq!(parse_count("\u{662}"), None);
    assert_eq!(parse_count("1\u{e9}"), None);
}

#[test]
fn same_text_compares_whole_texts() {
    assert!(same_text("", ""));
    assert!(same_text("ABCD1234", "ABCD1234"));
    assert!(!same_text("ABCD1234", "ABCD1235"));
    assert!(!same_text("ABCD1234", "ABCD123"));
    assert!(!same_text("ABCD123", "ABCD1234"));
    assert!(!same_text("abcd1234", "ABCD1234"));
    assert!(same_text("caf\u{e9}", "caf\u{e9}"));
    assert!(!same_text("caf\u{e9}", "cafe"));
}

#[test]
fn completion_is_equality_of_the_counters() {
    assert!(is_complete(0, 0));
    assert!(is_complete(3, 3));
    assert!(!is_complete(2, 3));
    assert!(!is_complete(4, 3));
    assert!(!is_complete(1, 0));
    assert!(is_complete(usize::MAX, usize::MAX));
}

#[test]
fn generated_codes_have_the_shape_of_a_code() {
    let alphabet = "1234567890ABCDEFGHIJKLMNOPQRSTUVWXYZ";
    assert_eq!(CODE_LENGTH, 8);
    let mut seen: Vec<String> = Vec::new();
    for _ in 0..100 {
        let code = generate_code();
        assert_eq!(code.chars().count(), CODE_LENGTH);
        assert!(code.chars().all(|c| alphabet.contains(c)));
        seen.push(code);
    }
    seen.sort();
    seen.dedup();
    assert!(seen.len() > 1);
}
