use users_api::json::{i32_dec, u64_dec, user_json, users_json};
use users_api::model::User;
use users_api::parse::{get_id, parse_i32};
use users_api::service::request_body;

fn user(id: i32, name: &str, email: &str) -> User {
    User { id, name: name.to_string(), email: email.to_string() }
}

#[test]
fn get_id_takes_the_third_segment_of_the_path() {
    assert_eq!(get_id("GET /users/42 HTTP/1.1\r\nHost: x\r\n\r\n"), "42");
    assert_eq!(get_id("DELETE /users/9\r\n"), "9");
    assert_eq!(get_id("PUT /users/123 HTTP/1.1"), "123");
    assert_eq!(get_id("GET /users/7/extra HTTP/1.1"), "7");
}

#[test]
fn get_id_is_empty_when_the_path_has_no_id_segment() {
    // The scan is bounded by the path token, so neither the protocol
    // version nor anything after the path can supply a token.
    assert_eq!(get_id("GET /users HTTP/1.1"), "");
    assert_eq!(get_id("GET /users/ HTTP/1.1"), "");
    assert_eq!(get_id("GET /users/ 5"), "");
    assert_eq!(get_id("no slashes at all"), "");
    assert_eq!(get_id("one/slash only"), "");
}

#[test]
fn parse_i32_accepts_plain_signed_decimals() {
    assert_eq!(parse_i32("0"), Some(0));
    assert_eq!(parse_i32("42"), Some(42));
    assert_eq!(parse_i32("+17"), Some(17));
    assert_eq!(parse_i32("-5"), Some(-5));
    assert_eq!(parse_i32("007"), Some(7));
    assert_eq!(parse_i32("2147483647"), Some(2147483647));
    assert_eq!(parse_i32("-2147483648"), Some(-2147483648));
}

#[test]
fn parse_i32_rejects_what_str_parse_rejects() {
    assert_eq!(parse_i32(""), None);
    assert_eq!(parse_i32("-"), None);
    assert_eq!(parse_i32("+"), None);
    assert_eq!(parse_i32("12a"), None);
    assert_eq!(parse_i32("1.1"), None);
    assert_eq!(parse_i32(" 3"), None);
    assert_eq!(parse_i32("2147483648"), None);
    assert_eq!(parse_i32("-2147483649"), None);
    assert_eq!(parse_i32("00000000000000000001"), Some(1));
    assert_eq!(parse_i32("99999999999999999999"), None);
}

#[test]
fn request_body_is_everything_after_the_first_blank_line() {
    assert_eq!(request_body("POST /users HTTP/1.1\r\nHost: x\r\n\r\n{\"a\":1}"), "{\"a\":1}");
    assert_eq!(request_body("no blank line here"), "no blank line here");
    assert_eq!(request_body("head\r\n\r\n"), "");
    assert_eq!(request_body("head\r\n\r\nbody\r\n\r\ntail"), "body\r\n\r\ntail");
}

#[test]
fn numbers_render_in_decimal() {
    assert_eq!(u64_dec(0), "0");
    assert_eq!(u64_dec(10), "10");
    assert_eq!(u64_dec(90210), "90210");
    assert_eq!(i32_dec(0), "0");
    assert_eq!(i32_dec(2147483647), "2147483647");
    assert_eq!(i32_dec(-1), "-1");
    assert_eq!(i32_dec(-2147483648), "-2147483648");
}

#[test]
fn user_json_escapes_quotes_backslashes_and_controls() {
    let u = user(-3, "a\"b\\c\nd", "tab\there");
    assert_eq!(
        user_json(&u),
        "{\"id\":-3,\"name\":\"a\\\"b\\\\c\\nd\",\"email\":\"tab\\there\"}"
    );
    let v = user(1, "x\u{1}y\u{1f}", "e@x");
    assert_eq!(
        user_json(&v),
        "{\"id\":1,\"name\":\"x\\u0001y\\u001f\",\"email\":\"e@x\"}"
    );
}

#[test]
fn user_json_passes_unicode_text_through() {
    let u = user(2, "Grüße", "ü@x");
    assert_eq!(user_json(&u), "{\"id\":2,\"name\":\"Grüße\",\"email\":\"ü@x\"}");
}

#[test]
fn users_json_joins_rows_with_commas() {
    assert_eq!(users_json(&vec![]), "[]");
    assert_eq!(users_json(&vec![user(1, "A", "a@x")]), "[{\"id\":1,\"name\":\"A\",\"email\":\"a@x\"}]");
    assert_eq!(
        users_json(&vec![user(1, "A", "a@x"), user(2, "B", "b@x"), user(3, "C", "c@x")]),
        "[{\"id\":1,\"name\":\"A\",\"email\":\"a@x\"},{\"id\":2,\"name\":\"B\",\"email\":\"b@x\"},{\"id\":3,\"name\":\"C\",\"email\":\"c@x\"}]"
    );
}
