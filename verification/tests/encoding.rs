use user_service::json::{error_body, user_json, users_json};
use user_service::numbers::{parse_i32, u32_to_dec};
use user_service::text::str_eq;
use user_service::user::User;

#[test]
fn decimal_rendering() {
    assert_eq!(u32_to_dec(0), "0");
    assert_eq!(u32_to_dec(7), "7");
    assert_eq!(u32_to_dec(10), "10");
    assert_eq!(u32_to_dec(409), "409");
    assert_eq!(u32_to_dec(2147483647), "2147483647");
    assert_eq!(u32_to_dec(4294967295), "4294967295");
}

#[test]
fn integer_parsing_accepts_well_formed_ids() {
    assert_eq!(parse_i32("0"), Some(0));
    assert_eq!(parse_i32("999"), Some(999));
    assert_eq!(parse_i32("007"), Some(7));
    assert_eq!(parse_i32("+42"), Some(42));
    assert_eq!(parse_i32("-42"), Some(-42));
    assert_eq!(parse_i32("2147483647"), Some(i32::MAX));
    assert_eq!(parse_i32("-2147483648"), Some(i32::MIN));
}

#[test]
fn integer_parsing_rejects_everything_else() {
    assert_eq!(parse_i32(""), None);
    assert_eq!(parse_i32("+"), None);
    assert_eq!(parse_i32("-"), None);
    assert_eq!(parse_i32("12a"), None);
    assert_eq!(parse_i32("a12"), None);
    assert_eq!(parse_i32("1 2"), None);
    assert_eq!(parse_i32("2147483648"), None);
    assert_eq!(parse_i32("-2147483649"), None);
    assert_eq!(parse_i32("99999999999999999999"), None);
}

#[test]
fn user_object_rendering_matches_the_wire_shape() {
    let u = User { id: 7, name: String::from("Ann") };
    assert_eq!(user_json(&u), "{\"id\":7,\"name\":\"Ann\"}");
}

#[test]
fn string_escaping_round_trips_through_a_json_parser() {
    let name = "a\"b\\c\nd\te\rf\u{8}g\u{c}h\u{1}i\u{1f}j\u{7f}k\u{263A}";
    let u = User { id: 1, name: String::from(name) };
    let body = user_json(&u);
    let parsed: serde_json::Value = serde_json::from_str(&body).unwrap();
    assert_eq!(parsed["name"].as_str().unwrap(), name);
    assert_eq!(parsed["id"].as_i64().unwrap(), 1);
}

#[test]
fn control_characters_use_the_short_and_hex_escapes() {
    let u = User { id: 2, name: String::from("x\u{1}\n\u{1f}") };
    assert_eq!(user_json(&u), "{\"id\":2,\"name\":\"x\\u0001\\n\\u001f\"}");
}

#[test]
fn listing_rendering_is_comma_separated_in_order() {
    assert_eq!(users_json(&Vec::new()), "[]");
    let one = vec![User { id: 1, name: String::from("Alice") }];
    assert_eq!(users_json(&one), "[{\"id\":1,\"name\":\"Alice\"}]");
    let two = vec![
        User { id: 1, name: String::from("Alice") },
        User { id: 2, name: String::from("Bob") },
    ];
    assert_eq!(
        users_json(&two),
        "[{\"id\":1,\"name\":\"Alice\"},{\"id\":2,\"name\":\"Bob\"}]"
    );
}

#[test]
fn error_body_escapes_the_message() {
    assert_eq!(error_body("Not found"), "{\"error\":\"Not found\"}");
    assert_eq!(
        error_body("disk \"full\"\n"),
        "{\"error\":\"disk \\\"full\\\"\\n\"}"
    );
}

#[test]
fn string_equality_by_characters() {
    assert!(str_eq("abc", "abc"));
    assert!(!str_eq("abc", "abd"));
    assert!(!str_eq("abc", "ab"));
    assert!(str_eq("", ""));
    assert!(str_eq("\u{263A}x", "\u{263A}x"));
}
