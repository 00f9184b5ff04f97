use palladium::json::Json;
use palladium::window::splash_error_script;
use palladium::mods::{after_response, after_send_error, asset_url, assets, body_usable, conditional_tag, AssetStep, EtagStore};
use palladium::text::{
    ascii_lowercase, decimal_string, ends_with, is_blank, parse_i64, replace, starts_with,
};

#[test]
fn integers_parse_as_rust_parses_them() {
    for s in ["0", "1", "-1", "+7", "007", "9223372036854775807", "-9223372036854775808", "", "-", "+", "1a", " 1", "9223372036854775808", "-9223372036854775809", "99999999999999999999999", "+-1"] {
        assert_eq!(parse_i64(s), s.parse::<i64>().ok(), "{s:?}");
    }
}

#[test]
fn decimals_and_blanks() {
    assert_eq!(decimal_string(0), "0");
    assert_eq!(decimal_string(u64::MAX), u64::MAX.to_string());
    assert!(is_blank(""));
    assert!(is_blank(" \t\u{3000}\u{a0}"));
    assert!(!is_blank(" x "));
}

#[test]
fn prefixes_suffixes_and_replacement() {
    assert!(starts_with("WebRTCFoo", "WebRTC"));
    assert!(!starts_with("Web", "WebRTC"));
    assert!(ends_with("a.discord.com", ".discord.com"));
    assert!(!ends_with("discord.com", ".discord.com"));
    assert_eq!(replace("aXXbXXXc", "XX", "-"), "a-b-Xc");
    assert_eq!(replace("none", "XX", "-"), "none");
    assert_eq!(ascii_lowercase("Content-TYPE é"), "content-type é");
}

#[test]
fn json_string_literals_escape_what_must_be() {
    let literal = |s: &str| {
        let script = splash_error_script(s);
        let inner = script
            .strip_prefix("window.palladiumError && window.palladiumError(")
            .and_then(|rest| rest.strip_suffix(')'))
            .expect("the script wraps one literal");
        inner.to_string()
    };
    assert_eq!(literal("a\"b\\c\n\t\u{1}/é"), "\"a\\\"b\\\\c\\n\\t\\u0001/é\"");
    assert_eq!(literal(""), "\"\"");
    assert_eq!(literal("\u{8}\u{c}\r\u{1f}"), "\"\\b\\f\\r\\u001f\"");
}

#[test]
fn json_objects_keep_one_value_per_key() {
    let mut fields = Vec::new();
    palladium::json::insert_field(&mut fields, "a", Json::uint(1));
    palladium::json::insert_field(&mut fields, "b", Json::uint(2));
    palladium::json::insert_field(&mut fields, "a", Json::uint(3));
    assert_eq!(fields.len(), 2);
    let o = Json::Object(fields);
    assert_eq!(o.get("a"), Some(&Json::uint(3)));
    assert_eq!(o.get("c"), None);
    assert_eq!(o.clone(), o);
    assert_eq!(Json::uint(u64::MAX).as_i64(), None);
    assert_eq!(Json::integer(-3).as_i64(), Some(-3));
}

#[test]
fn mod_assets_and_cache_rules() {
    assert_eq!(assets(), ["browser.js", "browser.css"]);
    assert_eq!(asset_url("https://x/y", "browser.js"), "https://x/y/browser.js");
    let mut tags = EtagStore::new();
    tags.insert("browser.js", "\"abc\"");
    assert_eq!(conditional_tag(false, &tags, "browser.js", true), Some("\"abc\"".to_string()));
    assert_eq!(conditional_tag(true, &tags, "browser.js", true), None);
    assert_eq!(conditional_tag(false, &tags, "browser.js", false), None);
    assert_eq!(conditional_tag(false, &tags, "browser.css", true), None);
    assert_eq!(after_response(304, false), AssetStep::UpToDate);
    assert_eq!(after_response(200, false), AssetStep::Store);
    assert_eq!(after_response(404, true), AssetStep::UseCached);
    assert_eq!(after_response(500, false), AssetStep::Fail);
    assert_eq!(after_send_error(true), AssetStep::UseCached);
    assert!(!body_usable("  \n"));
    assert!(body_usable("x"));
}
