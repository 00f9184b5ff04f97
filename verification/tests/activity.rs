use palladium::activity::{clock_digits, translate_activity, translate_activity_at};
use palladium::json::{Json, JsonNumber};

fn obj(fields: Vec<(&str, Json)>) -> Json {
    Json::Object(fields.into_iter().map(|(k, v)| (k.to_string(), v)).collect())
}

fn field<'a>(j: &'a Json, key: &str) -> &'a Json {
    j.get(key).unwrap_or_else(|| panic!("no field {key}"))
}

#[test]
fn seconds_timestamps_are_promoted_to_millis() {
    let activity = obj(vec![
        ("details", Json::string("in a match")),
        ("timestamps", obj(vec![("start", Json::uint(1_700_000_000))])),
    ]);
    let out = translate_activity(&activity, "123");
    assert_eq!(
        field(field(&out, "timestamps"), "start"),
        &Json::uint(1_700_000_000_000)
    );
}

#[test]
fn millisecond_timestamps_are_left_alone() {
    let activity = obj(vec![(
        "timestamps",
        obj(vec![("start", Json::uint(1_700_000_000_000))]),
    )]);
    let out = translate_activity(&activity, "123");
    assert_eq!(
        field(field(&out, "timestamps"), "start"),
        &Json::uint(1_700_000_000_000)
    );
}

#[test]
fn buttons_split_into_labels_and_metadata_urls() {
    let activity = obj(vec![(
        "buttons",
        Json::Array(vec![obj(vec![
            ("label", Json::string("Website")),
            ("url", Json::string("https://example.com")),
        ])]),
    )]);
    let out = translate_activity(&activity, "123");
    assert_eq!(field(&out, "buttons"), &Json::Array(vec![Json::string("Website")]));
    assert_eq!(
        field(field(&out, "metadata"), "button_urls"),
        &Json::Array(vec![Json::string("https://example.com")])
    );
}

#[test]
fn client_id_becomes_the_application_id() {
    let out = translate_activity(&obj(vec![("details", Json::string("hi"))]), "999");
    assert_eq!(field(&out, "application_id"), &Json::string("999"));
    assert_eq!(field(&out, "type"), &Json::integer(0));
    assert_eq!(field(&out, "details"), &Json::string("hi"));
}

#[test]
fn instance_flag_is_set() {
    let out = translate_activity(&obj(vec![("instance", Json::Bool(true))]), "1");
    assert_eq!(field(&out, "flags"), &Json::integer(1));
}

#[test]
fn without_instance_the_flags_are_zero() {
    let out = translate_activity(&obj(vec![("instance", Json::Bool(false))]), "1");
    assert_eq!(field(&out, "flags"), &Json::integer(0));
}

#[test]
fn timestamps_are_judged_against_the_clock_length() {
    // With a 13-digit clock, ten digits are seconds and eleven are not.
    let activity = obj(vec![(
        "timestamps",
        obj(vec![
            ("start", Json::uint(9_999_999_999)),
            ("end", Json::uint(10_000_000_000)),
            ("zero", Json::uint(0)),
            ("negative", Json::integer(-5)),
        ]),
    )]);
    let out = translate_activity_at(&activity, "1", 13);
    let ts = field(&out, "timestamps");
    assert_eq!(field(ts, "start"), &Json::uint(9_999_999_999_000));
    assert_eq!(field(ts, "end"), &Json::uint(10_000_000_000));
    assert_eq!(field(ts, "zero"), &Json::uint(0));
    assert_eq!(field(ts, "negative"), &Json::Number(JsonNumber::NegInt(-5)));
}

#[test]
fn huge_second_counts_saturate() {
    let activity = obj(vec![("timestamps", obj(vec![("start", Json::uint(u64::MAX / 10))]))]);
    let out = translate_activity_at(&activity, "1", 39);
    assert_eq!(field(field(&out, "timestamps"), "start"), &Json::uint(u64::MAX));
}

#[test]
fn the_clients_own_fields_win_over_defaults() {
    let activity = obj(vec![
        ("type", Json::uint(2)),
        ("application_id", Json::string("custom")),
    ]);
    let out = translate_activity(&activity, "999");
    assert_eq!(field(&out, "type"), &Json::uint(2));
    assert_eq!(field(&out, "application_id"), &Json::string("custom"));
}

#[test]
fn buttons_without_fields_give_nulls() {
    let activity = obj(vec![("buttons", Json::Array(vec![Json::string("not an object")]))]);
    let out = translate_activity(&activity, "1");
    assert_eq!(field(&out, "buttons"), &Json::Array(vec![Json::Null]));
    assert_eq!(
        field(field(&out, "metadata"), "button_urls"),
        &Json::Array(vec![Json::Null])
    );
}

#[test]
fn a_non_object_activity_gets_only_the_defaults() {
    let out = translate_activity(&Json::string("x"), "7");
    assert_eq!(field(&out, "application_id"), &Json::string("7"));
    assert_eq!(field(&out, "metadata"), &Json::empty_object());
    assert!(out.get("buttons").is_none());
}

#[test]
fn clock_readings_give_their_digit_counts() {
    assert_eq!(clock_digits(Some(1_700_000_000_000)), 13);
    assert_eq!(clock_digits(Some(0)), 1);
    assert_eq!(clock_digits(Some(u128::MAX)), 39);
    assert_eq!(clock_digits(None), 13);
}
