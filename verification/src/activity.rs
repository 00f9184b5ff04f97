//! Translating a Rich Presence activity from what an RPC client sends to what
//! the client mod's arRPC plugin expects.

use vstd::prelude::*;

use crate::json::{
    get_field, group_json_view, group_json_wf, insert_field, int_json, json_wf, lemma_json_wf_unfold,
    lemma_obj_get_insert_other, lemma_obj_get_insert_same, lemma_obj_get_wf, lemma_view_fields,
    lemma_view_items, obj_get, obj_insert, view_fields, view_items, view_json, Json, JsonNumber,
    JsonV,
};
use crate::text::decimal;

verus! {

broadcast use group_json_view;

/// The current Unix time in milliseconds, when the system clock is past the
/// epoch (`SystemTime::now().duration_since(UNIX_EPOCH)`, then `as_millis`).
/// The value depends on the clock, so nothing is stated of it.
#[verifier::external_body]
pub(crate) fn unix_millis() -> (r: Option<u128>) {
    std::time::SystemTime::now().duration_since(std::time::UNIX_EPOCH).ok().map(|d| d.as_millis())
}

/// The number of decimal digits of `n` (`n.to_string().len()`).
pub fn decimal_len(n: u128) -> (r: usize)
    ensures
        r == decimal(n as nat).len(),
        1 <= r <= 39,
    decreases n,
{
    proof {
        lemma_decimal_len_u128(n as nat);
    }
    if n < 10 {
        1
    } else {
        let r = decimal_len(n / 10);
        r + 1
    }
}

pub open spec fn pow10(k: nat) -> nat
    decreases k,
{
    if k == 0 {
        1
    } else {
        10 * pow10((k - 1) as nat)
    }
}

proof fn lemma_decimal_len_upper(n: nat, k: nat)
    requires
        n < pow10(k),
    ensures
        1 <= decimal(n).len() <= if k == 0 { 1 } else { k },
    decreases n,
{
    if n >= 10 {
        assert(k >= 2) by {
            if k < 2 {
                reveal_with_fuel(pow10, 2);
            }
        }
        assert(n / 10 < pow10((k - 1) as nat));
        lemma_decimal_len_upper(n / 10, (k - 1) as nat);
    }
}

proof fn lemma_decimal_len_u128(n: nat)
    requires
        n <= u128::MAX,
    ensures
        1 <= decimal(n).len() <= 39,
{
    reveal_with_fuel(pow10, 40);
    assert(u128::MAX < pow10(39));
    lemma_decimal_len_upper(n, 39);
}

/// The digit count of a clock reading in milliseconds: the digits of the
/// reading, or 13 when there is none (a clock before the epoch).
pub open spec fn clock_digits_spec(now: Option<u128>) -> int {
    match now {
        Some(ms) => decimal(ms as nat).len() as int,
        None => 13,
    }
}

/// How many digits a clock reading has in milliseconds; 13 when the clock
/// is before the epoch.
pub fn clock_digits(now: Option<u128>) -> (r: usize)
    ensures
        r == clock_digits_spec(now),
        1 <= r <= 39,
{
    match now {
        Some(ms) => decimal_len(ms),
        None => 13,
    }
}

/// How many digits the current time has in milliseconds; 13 when the clock
/// is before the epoch. The reading itself depends on the clock, so only
/// that the count is one a reading can give is stated.
pub fn now_millis_digits() -> (r: usize)
    ensures
        1 <= r <= 39,
        exists|now: Option<u128>| r == clock_digits_spec(now),
{
    let now = unix_millis();
    let r = clock_digits(now);
    assert(r == clock_digits_spec(now));
    r
}

/// A timestamp given in seconds scaled to milliseconds: the value times
/// 1000, held to `u64::MAX`. (The computation goes through `f64`; the two
/// agree while the product is below 2^53.)
pub open spec fn to_millis(n: u64) -> u64 {
    if n * 1000 <= u64::MAX {
        (n * 1000) as u64
    } else {
        u64::MAX
    }
}

/// One timestamp after normalisation: a positive integer with at least three
/// digits fewer than the current time in milliseconds is taken to be in
/// seconds and scaled; anything else is left as it is.
pub open spec fn normalised_stamp(v: JsonV, now_digits: int) -> JsonV {
    match v {
        JsonV::Number(JsonNumber::PosInt(n)) => if n > 0 && decimal(n as nat).len() + 2
            < now_digits {
            JsonV::Number(JsonNumber::PosInt(to_millis(n)))
        } else {
            v
        },
        _ => v,
    }
}

pub open spec fn normalised_stamps(f: Seq<(Seq<char>, JsonV)>, now_digits: int) -> Seq<
    (Seq<char>, JsonV),
> {
    f.map_values(|p: (Seq<char>, JsonV)| (p.0, normalised_stamp(p.1, now_digits)))
}

/// `base` with every field of `f` stored into it, in order.
pub open spec fn insert_all(base: Seq<(Seq<char>, JsonV)>, f: Seq<(Seq<char>, JsonV)>) -> Seq<
    (Seq<char>, JsonV),
>
    decreases f.len(),
{
    if f.len() == 0 {
        base
    } else {
        obj_insert(insert_all(base, f.drop_last()), f.last().0, f.last().1)
    }
}

/// The buttons of an activity, when it has a list of them.
pub open spec fn buttons_of(activity: JsonV) -> Option<Seq<JsonV>> {
    match activity.get("buttons"@) {
        Some(JsonV::Array(b)) => Some(b),
        _ => None,
    }
}

/// The value under `key` of each button, null where a button has none.
pub open spec fn button_parts(buttons: Seq<JsonV>, key: Seq<char>) -> Seq<JsonV> {
    buttons.map_values(|b: JsonV| b.get_or_null(key))
}

/// The fields the translation starts from, before the activity's own fields
/// are copied over them.
pub open spec fn base_fields(activity: JsonV, client_id: Seq<char>) -> Seq<(Seq<char>, JsonV)> {
    let metadata = match buttons_of(activity) {
        Some(b) => obj_insert(
            Seq::empty(),
            "button_urls"@,
            JsonV::Array(button_parts(b, "url"@)),
        ),
        None => Seq::empty(),
    };
    let instance = activity.get("instance"@) == Some(JsonV::Bool(true));
    obj_insert(
        obj_insert(
            obj_insert(
                obj_insert(Seq::empty(), "application_id"@, JsonV::Str(client_id)),
                "type"@,
                int_json(0),
            ),
            "metadata"@,
            JsonV::Object(metadata),
        ),
        "flags"@,
        int_json(
            if instance {
                1
            } else {
                0
            },
        ),
    )
}

/// The activity as the arRPC plugin expects it: the application id, type 0,
/// button URLs under `metadata.button_urls` and an `instance` flag, then
/// every field of the activity itself; timestamps in seconds become
/// milliseconds, and `buttons` becomes the list of labels.
pub open spec fn translated(activity: JsonV, client_id: Seq<char>, now_digits: int) -> JsonV {
    let base = base_fields(activity, client_id);
    let merged = match activity {
        JsonV::Object(f) => insert_all(base, f),
        _ => base,
    };
    let stamped = match obj_get(merged, "timestamps"@) {
        Some(JsonV::Object(ts)) => obj_insert(
            merged,
            "timestamps"@,
            JsonV::Object(normalised_stamps(ts, now_digits)),
        ),
        _ => merged,
    };
    let out = match buttons_of(activity) {
        Some(b) => obj_insert(stamped, "buttons"@, JsonV::Array(button_parts(b, "label"@))),
        None => stamped,
    };
    JsonV::Object(out)
}

fn normalise_stamp(v: &Json, now_digits: usize) -> (r: Json)
    ensures
        r@ == normalised_stamp(v@, now_digits as int),
{
    match v {
        Json::Number(JsonNumber::PosInt(n)) => {
            let n = *n;
            if n > 0 && decimal_len(n as u128) + 2 < now_digits {
                let m = if n <= 18446744073709551u64 {
                    n * 1000
                } else {
                    0xffff_ffff_ffff_ffffu64
                };
                Json::Number(JsonNumber::PosInt(m))
            } else {
                v.clone()
            }
        },
        _ => v.clone(),
    }
}

/// Scales the timestamps of an activity that are given in seconds.
pub fn normalise_timestamps(ts: &Vec<(String, Json)>, now_digits: usize) -> (r: Vec<
    (String, Json),
>)
    ensures
        view_fields(r@) == normalised_stamps(view_fields(ts@), now_digits as int),
{
    let mut out: Vec<(String, Json)> = Vec::new();
    let mut i: usize = 0;
    while i < ts.len()
        invariant
            i <= ts@.len(),
            out@.len() == i,
            forall|j: int|
                0 <= j < i ==> (#[trigger] out@[j]).0@ == ts@[j].0@ && view_json(out@[j].1)
                    == normalised_stamp(view_json(ts@[j].1), now_digits as int),
        decreases ts@.len() - i,
    {
        let k = ts[i].0.clone();
        let v = normalise_stamp(&ts[i].1, now_digits);
        out.push((k, v));
        i = i + 1;
    }
    proof {
        lemma_view_fields(out@);
        lemma_view_fields(ts@);
    }
    assert(view_fields(out@) =~= normalised_stamps(view_fields(ts@), now_digits as int));
    out
}

fn button_values(buttons: &Vec<Json>, key: &str) -> (r: Vec<Json>)
    ensures
        view_items(r@) == button_parts(view_items(buttons@), key@),
{
    let mut out: Vec<Json> = Vec::new();
    let mut i: usize = 0;
    while i < buttons.len()
        invariant
            i <= buttons@.len(),
            out@.len() == i,
            forall|j: int|
                0 <= j < i ==> view_json(#[trigger] out@[j]) == view_json(buttons@[j]).get_or_null(
                    key@,
                ),
        decreases buttons@.len() - i,
    {
        let v = buttons[i].get_or_null(key);
        out.push(v);
        i = i + 1;
    }
    proof {
        lemma_view_items(out@);
        lemma_view_items(buttons@);
    }
    assert(view_items(out@) =~= button_parts(view_items(buttons@), key@));
    out
}

/// Copies every field of `f` into `out`, in order.
fn insert_fields(out: &mut Vec<(String, Json)>, f: &Vec<(String, Json)>)
    ensures
        view_fields(final(out)@) == insert_all(view_fields(old(out)@), view_fields(f@)),
{
    let ghost base = view_fields(out@);
    let mut i: usize = 0;
    while i < f.len()
        invariant
            i <= f@.len(),
            view_fields(out@) == insert_all(base, view_fields(f@).take(i as int)),
            base == view_fields(old(out)@),
        decreases f@.len() - i,
    {
        proof {
            lemma_view_fields(f@);
        }
        let ghost before = view_fields(f@).take(i as int);
        insert_field(out, f[i].0.as_str(), f[i].1.clone());
        i = i + 1;
        assert(view_fields(f@).take(i as int).drop_last() =~= before);
    }
    assert(view_fields(f@).take(f@.len() as int) =~= view_fields(f@));
}

/// [`translate_activity`] at a given length of the current time in
/// milliseconds.
pub fn translate_activity_at(activity: &Json, client_id: &str, now_digits: usize) -> (r: Json)
    ensures
        r@ == translated(activity@, client_id@, now_digits as int),
        json_wf(activity@) ==> json_wf(r@),
{
    proof {
        if json_wf(activity@) {
            lemma_translated_keeps_wf(activity@, client_id@, now_digits as int);
        }
    }
    let mut out: Vec<(String, Json)> = Vec::new();
    insert_field(&mut out, "application_id", Json::string(client_id));
    insert_field(&mut out, "type", Json::integer(0));

    let mut metadata: Vec<(String, Json)> = Vec::new();
    let mut labels: Option<Vec<Json>> = None;
    proof {
        lemma_view_fields(metadata@);
    }
    assert(view_fields(metadata@) =~= Seq::<(Seq<char>, JsonV)>::empty());
    match activity.get("buttons") {
        Some(b) => match b.as_array() {
            Some(buttons) => {
                let urls = button_values(buttons, "url");
                insert_field(&mut metadata, "button_urls", Json::Array(urls));
                labels = Some(button_values(buttons, "label"));
            },
            None => {},
        },
        None => {},
    }
    insert_field(&mut out, "metadata", Json::Object(metadata));

    let instance = match activity.get("instance") {
        Some(v) => match v.as_bool() {
            Some(b) => b,
            None => false,
        },
        None => false,
    };
    insert_field(
        &mut out,
        "flags",
        Json::integer(
            if instance {
                1
            } else {
                0
            },
        ),
    );
    proof {
        lemma_view_fields(Seq::<(String, Json)>::empty());
    }
    assert(view_fields(out@) == base_fields(activity@, client_id@));

    match activity {
        Json::Object(f) => insert_fields(&mut out, f),
        _ => {},
    }

    let stamps = match get_field(&out, "timestamps") {
        Some(ts) => match ts.as_object() {
            Some(fields) => Some(normalise_timestamps(fields, now_digits)),
            None => None,
        },
        None => None,
    };
    match stamps {
        Some(fields) => insert_field(&mut out, "timestamps", Json::Object(fields)),
        None => {},
    }

    match labels {
        Some(l) => insert_field(&mut out, "buttons", Json::Array(l)),
        None => {},
    }
    Json::Object(out)
}

proof fn lemma_button_parts_wf(b: Seq<JsonV>, key: Seq<char>)
    requires
        json_wf(JsonV::Array(b)),
    ensures
        json_wf(JsonV::Array(button_parts(b, key))),
{
    broadcast use group_json_wf;

    let p = button_parts(b, key);
    lemma_json_wf_unfold(JsonV::Array(b));
    lemma_json_wf_unfold(JsonV::Array(p));
    assert forall|i: int| 0 <= i < p.len() implies json_wf(#[trigger] p[i]) by {
        assert(json_wf(b[i]));
        assert(p[i] == b[i].get_or_null(key));
    }
}

proof fn lemma_buttons_wf(activity: JsonV)
    requires
        json_wf(activity),
    ensures
        buttons_of(activity) matches Some(b) ==> json_wf(JsonV::Array(b)),
{
    if let JsonV::Object(f) = activity {
        lemma_obj_get_wf(f, "buttons"@);
    }
}

proof fn lemma_insert_all_wf(base: Seq<(Seq<char>, JsonV)>, f: Seq<(Seq<char>, JsonV)>)
    requires
        json_wf(JsonV::Object(base)),
        forall|i: int| 0 <= i < f.len() ==> json_wf(#[trigger] f[i].1),
    ensures
        json_wf(JsonV::Object(insert_all(base, f))),
    decreases f.len(),
{
    broadcast use group_json_wf;

    if f.len() > 0 {
        assert forall|i: int| 0 <= i < f.drop_last().len() implies json_wf(
            #[trigger] f.drop_last()[i].1,
        ) by {
            assert(f.drop_last()[i] == f[i]);
        }
        lemma_insert_all_wf(base, f.drop_last());
        assert(json_wf(f[f.len() - 1].1));
    }
}

proof fn lemma_normalised_stamps_wf(ts: Seq<(Seq<char>, JsonV)>, d: int)
    requires
        json_wf(JsonV::Object(ts)),
    ensures
        json_wf(JsonV::Object(normalised_stamps(ts, d))),
{
    let n = normalised_stamps(ts, d);
    assert forall|i: int, j: int| 0 <= i < j < n.len() implies #[trigger] n[i].0
        != #[trigger] n[j].0 by {
        assert(ts[i].0 != ts[j].0);
    }
    assert forall|i: int| 0 <= i < n.len() implies json_wf(#[trigger] n[i].1) by {
        assert(json_wf(ts[i].1));
    }
}

/// The translation of a well-formed activity is well formed: its objects
/// keep distinct keys.
pub proof fn lemma_translated_keeps_wf(activity: JsonV, client_id: Seq<char>, d: int)
    requires
        json_wf(activity),
    ensures
        json_wf(translated(activity, client_id, d)),
{
    broadcast use group_json_wf;

    lemma_buttons_wf(activity);
    let metadata = match buttons_of(activity) {
        Some(b) => {
            lemma_button_parts_wf(b, "url"@);
            lemma_button_parts_wf(b, "label"@);
            obj_insert(Seq::empty(), "button_urls"@, JsonV::Array(button_parts(b, "url"@)))
        },
        None => Seq::empty(),
    };
    assert(json_wf(JsonV::Object(Seq::<(Seq<char>, JsonV)>::empty())));
    assert(json_wf(JsonV::Object(metadata)));
    let base = base_fields(activity, client_id);
    assert(json_wf(JsonV::Object(base)));
    let merged = match activity {
        JsonV::Object(f) => insert_all(base, f),
        _ => base,
    };
    if let JsonV::Object(f) = activity {
        lemma_insert_all_wf(base, f);
    }
    lemma_obj_get_wf(merged, "timestamps"@);
    if let Some(JsonV::Object(ts)) = obj_get(merged, "timestamps"@) {
        lemma_normalised_stamps_wf(ts, d);
    }
}

/// Rewrites an activity for the arRPC plugin, judging timestamps against the
/// current time.
pub fn translate_activity(activity: &Json, client_id: &str) -> (r: Json)
    ensures
        exists|d: int| 1 <= d <= 39 && r@ == translated(activity@, client_id@, d),
        json_wf(activity@) ==> json_wf(r@),
{
    let d = now_millis_digits();
    translate_activity_at(activity, client_id, d)
}

} // verus!

verus! {

/// The value the client gave under `k`: the last field with that key, as
/// copying the fields in order leaves it.
pub open spec fn last_get(f: Seq<(Seq<char>, JsonV)>, k: Seq<char>) -> Option<JsonV>
    decreases f.len(),
{
    if f.len() == 0 {
        None
    } else if f.last().0 == k {
        Some(f.last().1)
    } else {
        last_get(f.drop_last(), k)
    }
}

proof fn lemma_insert_all_get(base: Seq<(Seq<char>, JsonV)>, f: Seq<(Seq<char>, JsonV)>, k: Seq<char>)
    ensures
        obj_get(insert_all(base, f), k) == match last_get(f, k) {
            Some(v) => Some(v),
            None => obj_get(base, k),
        },
    decreases f.len(),
{
    if f.len() > 0 {
        lemma_insert_all_get(base, f.drop_last(), k);
        let x = insert_all(base, f.drop_last());
        if f.last().0 == k {
            lemma_obj_get_insert_same(x, k, f.last().1);
        } else {
            lemma_obj_get_insert_other(x, f.last().0, f.last().1, k);
        }
    }
}

proof fn lemma_field_names_differ()
    ensures
        "application_id"@ != "type"@,
        "application_id"@ != "metadata"@,
        "application_id"@ != "flags"@,
        "application_id"@ != "buttons"@,
        "application_id"@ != "timestamps"@,
        "type"@ != "metadata"@,
        "type"@ != "flags"@,
        "type"@ != "buttons"@,
        "type"@ != "timestamps"@,
        "metadata"@ != "flags"@,
        "metadata"@ != "buttons"@,
        "metadata"@ != "timestamps"@,
        "flags"@ != "buttons"@,
        "flags"@ != "timestamps"@,
        "buttons"@ != "timestamps"@,
{
    reveal_strlit("application_id");
    reveal_strlit("type");
    reveal_strlit("metadata");
    reveal_strlit("flags");
    reveal_strlit("buttons");
    reveal_strlit("timestamps");
    assert("application_id"@.len() == 14);
    assert("type"@.len() == 4);
    assert("metadata"@.len() == 8);
    assert("flags"@.len() == 5);
    assert("buttons"@.len() == 7);
    assert("timestamps"@.len() == 10);
}

proof fn lemma_last_get_field(f: Seq<(Seq<char>, JsonV)>, k: Seq<char>)
    ensures
        last_get(f, k) matches Some(v) ==> exists|i: int| 0 <= i < f.len() && #[trigger] f[i] == (k, v),
        last_get(f, k) is None ==> forall|i: int| 0 <= i < f.len() ==> (#[trigger] f[i]).0 != k,
    decreases f.len(),
{
    if f.len() > 0 {
        let p = f.drop_last();
        lemma_last_get_field(p, k);
        if f.last().0 == k {
            assert(f[f.len() - 1] == (k, f.last().1));
        } else {
            if let Some(v) = last_get(p, k) {
                let i = choose|i: int| 0 <= i < p.len() && #[trigger] p[i] == (k, v);
                assert(f[i] == (k, v));
            } else {
                assert forall|i: int| 0 <= i < f.len() implies (#[trigger] f[i]).0 != k by {
                    if i < f.len() - 1 {
                        assert(p[i] == f[i]);
                    }
                }
            }
        }
    }
}

/// In a well-formed object, as serde_json hands every activity over, the
/// last field with a key and the first are the same field.
pub proof fn lemma_wf_last_get(f: Seq<(Seq<char>, JsonV)>, k: Seq<char>)
    requires
        json_wf(JsonV::Object(f)),
    ensures
        last_get(f, k) == obj_get(f, k),
{
    lemma_last_get_field(f, k);
    crate::json::lemma_obj_get_found(f, k);
    if let Some(v) = last_get(f, k) {
        let i = choose|i: int| 0 <= i < f.len() && #[trigger] f[i] == (k, v);
        crate::json::lemma_wf_get_is_the_field(f, i);
    } else if let Some(x) = obj_get(f, k) {
        let i = choose|i: int| 0 <= i < f.len() && #[trigger] f[i] == (k, x);
        assert(f[i].0 != k);
    }
}

/// Where a key of the translated activity gets its value: `buttons` and
/// `timestamps` are rewritten, every other key holds what the client sent,
/// and only keys the client left out take the translation's defaults. For a
/// well-formed activity what the client sent under a key is its value there.
pub proof fn lemma_translated_get(activity: JsonV, client_id: Seq<char>, d: int, k: Seq<char>)
    requires
        activity is Object,
    ensures
        ({
            let f = activity->Object_0;
            let base = base_fields(activity, client_id);
            let sent = match last_get(f, k) {
                Some(v) => Some(v),
                None => obj_get(base, k),
            };
            translated(activity, client_id, d).get(k) == if k == "buttons"@ && buttons_of(
                activity,
            ) is Some {
                Some(JsonV::Array(button_parts(buttons_of(activity).unwrap(), "label"@)))
            } else if k == "timestamps"@ && sent matches Some(JsonV::Object(ts)) {
                Some(JsonV::Object(normalised_stamps(sent.unwrap()->Object_0, d)))
            } else {
                sent
            }
        }),
        json_wf(activity) ==> last_get(activity->Object_0, k) == activity.get(k),
{
    if json_wf(activity) {
        lemma_wf_last_get(activity->Object_0, k);
    }
    let f = activity->Object_0;
    let base = base_fields(activity, client_id);
    let merged = insert_all(base, f);
    lemma_insert_all_get(base, f, k);
    lemma_insert_all_get(base, f, "timestamps"@);
    let stamped = match obj_get(merged, "timestamps"@) {
        Some(JsonV::Object(ts)) => obj_insert(
            merged,
            "timestamps"@,
            JsonV::Object(normalised_stamps(ts, d)),
        ),
        _ => merged,
    };
    match obj_get(merged, "timestamps"@) {
        Some(JsonV::Object(ts)) => {
            if k == "timestamps"@ {
                lemma_obj_get_insert_same(merged, "timestamps"@, JsonV::Object(normalised_stamps(ts, d)));
            } else {
                lemma_obj_get_insert_other(merged, "timestamps"@, JsonV::Object(normalised_stamps(ts, d)), k);
            }
        },
        _ => {},
    }
    lemma_field_names_differ();
    match buttons_of(activity) {
        Some(b) => {
            if k == "buttons"@ {
                lemma_obj_get_insert_same(stamped, "buttons"@, JsonV::Array(button_parts(b, "label"@)));
            } else {
                lemma_obj_get_insert_other(stamped, "buttons"@, JsonV::Array(button_parts(b, "label"@)), k);
            }
        },
        None => {},
    }
}

/// The defaults the translation starts from: the application id is the
/// client's id, the type is 0, the flags record `instance`, and the
/// metadata holds the buttons' URLs.
pub proof fn lemma_base_fields(activity: JsonV, client_id: Seq<char>)
    ensures
        obj_get(base_fields(activity, client_id), "application_id"@) == Some(JsonV::Str(client_id)),
        obj_get(base_fields(activity, client_id), "type"@) == Some(int_json(0)),
        obj_get(base_fields(activity, client_id), "flags"@) == Some(
            int_json(
                if activity.get("instance"@) == Some(JsonV::Bool(true)) {
                    1
                } else {
                    0
                },
            ),
        ),
        obj_get(base_fields(activity, client_id), "metadata"@) == Some(
            JsonV::Object(
                match buttons_of(activity) {
                    Some(b) => obj_insert(
                        Seq::empty(),
                        "button_urls"@,
                        JsonV::Array(button_parts(b, "url"@)),
                    ),
                    None => Seq::empty(),
                },
            ),
        ),
{
    lemma_field_names_differ();
    let metadata = match buttons_of(activity) {
        Some(b) => obj_insert(
            Seq::empty(),
            "button_urls"@,
            JsonV::Array(button_parts(b, "url"@)),
        ),
        None => Seq::empty(),
    };
    let instance = activity.get("instance"@) == Some(JsonV::Bool(true));
    let f0 = Seq::<(Seq<char>, JsonV)>::empty();
    let f1 = obj_insert(f0, "application_id"@, JsonV::Str(client_id));
    let f2 = obj_insert(f1, "type"@, int_json(0));
    let f3 = obj_insert(f2, "metadata"@, JsonV::Object(metadata));
    let fl = int_json(
        if instance {
            1
        } else {
            0
        },
    );
    lemma_obj_get_insert_same(f0, "application_id"@, JsonV::Str(client_id));
    lemma_obj_get_insert_other(f1, "type"@, int_json(0), "application_id"@);
    lemma_obj_get_insert_same(f1, "type"@, int_json(0));
    lemma_obj_get_insert_other(f2, "metadata"@, JsonV::Object(metadata), "application_id"@);
    lemma_obj_get_insert_other(f2, "metadata"@, JsonV::Object(metadata), "type"@);
    lemma_obj_get_insert_same(f2, "metadata"@, JsonV::Object(metadata));
    lemma_obj_get_insert_other(f3, "flags"@, fl, "application_id"@);
    lemma_obj_get_insert_other(f3, "flags"@, fl, "type"@);
    lemma_obj_get_insert_other(f3, "flags"@, fl, "metadata"@);
    lemma_obj_get_insert_same(f3, "flags"@, fl);
}

proof fn lemma_decimal_len_lower(n: nat, k: nat)
    requires
        n >= pow10(k),
    ensures
        decimal(n).len() > k,
    decreases k,
{
    if k > 0 {
        assert(n >= 10) by {
            lemma_pow10_ge_one((k - 1) as nat);
        }
        assert(n / 10 >= pow10((k - 1) as nat));
        lemma_decimal_len_lower(n / 10, (k - 1) as nat);
    } else {
        lemma_decimal_nonempty(n);
    }
}

proof fn lemma_decimal_nonempty(n: nat)
    ensures
        decimal(n).len() >= 1,
    decreases n,
{
    if n >= 10 {
        lemma_decimal_nonempty(n / 10);
    }
}

proof fn lemma_pow10_ge_one(k: nat)
    ensures
        pow10(k) >= 1,
    decreases k,
{
    if k > 0 {
        lemma_pow10_ge_one((k - 1) as nat);
    }
}

/// With today's clocks (13 digits of milliseconds), a positive timestamp of
/// at most ten digits is in seconds and becomes milliseconds; one of eleven
/// digits or more is already in milliseconds and is kept.
pub proof fn lemma_seconds_become_millis(n: u64)
    requires
        n > 0,
    ensures
        n < 10_000_000_000 ==> normalised_stamp(JsonV::Number(JsonNumber::PosInt(n)), 13)
            == JsonV::Number(JsonNumber::PosInt((n * 1000) as u64)),
        n >= 10_000_000_000 ==> normalised_stamp(JsonV::Number(JsonNumber::PosInt(n)), 13)
            == JsonV::Number(JsonNumber::PosInt(n)),
{
    reveal_with_fuel(pow10, 11);
    if n < 10_000_000_000 {
        lemma_decimal_len_upper(n as nat, 10);
    } else {
        lemma_decimal_len_lower(n as nat, 10);
    }
}

/// Every timestamp of a well-formed activity is judged the same way,
/// whatever its key: the translated `timestamps` object has the activity's
/// keys in the same order, each with its value normalised.
pub proof fn lemma_every_timestamp_normalised(
    activity: JsonV,
    client_id: Seq<char>,
    d: int,
    ts: Seq<(Seq<char>, JsonV)>,
)
    requires
        json_wf(activity),
        activity.get("timestamps"@) == Some(JsonV::Object(ts)),
    ensures
        translated(activity, client_id, d).get("timestamps"@) matches Some(JsonV::Object(t)) && t.len()
            == ts.len() && forall|i: int|
            0 <= i < ts.len() ==> #[trigger] t[i] == (ts[i].0, normalised_stamp(ts[i].1, d)),
{
    reveal_strlit("timestamps");
    reveal_strlit("buttons");
    assert("timestamps"@ != "buttons"@) by {
        assert("timestamps"@.len() != "buttons"@.len());
    }
    lemma_translated_get(activity, client_id, d, "timestamps"@);
    lemma_wf_last_get(activity->Object_0, "timestamps"@);
    let n = normalised_stamps(ts, d);
    assert(translated(activity, client_id, d).get("timestamps"@) == Some(JsonV::Object(n)));
    assert forall|i: int| 0 <= i < ts.len() implies #[trigger] n[i] == (
        ts[i].0,
        normalised_stamp(ts[i].1, d),
    ) by {}
}

} // verus!
