use sunrise_sunset::json::JsonValue;
use sunrise_sunset::transform_payload;

fn s(x: &str) -> String {
    x.to_string()
}

fn text(x: &str) -> JsonValue {
    JsonValue::Text(x.to_string())
}

#[test]
fn converts_all_eight_fields_and_keeps_extras() {
    let results = vec![
        (s("date"), text("2024-01-01")),
        (s("sunrise"), text("07:15:00 AM")),
        (s("sunset"), text("05:30:00 PM")),
        (s("first_light"), text("05:58:00 AM")),
        (s("last_light"), text("06:47:00 PM")),
        (s("dawn"), text("06:27:00 AM")),
        (s("dusk"), text("06:18:00 PM")),
        (s("solar_noon"), text("12:22:00 PM")),
        (s("golden_hour"), text("04:56:00 PM")),
        (s("timezone"), text("UTC")),
    ];
    let doc = JsonValue::Obj(vec![
        (s("results"), JsonValue::Obj(results)),
        (s("status"), text("OK")),
    ]);
    let expected_results = vec![
        (s("date"), text("2024-01-01")),
        (s("sunrise"), text("07:15:00")),
        (s("sunset"), text("17:30:00")),
        (s("first_light"), text("05:58:00")),
        (s("last_light"), text("18:47:00")),
        (s("dawn"), text("06:27:00")),
        (s("dusk"), text("18:18:00")),
        (s("solar_noon"), text("12:22:00")),
        (s("golden_hour"), text("16:56:00")),
        (s("timezone"), text("UTC")),
    ];
    let expected = JsonValue::Obj(vec![
        (s("results"), JsonValue::Obj(expected_results)),
        (s("status"), text("OK")),
    ]);
    assert_eq!(transform_payload(doc), expected);
}

fn doc_without_results() -> JsonValue {
    JsonValue::Obj(vec![
        (s("status"), text("OK")),
        (s("note"), text("07:15:00 AM")),
    ])
}

#[test]
fn document_without_results_comes_back_unchanged() {
    assert_eq!(transform_payload(doc_without_results()), doc_without_results());
}

#[test]
fn non_object_document_comes_back_unchanged() {
    let out = transform_payload(JsonValue::Arr(vec![text("07:15:00 AM")]));
    assert_eq!(out, JsonValue::Arr(vec![text("07:15:00 AM")]));
}

#[test]
fn malformed_time_field_becomes_null() {
    let doc = JsonValue::Obj(vec![(
        s("results"),
        JsonValue::Obj(vec![
            (s("sunrise"), text("notatime")),
            (s("sunset"), text("05:30:00 PM")),
        ]),
    )]);
    let expected = JsonValue::Obj(vec![(
        s("results"),
        JsonValue::Obj(vec![
            (s("sunrise"), JsonValue::Null),
            (s("sunset"), text("17:30:00")),
        ]),
    )]);
    assert_eq!(transform_payload(doc), expected);
}

fn doc_with_numeric_sunrise() -> JsonValue {
    JsonValue::Obj(vec![(
        s("results"),
        JsonValue::Obj(vec![(s("sunrise"), JsonValue::Num(s("5")))]),
    )])
}

#[test]
fn non_string_time_field_is_left_alone() {
    assert_eq!(
        transform_payload(doc_with_numeric_sunrise()),
        doc_with_numeric_sunrise()
    );
}
