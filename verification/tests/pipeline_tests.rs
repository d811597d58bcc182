use sunrise_sunset::model::DecodeError;
use sunrise_sunset::pipeline::{process_body, process_fetched, StageError};

fn mock_body() -> String {
    "{\"results\":{\"date\":\"2024-01-01\",\"sunrise\":\"07:15:00 AM\",\"sunset\":\"05:30:00 PM\",\"first_light\":\"05:58:00 AM\",\"last_light\":\"06:47:00 PM\",\"dawn\":\"06:27:00 AM\",\"dusk\":\"06:18:00 PM\",\"solar_noon\":\"12:22:00 PM\",\"golden_hour\":\"04:56:00 PM\",\"day_length\":\"10:14:36\",\"timezone\":\"UTC\",\"utc_offset\":0},\"status\":\"OK\"}".to_string()
}

#[test]
fn end_to_end_output_holds_normalized_times() {
    let (resp, out) = process_body(&mock_body()).expect("decodes");
    assert_eq!(resp.results.sunrise, "07:15:00");
    assert_eq!(resp.results.sunset, "17:30:00");
    assert_eq!(resp.results.date, "2024-01-01");
    assert_eq!(resp.results.timezone, "UTC");
    assert_eq!(resp.results.utc_offset, 0);
    assert_eq!(resp.status, "OK");
    assert!(out.contains("sunrise = \"07:15:00\""));
    assert!(out.contains("sunset = \"17:30:00\""));
    assert!(out.contains("[results]"));
    assert!(out.contains("utc_offset = 0"));
}

#[test]
fn rendered_output_parses_as_a_structured_document() {
    let (_, out) = process_body(&mock_body()).expect("decodes");
    let doc: toml::Value = toml::from_str(&out).expect("well-formed output");
    assert_eq!(
        doc["results"]["sunrise"].as_str(),
        Some("07:15:00")
    );
    assert_eq!(doc["results"]["utc_offset"].as_integer(), Some(0));
    assert_eq!(doc["status"].as_str(), Some("OK"));
}

#[test]
fn fetch_failure_yields_fetch_error_and_no_document() {
    let r = process_fetched(Err("connection refused".to_string()));
    match r {
        Err(StageError::Fetch(m)) => assert_eq!(m, "connection refused"),
        _ => panic!("expected a fetch error"),
    }
}

#[test]
fn fetched_body_is_processed() {
    let r = process_fetched(Ok(mock_body()));
    assert!(r.is_ok());
}

#[test]
fn invalid_body_reports_invalid_document() {
    match process_body("not json") {
        Err(e) => assert_eq!(e, DecodeError::InvalidDocument),
        Ok(_) => panic!("expected an error"),
    }
}

#[test]
fn missing_field_reports_incompatible_shape() {
    let body = "{\"results\":{\"date\":\"2024-01-01\"},\"status\":\"OK\"}";
    match process_body(body) {
        Err(e) => assert_eq!(e, DecodeError::IncompatibleShape),
        Ok(_) => panic!("expected an error"),
    }
}

#[test]
fn fractional_offset_reports_incompatible_shape() {
    let body = mock_body().replace("\"utc_offset\":0", "\"utc_offset\":0.5");
    match process_body(&body) {
        Err(e) => assert_eq!(e, DecodeError::IncompatibleShape),
        Ok(_) => panic!("expected an error"),
    }
}

#[test]
fn negative_offset_is_decoded_and_rendered() {
    let body = mock_body().replace("\"utc_offset\":0", "\"utc_offset\":-3600");
    let (resp, out) = process_body(&body).expect("decodes");
    assert_eq!(resp.results.utc_offset, -3600);
    assert!(out.contains("utc_offset = -3600"));
}

#[test]
fn quotes_in_values_are_escaped() {
    let body = mock_body().replace("\"timezone\":\"UTC\"", "\"timezone\":\"U\\\"TC\"");
    let (resp, out) = process_body(&body).expect("decodes");
    assert_eq!(resp.results.timezone, "U\"TC");
    assert!(out.contains("timezone = \"U\\\"TC\""));
}
