use sunrise_sunset::convert_to_24_hour;

#[test]
fn am_hours_keep_their_value() {
    assert_eq!(
        convert_to_24_hour("07:15:00 AM"),
        Some("07:15:00".to_string())
    );
    assert_eq!(convert_to_24_hour("1:05:09 AM"), Some("01:05:09".to_string()));
    assert_eq!(
        convert_to_24_hour("11:59:59 AM"),
        Some("11:59:59".to_string())
    );
}

#[test]
fn pm_hours_gain_twelve() {
    assert_eq!(
        convert_to_24_hour("05:30:00 PM"),
        Some("17:30:00".to_string())
    );
    assert_eq!(convert_to_24_hour("1:00:00 PM"), Some("13:00:00".to_string()));
    assert_eq!(
        convert_to_24_hour("11:00:00 PM"),
        Some("23:00:00".to_string())
    );
}

#[test]
fn midnight_reads_as_zero_hours() {
    assert_eq!(
        convert_to_24_hour("12:00:00 AM"),
        Some("00:00:00".to_string())
    );
}

#[test]
fn noon_reads_as_twelve_hours() {
    assert_eq!(
        convert_to_24_hour("12:00:00 PM"),
        Some("12:00:00".to_string())
    );
}

#[test]
fn malformed_strings_yield_absence() {
    assert_eq!(convert_to_24_hour("notatime"), None);
    assert_eq!(convert_to_24_hour(""), None);
    assert_eq!(convert_to_24_hour("13:00:00 AM"), None);
    assert_eq!(convert_to_24_hour("0:00:00 AM"), None);
    assert_eq!(convert_to_24_hour("07:60:00 AM"), None);
    assert_eq!(convert_to_24_hour("07:15:60 AM"), None);
    assert_eq!(convert_to_24_hour("07:15:00 XM"), None);
    assert_eq!(convert_to_24_hour("07:15:00AM"), None);
    assert_eq!(convert_to_24_hour("07:15 AM"), None);
}
