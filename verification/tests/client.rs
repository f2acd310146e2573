use kmoni::client::decode_latest;
use kmoni::client::KMoniClient;
use kmoni::record::DecodeError;
use kmoni::timestamp::Timestamp;

const REFERENCE: &str = r#"{
    "latest_time": "2023/05/21 16:00:00",
    "request_time": "2023/05/21 16:00:09",
    "result": { "status": "success", "message": "" }
}"#;

// Naive 2023-05-21 16:00:00 counted as epoch seconds.
const NAIVE_160000: i64 = 1684684800;

#[test]
fn decode_latest_reads_both_timestamps() {
    let latest = decode_latest(REFERENCE).unwrap();
    assert_eq!(
        Timestamp { year: 2023, month: 5, day: 21, hour: 16, minute: 0, second: 0 },
        latest.latest_time
    );
    assert_eq!(
        Timestamp { year: 2023, month: 5, day: 21, hour: 16, minute: 0, second: 9 },
        latest.request_time
    );
    assert_eq!("success", latest.result.status);
    assert_eq!("", latest.result.message);
}

#[test]
fn decode_latest_rejects_bad_timestamp() {
    let doc = REFERENCE.replace("2023/05/21 16:00:00", "20230521160000");
    assert_eq!(Err(DecodeError::BadTimestamp), decode_latest(&doc));
}

#[test]
fn decode_latest_rejects_missing_status() {
    let doc = r#"{"latest_time": "2023/05/21 16:00:00", "request_time": "2023/05/21 16:00:09"}"#;
    assert_eq!(Err(DecodeError::Malformed), decode_latest(doc));
}

#[test]
fn estimated_delay_is_exact_to_the_second() {
    // Reference published 16:00:00, estimation instant 16:00:09, both at
    // the feed's UTC+9 offset: the measured delay is nine seconds.
    let latest = decode_latest(REFERENCE).unwrap();
    let now_utc = NAIVE_160000 + 9 - 32400;
    assert_eq!(9, KMoniClient::estimate_delay(now_utc, &latest.latest_time));
    let client = KMoniClient::from_reference(now_utc, &latest.latest_time);
    assert_eq!(9, client.delay_seconds());
}

#[test]
fn predicted_identifier_follows_the_delay() {
    // A fetch at UTC+9 2023/05/21 16:05:09 under a nine-second delay
    // addresses the feed time 16:05:00.
    let client = KMoniClient::from_delay(9);
    let now_utc = NAIVE_160000 + 309 - 32400;
    assert_eq!("20230521160500", client.predicted_identifier(now_utc));
    assert_eq!(
        "http://www.kmoni.bosai.go.jp/webservice/hypo/eew/20230521160500.json",
        client.report_url(now_utc)
    );
}

#[test]
fn predicted_identifier_is_deterministic() {
    let client = KMoniClient::from_delay(9);
    let now_utc = NAIVE_160000 + 309 - 32400;
    assert_eq!(
        client.predicted_identifier(now_utc),
        client.predicted_identifier(now_utc)
    );
}

#[test]
fn identifier_crosses_day_and_month_boundaries() {
    // 2024 is a leap year: 2024-02-29 exists, and the last second of the
    // year formats with every field at its carry boundary.
    let client = KMoniClient::from_delay(0);
    let leap_day: i64 = 1709164800; // naive 2024-02-29 00:00:00
    assert_eq!("20240229000000", client.predicted_identifier(leap_day - 32400));
    let year_end: i64 = 1735689599; // naive 2024-12-31 23:59:59
    assert_eq!("20241231235959", client.predicted_identifier(year_end - 32400));
}

#[test]
fn current_identifier_is_compact() {
    // Whatever the clock reads while the tests run, a small delay leaves the
    // predicted feed time well inside the supported range.
    let client = KMoniClient::from_delay(9);
    let id = client.current_identifier().unwrap();
    assert_eq!(14, id.chars().count());
    assert!(id.chars().all(|c| c.is_ascii_digit()));
}
