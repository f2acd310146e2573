use kmoni::client::KMoniClient;
use kmoni::decimal::Decimal;
use kmoni::record::DecodeError;
use kmoni::record::ResultRawResponse;
use kmoni::record::EEW;
use kmoni::timestamp::Timestamp;

const POPULATED: &str = r#"{
                "result": {
                    "status": "success",
                    "message": "",
                    "is_auth": true
                },
                "report_time": "2023/05/21 16:03:57",
                "region_code": "",
                "request_time": "20230521160357",
                "region_name": "福島県沖",
                "longitude": "141.5",
                "is_cancel": false,
                "depth": "20km",
                "calcintensity": "2",
                "is_final": false,
                "is_training": false,
                "latitude": "37.2",
                "origin_time": "20230521160321",
                "security": {
                    "realm": "/kyoshin_monitor/static/jsondata/eew_est/",
                    "hash": "b61e4d95a8c42e004665825c098a6de4"
                },
                "magunitude": "3.5",
                "report_num": "2",
                "request_hypo_type": "eew",
                "report_id": "20230521160327",
                "alertflg": "予報"
            }"#;

#[test]
fn parse_succeeded() {
    assert_eq!(
        Some(EEW {
            result: ResultRawResponse {
                status: "success".to_string(),
                message: "".to_string()
            },
            report_time: Timestamp { year: 2023, month: 5, day: 21, hour: 16, minute: 3, second: 57 },
            region_code: "".to_string(),
            request_time: Timestamp { year: 2023, month: 5, day: 21, hour: 16, minute: 3, second: 57 },
            region_name: "福島県沖".to_string(),
            longitude: Decimal { negative: false, mantissa: 1415, scale: 1 },
            is_cancel: false,
            depth: 20,
            calcintensity: "2".to_string(),
            is_final: false,
            is_training: false,
            latitude: Decimal { negative: false, mantissa: 372, scale: 1 },
            origin_time: Timestamp { year: 2023, month: 5, day: 21, hour: 16, minute: 3, second: 21 },
            magunitude: Decimal { negative: false, mantissa: 35, scale: 1 },
            report_num: 2,
            request_hypo_type: "eew".to_string(),
            report_id: "20230521160327".to_string()
        }),
        KMoniClient::parse_eew(POPULATED).unwrap()
    );
}

#[test]
fn nodata() {
    assert_eq!(
        None,
        KMoniClient::parse_eew(
            r#"{
    "result": {
        "status": "success",
        "message": "データがありません",
        "is_auth": true
    },
    "report_time": "",
    "region_code": "",
    "request_time": "20240102114930",
    "region_name": "",
    "longitude": "",
    "is_cancel": "",
    "depth": "",
    "calcintensity": "",
    "is_final": "",
    "is_training": "",
    "latitude": "",
    "origin_time": "",
    "security": {
        "realm": "/webservice/hypo/eew/",
        "hash": "5ca8b8104e01ceef0f061ad597606cbd87b492db"
    },
    "magunitude": "",
    "report_num": "",
    "request_hypo_type": "eew",
    "report_id": ""
}"#,
        )
        .unwrap()
    );
}

#[test]
fn nodata_ignores_other_field_junk() {
    // The sentinel decides alone: other fields may hold anything at all.
    let doc = r#"{
        "result": { "status": "success", "message": "データがありません" },
        "depth": "not even close",
        "longitude": 42,
        "report_time": false
    }"#;
    assert_eq!(None, KMoniClient::parse_eew(doc).unwrap());
}

#[test]
fn not_json_is_malformed() {
    assert_eq!(
        Err(DecodeError::Malformed),
        KMoniClient::parse_eew("this is not json")
    );
}

#[test]
fn missing_status_block_is_malformed() {
    assert_eq!(
        Err(DecodeError::Malformed),
        KMoniClient::parse_eew(r#"{"report_time": "2023/05/21 16:03:57"}"#)
    );
}

#[test]
fn missing_field_is_malformed() {
    let doc = POPULATED.replace("\"depth\"", "\"depht\"");
    assert_eq!(Err(DecodeError::Malformed), KMoniClient::parse_eew(&doc));
}

#[test]
fn depth_without_km_suffix_fails() {
    let doc = POPULATED.replace("\"depth\": \"20km\"", "\"depth\": \"20\"");
    assert_eq!(
        Err(DecodeError::UnitSuffixMissing),
        KMoniClient::parse_eew(&doc)
    );
}

#[test]
fn bad_report_time_fails() {
    let doc = POPULATED.replace("2023/05/21 16:03:57", "2023-05-21 16:03:57");
    assert_eq!(Err(DecodeError::BadTimestamp), KMoniClient::parse_eew(&doc));
}

#[test]
fn bad_longitude_fails() {
    let doc = POPULATED.replace("\"longitude\": \"141.5\"", "\"longitude\": \"east\"");
    assert_eq!(Err(DecodeError::NotNumeric), KMoniClient::parse_eew(&doc));
}

#[test]
fn depth_with_nonnumeric_body_fails() {
    let doc = POPULATED.replace("\"depth\": \"20km\"", "\"depth\": \"km\"");
    assert_eq!(Err(DecodeError::NotNumeric), KMoniClient::parse_eew(&doc));
}

#[test]
fn calcintensity_stays_text() {
    // The intensity scale may be non-numeric ("5弱") and is never coerced.
    let doc = POPULATED.replace("\"calcintensity\": \"2\"", "\"calcintensity\": \"5弱\"");
    let record = KMoniClient::parse_eew(&doc).unwrap().unwrap();
    assert_eq!("5弱", record.calcintensity);
}
