use osrs_ge_tracker::fetch::{
    body_preview, check_status, command_error, decimal, fetch_summary, finish_item_mapping,
    finish_latest_prices, FetchError, FIVE_MIN_URL, MAPPING_URL, PREVIEW_CHARS,
};
use osrs_ge_tracker::ge_api::{decode_latest_prices, FiveMinResponse};

const SNAPSHOT: &str = r#"{"data":{"4151":{"avgHighPrice":1500000,"avgLowPrice":1450000,"highPriceVolume":12,"lowPriceVolume":40},"2":{"avgLowPrice":150},"561":{"highPriceVolume":null}},"timestamp":1700000000}"#;

fn nullable(v: Option<u64>) -> serde_json::Value {
    match v {
        Some(n) => serde_json::Value::from(n),
        None => serde_json::Value::Null,
    }
}

fn encode(s: &FiveMinResponse) -> String {
    let mut data = serde_json::Map::new();
    for (id, p) in &s.data {
        let mut e = serde_json::Map::new();
        e.insert("avgHighPrice".to_string(), nullable(p.avgHighPrice));
        e.insert("avgLowPrice".to_string(), nullable(p.avgLowPrice));
        e.insert("highPriceVolume".to_string(), nullable(p.highPriceVolume));
        e.insert("lowPriceVolume".to_string(), nullable(p.lowPriceVolume));
        data.insert(id.clone(), serde_json::Value::Object(e));
    }
    let mut top = serde_json::Map::new();
    top.insert("data".to_string(), serde_json::Value::Object(data));
    top.insert("timestamp".to_string(), serde_json::Value::from(s.timestamp));
    serde_json::Value::Object(top).to_string()
}

#[test]
fn snapshot_round_trip_through_json() {
    let first = decode_latest_prices(SNAPSHOT).expect("decodes");
    let again = decode_latest_prices(&encode(&first)).expect("re-decodes");
    let mut a = first.data.clone();
    let mut b = again.data.clone();
    a.sort_by(|x, y| x.0.cmp(&y.0));
    b.sort_by(|x, y| x.0.cmp(&y.0));
    assert_eq!(a, b);
    assert_eq!(first.timestamp, again.timestamp);
}

#[test]
fn status_500_is_an_http_error() {
    assert_eq!(finish_latest_prices(500, SNAPSHOT), Err(FetchError::HttpStatus(500)));
    assert_eq!(finish_latest_prices(500, "not json"), Err(FetchError::HttpStatus(500)));
    assert_eq!(finish_item_mapping(404, "[]"), Err(FetchError::HttpStatus(404)));
}

#[test]
fn status_class_boundaries() {
    assert_eq!(check_status(200), Ok(()));
    assert_eq!(check_status(204), Ok(()));
    assert_eq!(check_status(299), Ok(()));
    assert_eq!(check_status(199), Err(FetchError::HttpStatus(199)));
    assert_eq!(check_status(300), Err(FetchError::HttpStatus(300)));
    assert_eq!(check_status(0), Err(FetchError::HttpStatus(0)));
}

#[test]
fn empty_body_is_a_decode_error() {
    assert_eq!(finish_latest_prices(200, ""), Err(FetchError::Decode(FIVE_MIN_URL.to_string())));
    assert_eq!(finish_item_mapping(200, ""), Err(FetchError::Decode(MAPPING_URL.to_string())));
}

#[test]
fn successful_fetches() {
    let s = finish_latest_prices(200, SNAPSHOT).expect("ok");
    assert_eq!(s.data.len(), 3);
    let v = finish_item_mapping(
        200,
        r#"[{"id":2,"name":"Cannonball","examine":"Ammo.","members":true,"icon":"Cannonball.png"}]"#,
    )
    .expect("ok");
    assert_eq!(v[0].name, "Cannonball");
    assert_eq!(
        finish_item_mapping(200, r#"[{"id":2,"examine":"Ammo.","members":true,"icon":"c"}]"#),
        Err(FetchError::Decode(MAPPING_URL.to_string()))
    );
}

#[test]
fn decimal_text() {
    assert_eq!(decimal(0), "0");
    assert_eq!(decimal(7), "7");
    assert_eq!(decimal(10), "10");
    assert_eq!(decimal(1234567), "1234567");
    assert_eq!(decimal(u64::MAX), "18446744073709551615");
}

#[test]
fn error_texts() {
    assert_eq!(FetchError::HttpStatus(500).message(), "HTTP status 500");
    assert_eq!(command_error(&FetchError::HttpStatus(503)), "Error: HTTP status 503");
    assert_eq!(
        command_error(&FetchError::Network("dns failure".to_string())),
        "Error: network error: dns failure"
    );
    assert_eq!(
        command_error(&FetchError::Decode(MAPPING_URL.to_string())),
        format!("Error: could not decode the response from {}", MAPPING_URL)
    );
}

#[test]
fn summary_counts_items() {
    let s = decode_latest_prices(SNAPSHOT).expect("decodes");
    assert_eq!(fetch_summary(&s), "Fetched 3 items.");
    let empty = decode_latest_prices(r#"{"data":{},"timestamp":0}"#).expect("decodes");
    assert_eq!(fetch_summary(&empty), "Fetched 0 items.");
}

#[test]
fn preview_is_a_prefix() {
    assert_eq!(body_preview("short"), "short");
    assert_eq!(body_preview(""), "");
    let long = "x".repeat(150);
    assert_eq!(body_preview(&long).len(), PREVIEW_CHARS);
    let wide = "é".repeat(120);
    assert_eq!(body_preview(&wide).chars().count(), 100);
    assert_eq!(body_preview(&wide), "é".repeat(100));
}
