//! Geolocation response parsing: the brace-span extraction and the field
//! decode, through the real JSON parser.

use clash_chain_patcher::health::geo::{extract_object, geo_http_request, parse_geo_response};

#[test]
fn test_geolocation_parse_embedded_object() {
    let mut text = String::from("HTTP/1.1 200 OK\r\nContent-Type: application/json\r\n\r\n");
    text.push_str(
        "{\"status\":\"success\",\"query\":\"1.2.3.4\",\"country\":\"X\",\"countryCode\":\"XX\",\"regionName\":\"R\",\"city\":\"C\",\"timezone\":\"T\",\"isp\":\"I\"}",
    );
    text.push_str("\r\ntrailing noise without braces");
    let body = text.as_bytes().to_vec();
    let (ip, location) = parse_geo_response(&body).expect("the embedded object must decode");
    assert_eq!(ip, "1.2.3.4");
    assert_eq!(location.country, "X");
    assert_eq!(location.country_code, "XX");
    assert_eq!(location.region, "R");
    assert_eq!(location.city, "C");
    assert_eq!(location.timezone, "T");
    assert_eq!(location.isp, "I");
}

#[test]
fn test_geolocation_failure_status_yields_nothing() {
    let body = b"{\"status\":\"fail\",\"query\":\"1.2.3.4\"}".to_vec();
    assert!(parse_geo_response(&body).is_none());
}

#[test]
fn test_geolocation_missing_fields_decode_empty() {
    let body = b"header {\"status\":\"success\",\"query\":\"5.6.7.8\"} footer".to_vec();
    let (ip, location) = parse_geo_response(&body).expect("a success status decodes");
    assert_eq!(ip, "5.6.7.8");
    assert_eq!(location.country, "");
    assert_eq!(location.isp, "");
}

#[test]
fn test_geolocation_no_object_yields_nothing() {
    assert!(parse_geo_response(&b"no json here".to_vec()).is_none());
    assert!(parse_geo_response(&b"} backwards {".to_vec()).is_none());
    assert!(parse_geo_response(&b"{not json}".to_vec()).is_none());
}

#[test]
fn test_extract_object_span() {
    let body = b"abc { inner } def } tail".to_vec();
    let span = extract_object(&body).expect("braces present in order");
    assert_eq!(span, b"{ inner } def }".to_vec());
    assert!(extract_object(&b"no braces".to_vec()).is_none());
}

#[test]
fn test_geo_http_request_shape() {
    let request = geo_http_request();
    assert!(request.starts_with("GET /json?fields="));
    assert!(request.contains("Host: ip-api.com\r\n"));
    assert!(request.contains("Connection: close\r\n"));
    assert!(request.ends_with("\r\n\r\n"));
}
