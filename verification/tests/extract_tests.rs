use std::collections::BTreeMap;

use serde_cbor::Value;

use actix_cbor::body::DEFAULT_BODY_LIMIT;
use actix_cbor::config::ExactMime;
use actix_cbor::config::NoHandler;
use actix_cbor::config::NoPredicate;
use actix_cbor::config::StaticResponse;
use actix_cbor::extract;
use actix_cbor::Cbor;
use actix_cbor::CborBody;
use actix_cbor::CborConfig;
use actix_cbor::CborPayloadError;

fn my_object() -> Value {
    let mut m = BTreeMap::new();
    m.insert(
        Value::Text(String::from("name")),
        Value::Text(String::from("test")),
    );
    m.insert(Value::Text(String::from("number")), Value::Integer(7));
    Value::Map(m)
}

fn get_test_bytes() -> Vec<u8> {
    serde_cbor::to_vec(&my_object()).unwrap()
}

#[test]
fn test_responder() {
    let obj = my_object();
    let encoded = get_test_bytes();

    let resp = Cbor(obj.clone()).respond().unwrap();
    assert_eq!(resp.status, 200);
    assert_eq!(resp.content_type, "application/cbor");
    assert_eq!(resp.body, encoded);

    let decoded: Value = serde_cbor::from_slice(&resp.body).unwrap();
    assert_eq!(obj, decoded);
}

#[test]
fn test_custom_error_responder() {
    let config = CborConfig::new().limit(10).error_handler(StaticResponse {
        status: 400,
        body: get_test_bytes(),
    });
    let events: Vec<Result<Vec<u8>, String>> = vec![Ok(get_test_bytes())];

    let r = extract::<Value, NoPredicate, StaticResponse>(
        &config,
        "application/cbor",
        Some(16),
        events,
    );
    let resp = r.err().unwrap();
    assert_eq!(resp.status, 400);

    let msg: Value = serde_cbor::from_slice(&resp.body).unwrap();
    assert_eq!(msg, my_object());
}

#[test]
fn test_extract() {
    let config = CborConfig::new();
    let events: Vec<Result<Vec<u8>, String>> = vec![Ok(get_test_bytes())];
    let s = extract::<Value, NoPredicate, NoHandler>(&config, "application/cbor", Some(16), events);
    assert_eq!(s.ok().unwrap().into_inner(), my_object());

    let body = CborBody::new("application/cbor", None::<&NoPredicate>, Some(16)).limit(10);
    let events: Vec<Result<Vec<u8>, String>> = vec![Ok(get_test_bytes())];
    let e = body.run::<Value>(events).err().unwrap();
    assert!(e
        .message()
        .contains("Cbor payload size is bigger than allowed"));

    let config = CborConfig::new().limit(10).error_handler(StaticResponse {
        status: 400,
        body: Vec::new(),
    });
    let events: Vec<Result<Vec<u8>, String>> = vec![Ok(get_test_bytes())];
    let s = extract::<Value, NoPredicate, StaticResponse>(
        &config,
        "application/cbor",
        Some(16),
        events,
    );
    let resp = s.err().unwrap();
    assert_eq!(resp.status, 400);
    assert!(resp.body.is_empty());
}

#[test]
fn test_cbor_body() {
    let body = CborBody::new("", None::<&NoPredicate>, None);
    let events: Vec<Result<Vec<u8>, String>> = Vec::new();
    let e = body.run::<Value>(events).err().unwrap();
    assert!(matches!(e, CborPayloadError::ContentType));

    let body = CborBody::new("application/text", None::<&NoPredicate>, None);
    let events: Vec<Result<Vec<u8>, String>> = Vec::new();
    let e = body.run::<Value>(events).err().unwrap();
    assert!(matches!(e, CborPayloadError::ContentType));

    let body = CborBody::new("application/cbor", None::<&NoPredicate>, Some(10000)).limit(100);
    let events: Vec<Result<Vec<u8>, String>> = Vec::new();
    let e = body.run::<Value>(events).err().unwrap();
    assert!(matches!(e, CborPayloadError::Overflow));

    let body = CborBody::new("application/cbor", None::<&NoPredicate>, Some(16));
    assert_eq!(body.limit, DEFAULT_BODY_LIMIT);
    let events: Vec<Result<Vec<u8>, String>> = vec![Ok(get_test_bytes())];
    let v = body.run::<Value>(events).ok().unwrap();
    assert_eq!(v, my_object());
}

#[test]
fn test_with_cbor_and_bad_content_type() {
    let config = CborConfig::new().limit(4096);
    let events: Vec<Result<Vec<u8>, String>> = vec![Ok(get_test_bytes())];
    let s = extract::<Value, NoPredicate, NoHandler>(&config, "text/plain", Some(16), events);
    assert!(s.is_err());
    assert_eq!(s.err().unwrap().status, 400);
}

#[test]
fn test_with_cbor_and_good_custom_content_type() {
    let config = CborConfig::new().content_type(ExactMime::new(String::from("text/plain")));
    let events: Vec<Result<Vec<u8>, String>> = vec![Ok(get_test_bytes())];
    let s = extract::<Value, ExactMime, NoHandler>(&config, "text/plain", Some(16), events);
    assert!(s.is_ok());
    assert_eq!(s.ok().unwrap().into_inner(), my_object());
}

#[test]
fn test_with_cbor_and_bad_custom_content_type() {
    let config = CborConfig::new().content_type(ExactMime::new(String::from("text/plain")));
    let events: Vec<Result<Vec<u8>, String>> = vec![Ok(get_test_bytes())];
    let s = extract::<Value, ExactMime, NoHandler>(&config, "text/html", Some(16), events);
    assert!(s.is_err());
}

#[test]
fn test_with_config_in_data_wrapper() {
    let config = CborConfig::new().limit(10);
    let events: Vec<Result<Vec<u8>, String>> = vec![Ok(get_test_bytes())];
    let s = extract::<Value, NoPredicate, NoHandler>(&config, "application/cbor", Some(16), events);
    assert!(s.is_err());
    assert_eq!(s.err().unwrap().status, 413);

    let body = CborBody::new("application/cbor", None::<&NoPredicate>, Some(16)).limit(10);
    let events: Vec<Result<Vec<u8>, String>> = vec![Ok(get_test_bytes())];
    let e = body.run::<Value>(events).err().unwrap();
    assert!(e
        .message()
        .contains("Cbor payload size is bigger than allowed"));
}

#[test]
fn test_round_trip() {
    let obj = my_object();
    let resp = Cbor(obj.clone()).respond().unwrap();

    let config = CborConfig::new();
    let events: Vec<Result<Vec<u8>, String>> = vec![Ok(resp.body)];
    let s = extract::<Value, NoPredicate, NoHandler>(&config, "application/cbor", None, events);
    assert_eq!(s.ok().unwrap().into_inner(), obj);

    let text = Value::Text(String::from("just text"));
    let resp = Cbor(text.clone()).respond().unwrap();
    let events: Vec<Result<Vec<u8>, String>> = vec![Ok(resp.body)];
    let s = extract::<Value, NoPredicate, NoHandler>(&config, "cbor", None, events);
    assert_eq!(s.ok().unwrap().into_inner(), text);
}

#[test]
fn test_upstream_failure() {
    let body = CborBody::new("application/cbor", None::<&NoPredicate>, None);
    let events: Vec<Result<Vec<u8>, String>> =
        vec![Ok(vec![1, 2, 3]), Err(String::from("connection reset"))];
    let e = body.run::<Value>(events).err().unwrap();
    assert!(matches!(e, CborPayloadError::Payload(_)));
    assert_eq!(e.status_code(), 400);
    assert_eq!(
        e.message(),
        "Error that occur during reading payload: connection reset"
    );
}

#[test]
fn test_decode_failure() {
    let body = CborBody::new("application/cbor", None::<&NoPredicate>, None);
    let events: Vec<Result<Vec<u8>, String>> = vec![Ok(vec![0xff, 0xff])];
    let e = body.run::<Value>(events).err().unwrap();
    assert!(matches!(e, CborPayloadError::Deserialize(_)));
    assert_eq!(e.status_code(), 400);
    assert!(e.message().starts_with("CBOR deserialize error: "));
    if let CborPayloadError::Deserialize(inner) = e {
        assert_eq!(inner.status_code(), 500);
        assert!(!inner.message().is_empty());
    }
}
