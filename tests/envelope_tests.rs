use pogr_log_rs::auth::auth_headers;
use pogr_log_rs::config::{LogConfig, LoggerConfig};
use pogr_log_rs::envelope::{Envelope, FieldValue};
use pogr_log_rs::level::{Level, LevelFilter};
use pogr_log_rs::logger::{resolve_api_url, POGRLogger, DEFAULT_API_URL};
use reqwest::Client;
use serde_json::Value;

fn to_json(e: &Envelope) -> Value {
    let mut m = serde_json::Map::new();
    for (k, v) in e.fields.iter() {
        let v = match v {
            FieldValue::Text(s) => Value::String(s.clone()),
            FieldValue::Json(j) => j.clone(),
        };
        m.insert(k.clone(), v);
    }
    Value::Object(m)
}

fn obj(pairs: Vec<(&str, Value)>) -> Value {
    let mut m = serde_json::Map::new();
    for (k, v) in pairs {
        m.insert(k.to_string(), v);
    }
    Value::Object(m)
}

fn s(x: &str) -> Value {
    Value::String(x.to_string())
}

fn identity(service: &str, environment: &str) -> LoggerConfig {
    LoggerConfig {
        service: service.to_string(),
        environment: environment.to_string(),
        default_type: None,
    }
}

fn access_keys(ak: &str, sk: &str, id: LoggerConfig) -> LogConfig {
    LogConfig::AccessKeys { access_key: ak.to_string(), secret_key: sk.to_string(), logger_config: id }
}

fn svc_logger() -> POGRLogger {
    POGRLogger::new(
        Client::new(),
        Some("http://localhost/v1/intake/logs".to_string()),
        None,
        access_keys("AK", "SK", identity("svc", "prod")),
        identity("svc", "prod"),
    )
}

fn header_pairs(h: &[(String, String)]) -> Vec<(&str, &str)> {
    h.iter().map(|(a, b)| (a.as_str(), b.as_str())).collect()
}

#[test]
fn test_custom_log_sends_correct_request() {
    let full_url = "http://127.0.0.1:1234/v1/intake/logs".to_string();
    let logger = POGRLogger::new(
        Client::new(),
        Some(full_url.clone()),
        None,
        access_keys("test_access_key", "test_secret_key", identity("test_service", "test_env")),
        identity("test_service", "test_env"),
    );
    let d = logger.custom_log(
        Level::Info,
        "This is a test log",
        "test_log",
        obj(vec![("test", s("data"))]),
        obj(vec![("tag1", s("value1"))]),
    );
    let expected_body = obj(vec![
        ("service", s("test_service")),
        ("environment", s("test_env")),
        ("severity", s("info")),
        ("type", s("test_log")),
        ("log", s("This is a test log")),
        ("data", obj(vec![("test", s("data"))])),
        ("tags", obj(vec![("tag1", s("value1"))])),
    ]);
    assert_eq!(to_json(&d.body).to_string(), expected_body.to_string());
    assert_eq!(d.url, full_url);
    assert_eq!(
        header_pairs(&d.headers),
        vec![("POGR_ACCESS", "test_access_key"), ("POGR_SECRET", "test_secret_key")]
    );
}

#[test]
fn test_structured_log_macro() {
    let msg = Envelope::structured_message(
        "User logged in",
        "login",
        obj(vec![("user_id", Value::from(123))]),
        obj(vec![("env", s("production"))]),
    );
    let text = to_json(&msg).to_string();
    let log_message: Value =
        serde_json::from_str(&text).expect("Failed to parse log message as JSON");
    assert_eq!(log_message["log"], "User logged in");
    assert_eq!(log_message["type"], "login");
    assert_eq!(log_message["data"]["user_id"], 123);
    assert_eq!(log_message["tags"]["env"], "production");
}

#[test]
fn structured_message_merges_into_record() {
    let logger = svc_logger();
    let msg = Envelope::structured_message(
        "User logged in",
        "login",
        obj(vec![("user_id", Value::from(123))]),
        obj(vec![("env", s("production"))]),
    );
    let d = logger.log(Level::Warn, &to_json(&msg).to_string()).unwrap();
    let expected = obj(vec![
        ("service", s("svc")),
        ("environment", s("prod")),
        ("severity", s("warn")),
        ("log", s("User logged in")),
        ("type", s("login")),
        ("data", obj(vec![("user_id", Value::from(123))])),
        ("tags", obj(vec![("env", s("production"))])),
    ]);
    assert_eq!(to_json(&d.body), expected);
}

#[test]
fn access_keys_record_scenario() {
    let logger = svc_logger();
    let d = logger.log(Level::Info, "{\"user_id\":123}").unwrap();
    let expected = obj(vec![
        ("service", s("svc")),
        ("environment", s("prod")),
        ("severity", s("info")),
        ("user_id", Value::from(123)),
    ]);
    assert_eq!(to_json(&d.body), expected);
    assert_eq!(d.body.fields.len(), 4);
    assert_eq!(header_pairs(&d.headers), vec![("POGR_ACCESS", "AK"), ("POGR_SECRET", "SK")]);
}

#[test]
fn access_keys_event_scenario() {
    let logger = svc_logger();
    let d = logger.custom_log(
        Level::Info,
        "failed",
        "auth_error",
        obj(vec![("code", Value::from(401))]),
        obj(vec![("env", s("prod"))]),
    );
    let names: Vec<&str> = d.body.fields.iter().map(|(k, _)| k.as_str()).collect();
    assert_eq!(names, vec!["service", "environment", "severity", "type", "log", "data", "tags"]);
    let expected = obj(vec![
        ("service", s("svc")),
        ("environment", s("prod")),
        ("severity", s("info")),
        ("type", s("auth_error")),
        ("log", s("failed")),
        ("data", obj(vec![("code", Value::from(401))])),
        ("tags", obj(vec![("env", s("prod"))])),
    ]);
    assert_eq!(to_json(&d.body), expected);
    assert_eq!(header_pairs(&d.headers), vec![("POGR_ACCESS", "AK"), ("POGR_SECRET", "SK")]);
}

#[test]
fn message_members_override_base_fields() {
    let logger = svc_logger();
    let d = logger.log(Level::Error, "{\"severity\":\"custom\",\"service\":\"other\",\"k\":[1,2]}").unwrap();
    let names: Vec<&str> = d.body.fields.iter().map(|(k, _)| k.as_str()).collect();
    assert_eq!(names, vec!["service", "environment", "severity", "k"]);
    let body = to_json(&d.body);
    assert_eq!(body["severity"], "custom");
    assert_eq!(body["service"], "other");
    assert_eq!(body["environment"], "prod");
    assert_eq!(body["k"], Value::Array(vec![Value::from(1), Value::from(2)]));
}

#[test]
fn non_object_messages_ship_verbatim() {
    let logger = svc_logger();
    for msg in ["plain text", "42", "\"quoted\"", "[1,2]", "{bad json", "", "null"] {
        let d = logger.log(Level::Info, msg).unwrap();
        let expected = obj(vec![
            ("service", s("svc")),
            ("environment", s("prod")),
            ("severity", s("info")),
            ("log", s(msg)),
        ]);
        assert_eq!(d.body.fields.len(), 4);
        assert_eq!(to_json(&d.body), expected);
    }
}

#[test]
fn empty_object_message_ships_base_only() {
    let logger = svc_logger();
    let d = logger.log(Level::Info, "{}").unwrap();
    let names: Vec<&str> = d.body.fields.iter().map(|(k, _)| k.as_str()).collect();
    assert_eq!(names, vec!["service", "environment", "severity"]);
}

#[test]
fn event_embeds_data_unchanged() {
    let logger = svc_logger();
    let data = obj(vec![("service", s("inner")), ("severity", s("x"))]);
    let tags = obj(vec![("environment", s("t"))]);
    let d = logger.custom_log(Level::Trace, "m", "t", data.clone(), tags.clone());
    let body = to_json(&d.body);
    assert_eq!(body["service"], "svc");
    assert_eq!(body["severity"], "trace");
    assert_eq!(body["data"], data);
    assert_eq!(body["tags"], tags);
    assert_eq!(d.body.fields.len(), 7);
}

#[test]
fn threshold_filters_levels() {
    let mut logger = svc_logger();
    assert!(logger.enabled(Level::Error));
    assert!(logger.enabled(Level::Warn));
    assert!(logger.enabled(Level::Info));
    assert!(!logger.enabled(Level::Debug));
    assert!(!logger.enabled(Level::Trace));
    assert!(logger.log(Level::Debug, "x").is_none());
    assert!(logger.log(Level::Trace, "x").is_none());
    assert!(logger.log(Level::Info, "x").is_some());
    logger.set_threshold(LevelFilter::Off);
    assert!(logger.log(Level::Error, "x").is_none());
    logger.set_threshold(LevelFilter::Warn);
    assert!(logger.log(Level::Warn, "x").is_some());
    assert!(logger.log(Level::Info, "x").is_none());
    logger.set_threshold(LevelFilter::Trace);
    assert!(logger.log(Level::Trace, "x").is_some());
}

#[test]
fn custom_log_ignores_threshold() {
    let mut logger = svc_logger();
    logger.set_threshold(LevelFilter::Off);
    let d = logger.custom_log(Level::Debug, "m", "t", Value::Null, Value::Null);
    assert_eq!(to_json(&d.body)["severity"], "debug");
}

#[test]
fn severity_names() {
    assert_eq!(Level::Error.severity(), "error");
    assert_eq!(Level::Warn.severity(), "warn");
    assert_eq!(Level::Info.severity(), "info");
    assert_eq!(Level::Debug.severity(), "debug");
    assert_eq!(Level::Trace.severity(), "trace");
}

#[test]
fn client_build_headers() {
    let c = LogConfig::ClientBuild {
        client_id: "C1".to_string(),
        build_id: "B7".to_string(),
        logger_config: identity("svc", "prod"),
    };
    let h = auth_headers(&c);
    assert_eq!(header_pairs(&h), vec![("POGR_CLIENT", "C1"), ("POGR_BUILD", "B7")]);
    let a = auth_headers(&access_keys("AK", "SK", identity("svc", "prod")));
    assert!(a.iter().all(|(n, _)| n != "POGR_CLIENT" && n != "POGR_BUILD"));
    assert!(h.iter().all(|(n, _)| n != "POGR_ACCESS" && n != "POGR_SECRET"));
}

#[test]
fn api_url_priority() {
    assert_eq!(resolve_api_url(Some("a".to_string()), Some("b".to_string())), "a");
    assert_eq!(resolve_api_url(None, Some("b".to_string())), "b");
    assert_eq!(resolve_api_url(None, None), DEFAULT_API_URL);
    assert_eq!(DEFAULT_API_URL, "https://api.pogr.io/v1/intake/logs");
    let mut logger = POGRLogger::new(
        Client::new(),
        None,
        Some("http://env/intake".to_string()),
        access_keys("AK", "SK", identity("svc", "prod")),
        identity("svc", "prod"),
    );
    assert_eq!(logger.log(Level::Info, "x").unwrap().url, "http://env/intake");
    logger.set_api_url("http://other".to_string());
    assert_eq!(logger.log(Level::Info, "x").unwrap().url, "http://other");
    assert!(logger.client().is_some());
    logger.set_client(Client::new());
    assert!(logger.client().is_some());
}

#[test]
fn set_field_overwrites_in_place() {
    let mut e = Envelope::structured_message("m", "t", Value::Null, Value::Null);
    e.set("type".to_string(), FieldValue::Text("u".to_string()));
    e.set("extra".to_string(), FieldValue::Json(Value::Bool(true)));
    let names: Vec<&str> = e.fields.iter().map(|(k, _)| k.as_str()).collect();
    assert_eq!(names, vec!["log", "type", "data", "tags", "extra"]);
    assert_eq!(to_json(&e)["type"], "u");
}

#[test]
fn from_parsed_uses_given_members() {
    let id = identity("svc", "prod");
    let e = Envelope::from_parsed(&id, Level::Info, "ignored", Some(vec![("a".to_string(), Value::from(1))]));
    assert_eq!(to_json(&e), obj(vec![("service", s("svc")), ("environment", s("prod")), ("severity", s("info")), ("a", Value::from(1))]));
    let e = Envelope::from_parsed(&id, Level::Info, "{\"a\":1}", None);
    assert_eq!(to_json(&e)["log"], "{\"a\":1}");
}
