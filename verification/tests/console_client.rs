use vaexcore_studio::console::{
    console_endpoint, console_endpoint_from_heartbeat, console_http_request, console_readiness_error,
    console_stream_key, parse_console_reply, split_console_endpoint, ConsoleTwitchStreamKeyResponse,
};
use vaexcore_studio::suite::SuiteDiscoveryDocument;

fn heartbeat(api_url: Option<&str>) -> SuiteDiscoveryDocument {
    SuiteDiscoveryDocument {
        schema_version: 1,
        app_id: "vaexcore-console".to_string(),
        app_name: "vaexcore console".to_string(),
        bundle_identifier: "com.vaexcore.console".to_string(),
        version: "0.1.0".to_string(),
        pid: 7,
        started_at: "2026-01-01T00:00:00Z".to_string(),
        updated_at: "2026-01-01T00:00:05Z".to_string(),
        api_url: api_url.map(str::to_string),
        ws_url: None,
        health_url: None,
        capabilities: Vec::new(),
        launch_name: "vaexcore console".to_string(),
        suite_session_id: None,
        activity: None,
        activity_detail: None,
        local_runtime: None,
    }
}

fn key_response(ok: bool, key: Option<&str>, error: Option<&str>) -> ConsoleTwitchStreamKeyResponse {
    ConsoleTwitchStreamKeyResponse {
        ok,
        stream_key: key.map(str::to_string),
        broadcaster_login: Some("vaex".to_string()),
        broadcaster_user_id: Some("42".to_string()),
        error: error.map(str::to_string),
    }
}

#[test]
fn console_endpoints_split_into_host_and_path() {
    assert_eq!(
        split_console_endpoint("http://127.0.0.1:51300/api/twitch/stream-key"),
        Ok(("127.0.0.1:51300".to_string(), "/api/twitch/stream-key".to_string()))
    );
    assert_eq!(split_console_endpoint("http://localhost:9"), Ok(("localhost:9".to_string(), "/".to_string())));
    assert_eq!(
        split_console_endpoint("https://localhost:9/x"),
        Err("Only local http:// Console endpoints are supported.".to_string())
    );
    assert_eq!(
        console_http_request("localhost:9", "/a"),
        "GET /a HTTP/1.1\r\nHost: localhost:9\r\nConnection: close\r\nAccept: application/json\r\n\r\n"
    );
    assert_eq!(console_endpoint("http://h:1///", "/api/x"), "http://h:1/api/x");
    assert_eq!(console_endpoint("http://h:1", "/api/x"), "http://h:1/api/x");
}

#[test]
fn console_heartbeat_must_name_an_api_url() {
    assert_eq!(
        console_endpoint_from_heartbeat(None, "/api/x"),
        Err("Console is not publishing a suite heartbeat yet.".to_string())
    );
    assert_eq!(
        console_endpoint_from_heartbeat(Some(&heartbeat(None)), "/api/x"),
        Err("Console heartbeat does not include an API URL.".to_string())
    );
    assert_eq!(
        console_endpoint_from_heartbeat(Some(&heartbeat(Some("http://127.0.0.1:5/"))), "/api/twitch/stream-key"),
        Ok("http://127.0.0.1:5/api/twitch/stream-key".to_string())
    );
}

#[test]
fn console_replies_are_read_as_http() {
    assert_eq!(
        parse_console_reply("HTTP/1.1 200 OK\r\nContent-Type: application/json\r\n\r\n{\"ok\":true}"),
        Ok((200, "{\"ok\":true}".to_string()))
    );
    assert_eq!(parse_console_reply("HTTP/1.1 404 Not Found\r\n\r\n"), Ok((404, String::new())));
    assert_eq!(
        parse_console_reply("HTTP/1.1 200 OK\r\n"),
        Err("Console returned a malformed HTTP response.".to_string())
    );
    assert_eq!(
        parse_console_reply("HTTP/1.1 OK\r\n\r\nbody"),
        Err("Console returned a malformed HTTP status.".to_string())
    );
    assert_eq!(
        parse_console_reply("HTTP/1.1 70000 Big\r\n\r\nbody"),
        Err("Console returned a malformed HTTP status.".to_string())
    );
    assert_eq!(
        parse_console_reply("\r\n\r\nbody"),
        Err("Console returned a malformed HTTP status.".to_string())
    );
    assert_eq!(parse_console_reply("  HTTP/1.0   +201 Created\r\n\r\n\r\n\r\nx"), Ok((201, "\r\n\r\nx".to_string())));
}

#[test]
fn console_stream_key_answers() {
    let key = console_stream_key(200, key_response(true, Some("live_123"), None)).unwrap();
    assert_eq!(key.stream_key, "live_123");
    assert_eq!(key.broadcaster_login.as_deref(), Some("vaex"));
    assert_eq!(key.broadcaster_user_id.as_deref(), Some("42"));
    assert_eq!(
        console_stream_key(200, key_response(true, None, None)).unwrap_err(),
        "Console did not return a stream key."
    );
    assert_eq!(
        console_stream_key(503, key_response(true, Some("k"), None)).unwrap_err(),
        "Console stream key request failed with HTTP 503"
    );
    assert_eq!(
        console_stream_key(200, key_response(false, Some("k"), Some("Twitch is not connected."))).unwrap_err(),
        "Twitch is not connected."
    );
    assert_eq!(console_readiness_error(200, Some("ignored".to_string())), None);
    assert_eq!(
        console_readiness_error(500, None),
        Some("Console Twitch readiness failed with HTTP 500".to_string())
    );
    assert_eq!(console_readiness_error(401, Some("Sign in.".to_string())), Some("Sign in.".to_string()));
}
