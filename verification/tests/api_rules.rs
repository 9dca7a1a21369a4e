use vaexcore_studio::api::{
    authorize_headers, authorize_query, client_seen_from_headers, command_action, compact_user_agent,
    event_replay_limit, header_string, health_response, is_valid_request_id, normalize_optional_query,
    resolve_request_id, ApiError, ApiResponse, AuthConfig, ClientSeen, TokenQuery,
};
use vaexcore_studio::events::StudioEventKind;
use vaexcore_studio::registry::{client_key, ClientRegistry, RecentEvents};

fn token_auth() -> AuthConfig {
    AuthConfig { token: Some("test-token".to_string()), dev_mode: false }
}

fn seen(client_id: Option<&str>, name: &str, request_id: &str, path: &str) -> ClientSeen {
    ClientSeen {
        client_id: client_id.map(str::to_string),
        name: name.to_string(),
        kind: "http".to_string(),
        user_agent: Some("test-agent".to_string()),
        request_id: Some(request_id.to_string()),
        path: Some(path.to_string()),
    }
}

#[test]
fn client_registry_updates_existing_client() {
    let mut registry = ClientRegistry::new();
    registry.register(
        ClientSeen {
            client_id: Some("client-a".to_string()),
            name: "Client A".to_string(),
            kind: "http".to_string(),
            user_agent: Some("test-agent".to_string()),
            request_id: Some("req_1".to_string()),
            path: Some("/status".to_string()),
        },
        1_000,
    );
    registry.register(
        ClientSeen {
            client_id: Some("client-a".to_string()),
            name: "Client A".to_string(),
            kind: "http".to_string(),
            user_agent: Some("test-agent".to_string()),
            request_id: Some("req_2".to_string()),
            path: Some("/profiles".to_string()),
        },
        2_000,
    );

    let clients = registry.recent();
    assert_eq!(clients.len(), 1);
    assert_eq!(clients[0].request_count, 2);
    assert_eq!(clients[0].last_request_id.as_deref(), Some("req_2"));
}

#[test]
fn client_registry_keeps_fifty_most_recent_clients() {
    let mut registry = ClientRegistry::new();
    for index in 0..51 {
        let id = format!("client-{index}");
        registry.register(seen(Some(&id), "Client", "req_1", "/status"), 1_000 + index);
    }
    let clients = registry.recent();
    assert_eq!(clients.len(), 50);
    assert!(clients.iter().all(|client| client.id != "client-0"));
    assert_eq!(clients[0].id, "client-50");
    assert_eq!(clients[49].id, "client-1");
    assert!(clients.windows(2).all(|pair| pair[0].last_seen_at_ms >= pair[1].last_seen_at_ms));
}

#[test]
fn client_registry_names_anonymous_clients_by_key() {
    let anonymous = seen(None, "Local HTTP client", "req_1", "/status");
    assert_eq!(client_key(&anonymous), "http:Local HTTP client:test-agent");
    let mut registry = ClientRegistry::new();
    registry.register(anonymous.clone(), 5);
    registry.register(anonymous, 9);
    let clients = registry.recent();
    assert_eq!(clients.len(), 1);
    assert!(clients[0].id.starts_with("client_"));
    assert_eq!(clients[0].connected_at_ms, 5);
    assert_eq!(clients[0].last_seen_at_ms, 9);
}

#[test]
fn events_query_auth_rejects_missing_token() {
    let auth = token_auth();
    let mut query = TokenQuery::empty();
    query.limit = Some(1);

    let result = authorize_query(&query, &auth);
    assert!(result.is_err());
}

#[test]
fn events_query_auth_accepts_token_with_replay_limit() {
    let auth = token_auth();
    let mut query = TokenQuery::empty();
    query.token = Some("test-token".to_string());
    query.limit = Some(1);

    authorize_query(&query, &auth).unwrap();
    assert_eq!(event_replay_limit(query.limit), 1);
}

#[test]
fn authorization_accepts_bearer_or_token_header() {
    let auth = token_auth();
    assert!(authorize_headers(Some("Bearer test-token"), None, &auth).is_ok());
    assert!(authorize_headers(None, Some("test-token"), &auth).is_ok());
    assert!(authorize_headers(Some("Basic abc"), Some("test-token"), &auth).is_ok());
    let wrong = authorize_headers(Some("Bearer nope"), Some("test-token"), &auth).unwrap_err();
    assert_eq!(wrong.status, 401);
    assert_eq!(wrong.code, "unauthorized");
    assert_eq!(wrong.message, "valid localhost API token required");
}

#[test]
fn authorization_without_token_is_not_configured_unless_dev_mode() {
    let unconfigured = AuthConfig { token: None, dev_mode: false };
    let error: ApiError = authorize_headers(None, None, &unconfigured).unwrap_err();
    assert_eq!(error.code, "auth_not_configured");
    assert_eq!(error.message, "API token is not configured");
    let dev = AuthConfig { token: None, dev_mode: true };
    assert!(authorize_headers(None, None, &dev).is_ok());
    assert!(!dev.auth_required());
    assert!(token_auth().auth_required());
}

#[test]
fn event_replay_limit_is_capped() {
    assert_eq!(event_replay_limit(None), 100);
    assert_eq!(event_replay_limit(Some(500)), 100);
    assert_eq!(event_replay_limit(Some(7)), 7);
}

#[test]
fn request_id_header_rules() {
    assert!(is_valid_request_id("req_1.a-B"));
    assert!(!is_valid_request_id(""));
    assert!(!is_valid_request_id("bad id"));
    assert!(!is_valid_request_id(&"a".repeat(129)));
    assert!(is_valid_request_id(&"a".repeat(128)));
    assert_eq!(resolve_request_id(Some("  client-req-1  ")), "client-req-1");
    let generated = resolve_request_id(Some("not valid!"));
    assert!(generated.starts_with("req_"));
    assert_eq!(generated.len(), "req_".len() + 32);
    assert!(resolve_request_id(None).starts_with("req_"));
}

#[test]
fn header_and_query_values_are_trimmed() {
    assert_eq!(header_string(Some("  abcdef  "), 3), Some("abc".to_string()));
    assert_eq!(header_string(Some("   "), 3), None);
    assert_eq!(header_string(None, 3), None);
    assert_eq!(normalize_optional_query(Some("  x ".to_string())), Some("x".to_string()));
    assert_eq!(normalize_optional_query(Some("  ".to_string())), None);
}

#[test]
fn user_agent_is_compacted_to_first_word() {
    assert_eq!(compact_user_agent("  curl/8.4.0 (x86_64)"), "curl/8.4.0");
    assert_eq!(compact_user_agent("   "), "Local client");
    assert_eq!(compact_user_agent(&"x".repeat(200)).len(), 96);
}

#[test]
fn client_seen_from_headers_names_the_client() {
    let client = client_seen_from_headers(Some("curl/8.4.0 extra"), Some("bad id"), None, "/events", None);
    assert_eq!(client.name, "curl/8.4.0");
    assert_eq!(client.kind, "websocket");
    assert_eq!(client.client_id, None);
    assert_eq!(client.user_agent.as_deref(), Some("curl/8.4.0 extra"));
    let named = client_seen_from_headers(None, Some("pulse-1"), Some(" Pulse "), "/status", Some("req_9".to_string()));
    assert_eq!(named.name, "Pulse");
    assert_eq!(named.kind, "http");
    assert_eq!(named.client_id.as_deref(), Some("pulse-1"));
    assert_eq!(named.path.as_deref(), Some("/status"));
    let anonymous = client_seen_from_headers(None, None, None, "/status", None);
    assert_eq!(anonymous.name, "Local HTTP client");
}

#[test]
fn command_audit_actions() {
    assert_eq!(command_action("POST", "/recording/start").as_deref(), Some("recording.start"));
    assert_eq!(command_action("PUT", "/scenes").as_deref(), Some("scenes.save"));
    assert_eq!(command_action("DELETE", "/profiles/destinations/abc").as_deref(), Some("profiles.destination.delete"));
    assert_eq!(command_action("PUT", "/profiles/recording/p1").as_deref(), Some("profiles.recording.update"));
    assert_eq!(command_action("GET", "/recording/start"), None);
    assert_eq!(command_action("POST", "/status"), None);
}

#[test]
fn responses_carry_data_or_error() {
    let ok = ApiResponse::ok(5u32);
    assert!(ok.ok);
    assert_eq!(ok.data, Some(5));
    let failed: ApiResponse<u32> = ApiResponse::error("code", "message");
    assert!(!failed.ok);
    assert_eq!(failed.error.unwrap().code, "code");
    let health = health_response("vaexcore studio", "0.1.0", &token_auth());
    assert!(health.ok && health.auth_required && !health.dev_auth_bypass);
}

#[test]
fn recent_events_keep_the_last_hundred() {
    let mut events: RecentEvents<u32> = RecentEvents::new();
    for index in 0..150u32 {
        events.emit(index);
    }
    let recent = events.recent();
    assert_eq!(recent.len(), 100);
    assert_eq!(recent[0], 50);
    assert_eq!(recent[99], 149);
    assert_eq!(events.recent_limit(3), &[147, 148, 149]);
    assert_eq!(events.recent_limit(1000).len(), 100);
}

#[test]
fn studio_event_kinds_have_wire_names() {
    assert_eq!(StudioEventKind::AppReady.as_str(), "app.ready");
    assert_eq!(StudioEventKind::MarkerCreated.as_str(), "marker.created");
    assert_eq!(StudioEventKind::Error.as_str(), "error");
}

#[test]
fn saved_settings_text_is_normalized() {
    let saved = vaexcore_studio::api::normalize_app_settings(vaexcore_studio::api::AppSettingsText {
        api_host: "  127.0.0.1 ".to_string(),
        api_token: Some("  updated-token  ".to_string()),
        log_level: " DEBUG ".to_string(),
    });
    assert_eq!(saved.api_host, "127.0.0.1");
    assert_eq!(saved.api_token, Some("updated-token".to_string()));
    assert_eq!(saved.log_level, "debug");
    let blank = vaexcore_studio::api::normalize_app_settings(vaexcore_studio::api::AppSettingsText {
        api_host: "localhost".to_string(),
        api_token: Some("   ".to_string()),
        log_level: "Info".to_string(),
    });
    assert_eq!(blank.api_token, None);
    assert_eq!(blank.log_level, "info");
}
