//! The local control API's rules: who is authorized, how a request is identified
//! and attributed to a client, which requests are audited, and the shapes of its
//! responses. Headers reach these functions as the text they hold.

use vstd::prelude::*;
use crate::ids::{is_generated_id, new_id};
use crate::text::{chars_of, is_ws, starts_with, str_eq, string_from_chars, trim, trim_spec, trim_ws_start};

verus! {

pub const UNAUTHORIZED: u16 = 401;

/// The number of recent events replayed to a new event stream when it asks for no
/// particular number, and the most it can ask for.
pub const DEFAULT_EVENT_REPLAY_LIMIT: usize = 100;

/// How the API authenticates: with a token, unless in developer mode.
#[derive(Clone, Debug)]
pub struct AuthConfig {
    pub token: Option<String>,
    pub dev_mode: bool,
}

/// The settings text that is normalized before it is saved: the API host, the API
/// token and the log level.
#[derive(Clone, Debug)]
pub struct AppSettingsText {
    pub api_host: String,
    pub api_token: Option<String>,
    pub log_level: String,
}

/// A token as it is saved: trimmed, and none when nothing is left.
pub open spec fn saved_token(token: Option<String>) -> Option<Seq<char>> {
    match token {
        Some(t) => if trim_spec(t@).len() == 0 {
            None
        } else {
            Some(trim_spec(t@))
        },
        None => None,
    }
}

/// Settings text as it is saved: the host trimmed, the token trimmed and dropped when
/// empty, the log level trimmed and in ASCII lowercase.
pub fn normalize_app_settings(settings: AppSettingsText) -> (r: AppSettingsText)
    ensures
        r.api_host@ == trim_spec(settings.api_host@),
        match r.api_token {
            Some(t) => saved_token(settings.api_token) == Some(t@),
            None => saved_token(settings.api_token) is None,
        },
        r.log_level@ == crate::text::ascii_lower(trim_spec(settings.log_level@)),
{
    let api_host = trim(settings.api_host.as_str());
    let api_token = match settings.api_token {
        Some(t) => {
            let trimmed = trim(t.as_str());
            if trimmed.unicode_len() == 0 {
                None
            } else {
                Some(trimmed)
            }
        },
        None => None,
    };
    let level = trim(settings.log_level.as_str());
    let log_level = crate::text::to_ascii_lowercase(level.as_str());
    AppSettingsText { api_host, api_token, log_level }
}

impl AuthConfig {
    /// Requests must carry the token: not in developer mode, and a token is set.
    pub fn auth_required(&self) -> (r: bool)
        ensures
            r == (!self.dev_mode && self.token is Some),
    {
        !self.dev_mode && self.token.is_some()
    }
}

/// The query of the event stream: a token, how many recent events to replay, and
/// the client's identity.
#[derive(Clone, Debug)]
pub struct TokenQuery {
    pub token: Option<String>,
    pub limit: Option<usize>,
    pub client_id: Option<String>,
    pub client_name: Option<String>,
}

impl TokenQuery {
    pub fn empty() -> (r: TokenQuery)
        ensures
            r.token is None,
            r.limit is None,
            r.client_id is None,
            r.client_name is None,
    {
        TokenQuery { token: None, limit: None, client_id: None, client_name: None }
    }
}

/// An error answered by the API: an HTTP status, a code and a message.
#[derive(Clone, Debug)]
pub struct ApiError {
    pub status: u16,
    pub code: String,
    pub message: String,
}

impl ApiError {
    pub fn new(status: u16, code: &str, message: &str) -> (r: ApiError)
        ensures
            r.status == status,
            r.code@ == code@,
            r.message@ == message@,
    {
        ApiError { status, code: String::from_str(code), message: String::from_str(message) }
    }
}

/// What an authorization check answers: nothing, or a status, a code and a message.
pub open spec fn auth_outcome(auth: AuthConfig, provided: Option<Seq<char>>) -> Option<(u16, Seq<char>, Seq<char>)> {
    if auth.dev_mode {
        None
    } else {
        match auth.token {
            None => Some((UNAUTHORIZED, "auth_not_configured"@, "API token is not configured"@)),
            Some(expected) => if provided == Some(expected@) {
                None
            } else {
                Some((UNAUTHORIZED, "unauthorized"@, "valid localhost API token required"@))
            },
        }
    }
}

/// A request is authorized exactly when the API is in developer mode, or a token is
/// configured and the request carries that token; any refusal is a 401.
pub proof fn lemma_authorized_exactly_with_token(auth: AuthConfig, provided: Option<Seq<char>>)
    ensures
        auth_outcome(auth, provided) is None <==> (auth.dev_mode || (auth.token matches Some(t) && provided == Some(
            t@,
        ))),
        auth_outcome(auth, provided) matches Some(e) ==> e.0 == UNAUTHORIZED,
{
}

pub open spec fn auth_result_matches(r: Result<(), ApiError>, o: Option<(u16, Seq<char>, Seq<char>)>) -> bool {
    match r {
        Ok(_) => o is None,
        Err(e) => o == Some((e.status, e.code@, e.message@)),
    }
}

fn authorize_token(provided: Option<&str>, auth: &AuthConfig) -> (r: Result<(), ApiError>)
    ensures
        auth_result_matches(r, auth_outcome(*auth, match provided {
            Some(p) => Some(p@),
            None => None,
        })),
{
    if auth.dev_mode {
        return Ok(());
    }
    let expected = match &auth.token {
        Some(t) => t,
        None => {
            return Err(ApiError::new(UNAUTHORIZED, "auth_not_configured", "API token is not configured"));
        },
    };
    match provided {
        Some(token) => if str_eq(token, expected.as_str()) {
            Ok(())
        } else {
            Err(ApiError::new(UNAUTHORIZED, "unauthorized", "valid localhost API token required"))
        },
        None => Err(ApiError::new(UNAUTHORIZED, "unauthorized", "valid localhost API token required")),
    }
}

/// The token of an `Authorization` header value: what follows `Bearer `.
pub open spec fn bearer_spec(authorization: Option<Seq<char>>) -> Option<Seq<char>> {
    match authorization {
        Some(v) => if "Bearer "@.len() <= v.len() && v.subrange(0, "Bearer "@.len() as int) == "Bearer "@ {
            Some(v.subrange("Bearer "@.len() as int, v.len() as int))
        } else {
            None
        },
        None => None,
    }
}

/// The token a request carries: the bearer token, else the `x-vaexcore-token` header.
pub open spec fn provided_token(authorization: Option<Seq<char>>, token_header: Option<Seq<char>>) -> Option<Seq<char>> {
    match bearer_spec(authorization) {
        Some(t) => Some(t),
        None => token_header,
    }
}

pub open spec fn opt_str_view(o: Option<&str>) -> Option<Seq<char>> {
    match o {
        Some(s) => Some(s@),
        None => None,
    }
}

fn bearer_token(authorization: Option<&str>) -> (r: Option<String>)
    ensures
        match r {
            Some(t) => bearer_spec(opt_str_view(authorization)) == Some(t@),
            None => bearer_spec(opt_str_view(authorization)) is None,
        },
{
    match authorization {
        Some(v) => if starts_with(v, "Bearer ") {
            let cs = chars_of(v);
            let n = "Bearer ".unicode_len();
            let mut out: Vec<char> = Vec::new();
            let mut k: usize = n;
            while k < cs.len()
                invariant
                    cs@ == v@,
                    n == "Bearer "@.len(),
                    n <= k <= cs@.len(),
                    out@ == v@.subrange(n as int, k as int),
                decreases cs@.len() - k,
            {
                out.push(cs[k]);
                k = k + 1;
                assert(out@ =~= v@.subrange(n as int, k as int));
            }
            Some(string_from_chars(out.as_slice()))
        } else {
            None
        },
        None => None,
    }
}

/// Authorizes a request by its headers: `authorization` is the value of the
/// `Authorization` header and `token_header` that of `x-vaexcore-token`, where they
/// are present and readable as text.
pub fn authorize_headers(authorization: Option<&str>, token_header: Option<&str>, auth: &AuthConfig) -> (r: Result<
    (),
    ApiError,
>)
    ensures
        auth_result_matches(r, auth_outcome(*auth, provided_token(opt_str_view(authorization), opt_str_view(token_header)))),
{
    let bearer = bearer_token(authorization);
    match &bearer {
        Some(t) => authorize_token(Some(t.as_str()), auth),
        None => authorize_token(token_header, auth),
    }
}

pub open spec fn opt_string_view(o: Option<String>) -> Option<Seq<char>> {
    match o {
        Some(s) => Some(s@),
        None => None,
    }
}

/// Authorizes an event stream by the token in its query.
pub fn authorize_query(query: &TokenQuery, auth: &AuthConfig) -> (r: Result<(), ApiError>)
    ensures
        auth_result_matches(r, auth_outcome(*auth, opt_string_view(query.token))),
{
    match &query.token {
        Some(t) => authorize_token(Some(t.as_str()), auth),
        None => authorize_token(None, auth),
    }
}

/// How many recent events an event stream replays.
pub fn event_replay_limit(limit: Option<usize>) -> (r: usize)
    ensures
        r == (match limit {
            Some(n) => if n < DEFAULT_EVENT_REPLAY_LIMIT { n } else { DEFAULT_EVENT_REPLAY_LIMIT },
            None => DEFAULT_EVENT_REPLAY_LIMIT,
        }),
{
    match limit {
        Some(n) => if n < DEFAULT_EVENT_REPLAY_LIMIT { n } else { DEFAULT_EVENT_REPLAY_LIMIT },
        None => DEFAULT_EVENT_REPLAY_LIMIT,
    }
}

// ---------------------------------------------------------------------------------
// Request identity

/// A character allowed in request and client identifiers.
pub open spec fn id_char(c: char) -> bool {
    crate::text::is_ascii_alnum(c) || c == '_' || c == '-' || c == '.'
}

/// A request identifier: 1 to 128 characters, each an ASCII letter or digit, `_`,
/// `-` or `.`.
pub open spec fn valid_request_id(v: Seq<char>) -> bool {
    0 < v.len() <= 128 && forall|i: int| 0 <= i < v.len() ==> id_char(#[trigger] v[i])
}

fn id_char_exec(c: char) -> (r: bool)
    ensures
        r == id_char(c),
{
    ('a' <= c && c <= 'z') || ('A' <= c && c <= 'Z') || ('0' <= c && c <= '9') || c == '_' || c == '-' || c == '.'
}

fn all_id_chars(v: &str) -> (r: bool)
    ensures
        r == forall|i: int| 0 <= i < v@.len() ==> id_char(#[trigger] v@[i]),
{
    let n = v.unicode_len();
    let mut i: usize = 0;
    while i < n
        invariant
            n == v@.len(),
            i <= n,
            forall|j: int| 0 <= j < i ==> id_char(#[trigger] v@[j]),
        decreases n - i,
    {
        if !id_char_exec(v.get_char(i)) {
            return false;
        }
        i = i + 1;
    }
    true
}

/// Whether a request identifier sent by a client is acceptable.
pub fn is_valid_request_id(value: &str) -> (r: bool)
    ensures
        r == valid_request_id(value@),
{
    let n = value.unicode_len();
    n > 0 && n <= 128 && all_id_chars(value)
}

/// The request's identifier: the client's, trimmed, when it is valid.
pub open spec fn request_id_taken(header: Option<Seq<char>>) -> Option<Seq<char>> {
    match header {
        Some(v) => if valid_request_id(trim_spec(v)) { Some(trim_spec(v)) } else { None },
        None => None,
    }
}

/// The identifier of a request: the one in its `x-vaexcore-request-id` header when that
/// is valid after trimming, else a new `req` identifier.
pub fn resolve_request_id(header: Option<&str>) -> (r: String)
    ensures
        match request_id_taken(opt_str_view(header)) {
            Some(v) => r@ == v,
            None => is_generated_id("req"@, r@),
        },
{
    match header {
        Some(v) => {
            let t = trim(v);
            if is_valid_request_id(t.as_str()) {
                t
            } else {
                new_id("req")
            }
        },
        None => new_id("req"),
    }
}

/// The first `n` characters.
pub open spec fn take_chars(s: Seq<char>, n: nat) -> Seq<char> {
    if s.len() <= n { s } else { s.subrange(0, n as int) }
}

fn take_prefix(s: &str, n: usize) -> (r: String)
    ensures
        r@ == take_chars(s@, n as nat),
{
    let m = s.unicode_len();
    if m <= n {
        return String::from_str(s);
    }
    let mut out: Vec<char> = Vec::new();
    let mut k: usize = 0;
    while k < n
        invariant
            m == s@.len(),
            n < m,
            k <= n,
            out@ == s@.subrange(0, k as int),
        decreases n - k,
    {
        out.push(s.get_char(k));
        k = k + 1;
        assert(out@ =~= s@.subrange(0, k as int));
    }
    string_from_chars(out.as_slice())
}

/// A header value trimmed and cut to `max_len` characters; nothing when blank.
pub open spec fn header_spec(value: Option<Seq<char>>, max_len: nat) -> Option<Seq<char>> {
    match value {
        Some(v) => if trim_spec(v).len() == 0 { None } else { Some(take_chars(trim_spec(v), max_len)) },
        None => None,
    }
}

/// A header's text, trimmed and cut to `max_len` characters, when it is not blank.
pub fn header_string(value: Option<&str>, max_len: usize) -> (r: Option<String>)
    ensures
        opt_string_view(r) == header_spec(opt_str_view(value), max_len as nat),
{
    match value {
        Some(v) => {
            let t = trim(v);
            if t.unicode_len() == 0 {
                None
            } else {
                Some(take_prefix(t.as_str(), max_len))
            }
        },
        None => None,
    }
}

/// A query parameter trimmed, when it is not blank.
pub fn normalize_optional_query(value: Option<String>) -> (r: Option<String>)
    ensures
        opt_string_view(r) == (match value {
            Some(v) => if trim_spec(v@).len() == 0 { None } else { Some(trim_spec(v@)) },
            None => None,
        }),
{
    match value {
        Some(v) => {
            let t = trim(v.as_str());
            if t.unicode_len() == 0 {
                None
            } else {
                Some(t)
            }
        },
        None => None,
    }
}

/// The characters before the first whitespace.
pub open spec fn until_ws(s: Seq<char>) -> Seq<char>
    decreases s.len(),
{
    if s.len() == 0 || is_ws(s[0]) {
        seq![]
    } else {
        seq![s[0]] + until_ws(s.drop_first())
    }
}

/// The first word of a user agent, cut to 96 characters, or `Local client`.
pub open spec fn compact_user_agent_spec(v: Seq<char>) -> Seq<char> {
    let word = until_ws(trim_ws_start(v));
    take_chars(if word.len() == 0 { "Local client"@ } else { word }, 96)
}

/// The first whitespace-separated word of a user agent, for a client's name.
pub fn compact_user_agent(value: &str) -> (r: String)
    ensures
        r@ == compact_user_agent_spec(value@),
{
    let cs = chars_of(value);
    let mut i: usize = 0;
    assert(cs@.skip(0) =~= cs@);
    while i < cs.len() && crate::text::char_is_ws(cs[i])
        invariant
            cs@ == value@,
            i <= cs@.len(),
            trim_ws_start(value@) == trim_ws_start(cs@.skip(i as int)),
        decreases cs@.len() - i,
    {
        assert(cs@.skip(i as int).drop_first() =~= cs@.skip(i + 1));
        i = i + 1;
    }
    let ghost rest = cs@.skip(i as int);
    assert(trim_ws_start(rest) == rest);
    let mut word: Vec<char> = Vec::new();
    let mut k: usize = i;
    assert(rest.skip(0) =~= rest);
    while k < cs.len() && !crate::text::char_is_ws(cs[k])
        invariant
            cs@ == value@,
            i <= k <= cs@.len(),
            rest == cs@.skip(i as int),
            until_ws(rest) == word@ + until_ws(rest.skip(k - i)),
        decreases cs@.len() - k,
    {
        assert(rest.skip(k - i).drop_first() =~= rest.skip(k + 1 - i));
        assert(rest.skip(k - i)[0] == cs@[k as int]);
        word.push(cs[k]);
        k = k + 1;
        assert(until_ws(rest) =~= word@ + until_ws(rest.skip(k - i)));
    }
    assert(until_ws(rest.skip(k - i)) =~= Seq::<char>::empty());
    assert(word@ =~= until_ws(rest));
    if word.len() == 0 {
        take_prefix("Local client", 96)
    } else {
        let w = string_from_chars(word.as_slice());
        take_prefix(w.as_str(), 96)
    }
}

/// What the API learns of a client from a request.
#[derive(Clone, Debug)]
pub struct ClientSeen {
    pub client_id: Option<String>,
    pub name: String,
    pub kind: String,
    pub user_agent: Option<String>,
    pub request_id: Option<String>,
    pub path: Option<String>,
}

/// A client identifier is kept only when each of its characters is allowed.
pub open spec fn client_id_spec(header: Option<Seq<char>>) -> Option<Seq<char>> {
    match header_spec(header, 128) {
        Some(v) => if forall|i: int| 0 <= i < v.len() ==> id_char(#[trigger] v[i]) { Some(v) } else { None },
        None => None,
    }
}

/// The client's name: its name header, else its user agent's first word, else a name
/// for its kind of connection.
pub open spec fn client_name_spec(name_header: Option<Seq<char>>, user_agent: Option<Seq<char>>, path: Seq<char>) -> Seq<
    char,
> {
    match header_spec(name_header, 96) {
        Some(n) => n,
        None => match header_spec(user_agent, 240) {
            Some(ua) => compact_user_agent_spec(ua),
            None => if path == "/events"@ { "WebSocket client"@ } else { "Local HTTP client"@ },
        },
    }
}

/// The client of a request, from its `user-agent`, `x-vaexcore-client-id` and
/// `x-vaexcore-client-name` headers and its path.
pub fn client_seen_from_headers(
    user_agent: Option<&str>,
    client_id: Option<&str>,
    client_name: Option<&str>,
    path: &str,
    request_id: Option<String>,
) -> (r: ClientSeen)
    ensures
        opt_string_view(r.user_agent) == header_spec(opt_str_view(user_agent), 240),
        opt_string_view(r.client_id) == client_id_spec(opt_str_view(client_id)),
        r.name@ == client_name_spec(opt_str_view(client_name), opt_str_view(user_agent), path@),
        r.kind@ == (if path@ == "/events"@ { "websocket"@ } else { "http"@ }),
        r.request_id == request_id,
        opt_string_view(r.path) == Some(path@),
{
    let ua = header_string(user_agent, 240);
    let id = match header_string(client_id, 128) {
        Some(v) => if all_id_chars(v.as_str()) { Some(v) } else { None },
        None => None,
    };
    let is_events = str_eq(path, "/events");
    let name = match header_string(client_name, 96) {
        Some(n) => n,
        None => match &ua {
            Some(v) => compact_user_agent(v.as_str()),
            None => if is_events {
                String::from_str("WebSocket client")
            } else {
                String::from_str("Local HTTP client")
            },
        },
    };
    let kind = if is_events { String::from_str("websocket") } else { String::from_str("http") };
    ClientSeen { client_id: id, name, kind, user_agent: ua, request_id, path: Some(String::from_str(path)) }
}

// ---------------------------------------------------------------------------------
// Audited commands

pub open spec fn has_prefix(s: Seq<char>, p: Seq<char>) -> bool {
    p.len() <= s.len() && s.subrange(0, p.len() as int) == p
}

/// The audit action of a request that changes the studio's state.
pub open spec fn command_action_spec(method: Seq<char>, path: Seq<char>) -> Option<Seq<char>> {
    if method == "POST"@ && path == "/recording/start"@ {
        Some("recording.start"@)
    } else if method == "POST"@ && path == "/recording/stop"@ {
        Some("recording.stop"@)
    } else if method == "POST"@ && path == "/stream/start"@ {
        Some("stream.start"@)
    } else if method == "POST"@ && path == "/stream/stop"@ {
        Some("stream.stop"@)
    } else if method == "PUT"@ && path == "/scenes"@ {
        Some("scenes.save"@)
    } else if method == "POST"@ && path == "/scenes/validate"@ {
        Some("scenes.validate"@)
    } else if method == "POST"@ && path == "/media/plan"@ {
        Some("media.plan"@)
    } else if method == "POST"@ && path == "/media/validate"@ {
        Some("media.validate"@)
    } else if method == "POST"@ && path == "/marker/create"@ {
        Some("marker.create"@)
    } else if method == "POST"@ && path == "/profiles"@ {
        Some("profiles.create"@)
    } else if method == "PUT"@ && has_prefix(path, "/profiles/recording/"@) {
        Some("profiles.recording.update"@)
    } else if method == "DELETE"@ && has_prefix(path, "/profiles/recording/"@) {
        Some("profiles.recording.delete"@)
    } else if method == "PUT"@ && has_prefix(path, "/profiles/destinations/"@) {
        Some("profiles.destination.update"@)
    } else if method == "DELETE"@ && has_prefix(path, "/profiles/destinations/"@) {
        Some("profiles.destination.delete"@)
    } else {
        None
    }
}

/// The route of a request audited under `action`.
proof fn lemma_action_route(m: Seq<char>, p: Seq<char>, action: Seq<char>)
    requires
        command_action_spec(m, p) == Some(action),
    ensures
        action == "recording.start"@ ==> m == "POST"@ && p == "/recording/start"@,
        action == "recording.stop"@ ==> m == "POST"@ && p == "/recording/stop"@,
        action == "stream.start"@ ==> m == "POST"@ && p == "/stream/start"@,
        action == "stream.stop"@ ==> m == "POST"@ && p == "/stream/stop"@,
        action == "scenes.save"@ ==> m == "PUT"@ && p == "/scenes"@,
        action == "scenes.validate"@ ==> m == "POST"@ && p == "/scenes/validate"@,
        action == "media.plan"@ ==> m == "POST"@ && p == "/media/plan"@,
        action == "media.validate"@ ==> m == "POST"@ && p == "/media/validate"@,
        action == "marker.create"@ ==> m == "POST"@ && p == "/marker/create"@,
        action == "profiles.create"@ ==> m == "POST"@ && p == "/profiles"@,
        action == "profiles.recording.update"@ ==> m == "PUT"@ && has_prefix(p, "/profiles/recording/"@),
        action == "profiles.recording.delete"@ ==> m == "DELETE"@ && has_prefix(p, "/profiles/recording/"@),
        action == "profiles.destination.update"@ ==> m == "PUT"@ && has_prefix(p, "/profiles/destinations/"@),
        action == "profiles.destination.delete"@ ==> m == "DELETE"@ && has_prefix(p, "/profiles/destinations/"@),
        action == "recording.start"@ || action == "recording.stop"@ || action == "stream.start"@ || action
            == "stream.stop"@ || action == "scenes.save"@ || action == "scenes.validate"@ || action == "media.plan"@
            || action == "media.validate"@ || action == "marker.create"@ || action == "profiles.create"@ || action
            == "profiles.recording.update"@ || action == "profiles.recording.delete"@ || action
            == "profiles.destination.update"@ || action == "profiles.destination.delete"@,
{
    reveal_strlit("recording.start");
    reveal_strlit("recording.stop");
    reveal_strlit("stream.start");
    reveal_strlit("stream.stop");
    reveal_strlit("scenes.save");
    reveal_strlit("scenes.validate");
    reveal_strlit("media.plan");
    reveal_strlit("media.validate");
    reveal_strlit("marker.create");
    reveal_strlit("profiles.create");
    reveal_strlit("profiles.recording.update");
    reveal_strlit("profiles.recording.delete");
    reveal_strlit("profiles.destination.update");
    reveal_strlit("profiles.destination.delete");
    assert("recording.start"@.len() == 15);
    assert("recording.stop"@.len() == 14);
    assert("stream.start"@.len() == 12);
    assert("stream.stop"@.len() == 11);
    assert("scenes.save"@.len() == 11);
    assert("scenes.validate"@.len() == 15);
    assert("media.plan"@.len() == 10);
    assert("media.validate"@.len() == 14);
    assert("marker.create"@.len() == 13);
    assert("profiles.create"@.len() == 15);
    assert("profiles.recording.update"@.len() == 25);
    assert("profiles.recording.delete"@.len() == 25);
    assert("profiles.destination.update"@.len() == 27);
    assert("profiles.destination.delete"@.len() == 27);
    assert("recording.start"@[0] != "scenes.validate"@[0] && "recording.start"@[0] != "profiles.create"@[0]
        && "scenes.validate"@[0] != "profiles.create"@[0]);
    assert("recording.stop"@[0] != "media.validate"@[0]);
    assert("stream.stop"@[1] != "scenes.save"@[1]);
    assert("recording.start"@ != "scenes.validate"@ && "recording.start"@ != "profiles.create"@
        && "scenes.validate"@ != "profiles.create"@);
    assert("stream.stop"@ != "scenes.save"@);
    assert("recording.stop"@ != "media.validate"@);
    assert("profiles.recording.update"@[19] != "profiles.recording.delete"@[19]);
    assert("profiles.destination.update"@[21] != "profiles.destination.delete"@[21]);
}

/// Different commands are audited under different actions: two requests that get the
/// same action have the same method and either the same path or paths under the same
/// profile route.
pub proof fn lemma_command_actions_distinct(m1: Seq<char>, p1: Seq<char>, m2: Seq<char>, p2: Seq<char>)
    requires
        command_action_spec(m1, p1) is Some,
        command_action_spec(m1, p1) == command_action_spec(m2, p2),
    ensures
        m1 == m2,
        p1 == p2 || (has_prefix(p1, "/profiles/recording/"@) && has_prefix(p2, "/profiles/recording/"@)) || (has_prefix(
            p1,
            "/profiles/destinations/"@,
        ) && has_prefix(p2, "/profiles/destinations/"@)),
{
    let a = command_action_spec(m1, p1).unwrap();
    lemma_action_route(m1, p1, a);
    lemma_action_route(m2, p2, a);
}

/// The path with its leading slash dropped and each further slash made a dot.
pub open spec fn dotted(path: Seq<char>) -> Seq<char> {
    path.drop_first().map_values(|c: char| if c == '/' { '.' } else { c })
}

/// A POST command on a path of the form `/area/verb` is audited as `area.verb`: the
/// action names the route it came from. (`POST /profiles` is audited as
/// `profiles.create`.)
#[verifier::rlimit(50)]
pub proof fn lemma_post_action_names_route(path: Seq<char>)
    requires
        command_action_spec("POST"@, path) is Some,
        path != "/profiles"@,
    ensures
        command_action_spec("POST"@, path) == Some(dotted(path)),
{
    reveal_strlit("recording.start");
    reveal_strlit("recording.stop");
    reveal_strlit("stream.start");
    reveal_strlit("stream.stop");
    reveal_strlit("scenes.save");
    reveal_strlit("scenes.validate");
    reveal_strlit("media.plan");
    reveal_strlit("media.validate");
    reveal_strlit("marker.create");
    reveal_strlit("profiles.create");
    reveal_strlit("profiles.recording.update");
    reveal_strlit("profiles.recording.delete");
    reveal_strlit("profiles.destination.update");
    reveal_strlit("profiles.destination.delete");
    reveal_strlit("POST");
    reveal_strlit("PUT");
    reveal_strlit("DELETE");
    reveal_strlit("/recording/start");
    reveal_strlit("/recording/stop");
    reveal_strlit("/stream/start");
    reveal_strlit("/stream/stop");
    reveal_strlit("/scenes/validate");
    reveal_strlit("/media/plan");
    reveal_strlit("/media/validate");
    reveal_strlit("/marker/create");
    reveal_strlit("/scenes");
    reveal_strlit("/profiles");
    assert("POST"@.len() != "PUT"@.len() && "POST"@.len() != "DELETE"@.len());
    assert("/recording/start"@[1] != "/scenes/validate"@[1]);
    assert("/recording/stop"@[1] != "/media/validate"@[1]);
    if path == "/recording/start"@ {
        assert(dotted(path) =~= "recording.start"@);
    } else if path == "/recording/stop"@ {
        assert(dotted(path) =~= "recording.stop"@);
    } else if path == "/stream/start"@ {
        assert(dotted(path) =~= "stream.start"@);
    } else if path == "/stream/stop"@ {
        assert(dotted(path) =~= "stream.stop"@);
    } else if path == "/scenes/validate"@ {
        assert(dotted(path) =~= "scenes.validate"@);
    } else if path == "/media/plan"@ {
        assert(dotted(path) =~= "media.plan"@);
    } else if path == "/media/validate"@ {
        assert(dotted(path) =~= "media.validate"@);
    } else if path == "/marker/create"@ {
        assert(dotted(path) =~= "marker.create"@);
    }
}

/// The audit action of a request, when the request is a command.
#[verifier::rlimit(50)]
pub fn command_action(method: &str, path: &str) -> (r: Option<String>)
    ensures
        opt_string_view(r) == command_action_spec(method@, path@),
{
    let post = str_eq(method, "POST");
    let put = str_eq(method, "PUT");
    let delete = str_eq(method, "DELETE");
    let action: &str = if post && str_eq(path, "/recording/start") {
        "recording.start"
    } else if post && str_eq(path, "/recording/stop") {
        "recording.stop"
    } else if post && str_eq(path, "/stream/start") {
        "stream.start"
    } else if post && str_eq(path, "/stream/stop") {
        "stream.stop"
    } else if put && str_eq(path, "/scenes") {
        "scenes.save"
    } else if post && str_eq(path, "/scenes/validate") {
        "scenes.validate"
    } else if post && str_eq(path, "/media/plan") {
        "media.plan"
    } else if post && str_eq(path, "/media/validate") {
        "media.validate"
    } else if post && str_eq(path, "/marker/create") {
        "marker.create"
    } else if post && str_eq(path, "/profiles") {
        "profiles.create"
    } else if put && starts_with(path, "/profiles/recording/") {
        "profiles.recording.update"
    } else if delete && starts_with(path, "/profiles/recording/") {
        "profiles.recording.delete"
    } else if put && starts_with(path, "/profiles/destinations/") {
        "profiles.destination.update"
    } else if delete && starts_with(path, "/profiles/destinations/") {
        "profiles.destination.delete"
    } else {
        return None;
    };
    Some(String::from_str(action))
}

// ---------------------------------------------------------------------------------
// Responses

#[derive(Clone, Debug)]
pub struct ApiErrorBody {
    pub code: String,
    pub message: String,
}

/// The envelope of every API answer.
#[derive(Clone, Debug)]
pub struct ApiResponse<T> {
    pub ok: bool,
    pub data: Option<T>,
    pub error: Option<ApiErrorBody>,
}

impl<T> ApiResponse<T> {
    /// A successful answer carrying the data.
    pub fn ok(data: T) -> (r: ApiResponse<T>)
        ensures
            r.ok,
            r.data == Some(data),
            r.error is None,
    {
        ApiResponse { ok: true, data: Some(data), error: None }
    }

    /// A failed answer with a code and a message.
    pub fn error(code: &str, message: &str) -> (r: ApiResponse<T>)
        ensures
            !r.ok,
            r.data is None,
            r.error matches Some(e) && e.code@ == code@ && e.message@ == message@,
    {
        ApiResponse {
            ok: false,
            data: None,
            error: Some(ApiErrorBody { code: String::from_str(code), message: String::from_str(message) }),
        }
    }
}

impl ApiError {
    /// The answer body of the error.
    pub fn body<T>(&self) -> (r: ApiResponse<T>)
        ensures
            !r.ok,
            r.data is None,
            r.error matches Some(e) && e.code@ == self.code@ && e.message@ == self.message@,
    {
        ApiResponse::error(self.code.as_str(), self.message.as_str())
    }
}

#[derive(Clone, Debug)]
pub struct HealthResponse {
    pub service: String,
    pub version: String,
    pub ok: bool,
    pub auth_required: bool,
    pub dev_auth_bypass: bool,
}

/// The answer to a health check.
pub fn health_response(service: &str, version: &str, auth: &AuthConfig) -> (r: HealthResponse)
    ensures
        r.service@ == service@,
        r.version@ == version@,
        r.ok,
        r.auth_required == (!auth.dev_mode && auth.token is Some),
        r.dev_auth_bypass == auth.dev_mode,
{
    HealthResponse {
        service: String::from_str(service),
        version: String::from_str(version),
        ok: true,
        auth_required: auth.auth_required(),
        dev_auth_bypass: auth.dev_mode,
    }
}

#[derive(Clone, Debug)]
pub struct StartRecordingRequest {
    pub profile_id: Option<String>,
}

#[derive(Clone, Debug)]
pub struct StartStreamRequest {
    pub destination_id: Option<String>,
    pub bandwidth_test: bool,
}

#[derive(Clone, Debug)]
pub struct MarkerQuery {
    pub source_app: Option<String>,
    pub source_event_id: Option<String>,
    pub recording_session_id: Option<String>,
    pub limit: Option<usize>,
}

#[derive(Clone, Debug)]
pub struct DeletedProfile {
    pub id: String,
    pub deleted: bool,
}

} // verus!
