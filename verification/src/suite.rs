//! The suite protocol between the vaexcore desktop apps: discovery heartbeats,
//! commands and recording handoffs, checked before they are written or trusted.

use vstd::prelude::*;
use crate::text::{
    blank, cat2, chars_of, decimal, i64_to_decimal, is_blank, quoted, signed_decimal, starts_with, str_eq,
    string_from_chars, trim, trim_dash_end, trim_dash_start, trim_dashes, trim_spec, u64_to_decimal,
};

verus! {

/// The suite identifier of vaexcore studio.
pub const STUDIO_APP_ID: &'static str = "vaexcore-studio";

/// The suite identifier of vaexcore pulse.
pub const PULSE_APP_ID: &'static str = "vaexcore-pulse";

/// The suite identifier of vaexcore console.
pub const CONSOLE_APP_ID: &'static str = "vaexcore-console";

/// A heartbeat older than this many nanoseconds is stale.
pub const SUITE_DISCOVERY_STALE_AFTER_NANOS: i128 = 45_000_000_000;

/// How an app of the suite is known: its identifier, names and discovery file.
#[derive(Clone, Debug)]
pub struct SuiteAppDefinition {
    pub app_id: String,
    pub app_name: String,
    pub bundle_identifier: String,
    pub launch_name: String,
    pub discovery_file: String,
}

/// The suite's contract: its schema version and its apps.
#[derive(Clone, Debug)]
pub struct SuiteProtocol {
    pub schema_version: u8,
    pub apps: Vec<SuiteAppDefinition>,
}

/// The position of the first app with the identifier.
pub open spec fn app_index(apps: Seq<SuiteAppDefinition>, app_id: Seq<char>) -> Option<int>
    decreases apps.len(),
{
    if apps.len() == 0 {
        None
    } else if apps[0].app_id@ == app_id {
        Some(0)
    } else {
        match app_index(apps.drop_first(), app_id) {
            Some(i) => Some(i + 1),
            None => None,
        }
    }
}

proof fn lemma_app_index_bounds(apps: Seq<SuiteAppDefinition>, app_id: Seq<char>)
    ensures
        app_index(apps, app_id) matches Some(i) ==> 0 <= i < apps.len() && apps[i].app_id@ == app_id,
        app_index(apps, app_id) is None <==> forall|j: int| 0 <= j < apps.len() ==> (#[trigger] apps[j]).app_id@ != app_id,
    decreases apps.len(),
{
    if apps.len() > 0 {
        lemma_app_index_bounds(apps.drop_first(), app_id);
        if apps[0].app_id@ != app_id {
            assert forall|j: int| 0 <= j < apps.len() && (#[trigger] apps[j]).app_id@ == app_id implies
                apps.drop_first()[j - 1].app_id@ == app_id by {}
        }
    }
}

/// The position of the suite app with the identifier.
pub fn suite_app_definition_for(apps: &Vec<SuiteAppDefinition>, app_id: &str) -> (r: Option<usize>)
    ensures
        match r {
            Some(i) => app_index(apps@, app_id@) == Some(i as int),
            None => app_index(apps@, app_id@) is None,
        },
        r matches Some(i) ==> i < apps@.len() && apps@[i as int].app_id@ == app_id@,
{
    proof {
        lemma_app_index_bounds(apps@, app_id@);
    }
    let mut i: usize = 0;
    assert(apps@.skip(0) =~= apps@);
    while i < apps.len()
        invariant
            i <= apps@.len(),
            app_index(apps@, app_id@) == (match app_index(apps@.skip(i as int), app_id@) {
                Some(k) => Some(k + i),
                None => None,
            }),
        decreases apps@.len() - i,
    {
        assert(apps@.skip(i as int).drop_first() =~= apps@.skip(i + 1));
        assert(apps@.skip(i as int)[0] == apps@[i as int]);
        if str_eq(apps[i].app_id.as_str(), app_id) {
            return Some(i);
        }
        i = i + 1;
    }
    assert(apps@.skip(i as int).len() == 0);
    None
}

/// The name of an app's discovery file: its definition's, or the identifier
/// followed by `.json`.
pub open spec fn discovery_file_name(apps: Seq<SuiteAppDefinition>, app_id: Seq<char>) -> Seq<char> {
    match app_index(apps, app_id) {
        Some(i) => apps[i].discovery_file@,
        None => app_id + ".json"@,
    }
}

/// The name of the discovery file of an app, within the suite directory.
pub fn suite_discovery_file(apps: &Vec<SuiteAppDefinition>, app_id: &str) -> (r: String)
    ensures
        r@ == discovery_file_name(apps@, app_id@),
{
    match suite_app_definition_for(apps, app_id) {
        Some(i) => apps[i].discovery_file.clone(),
        None => cat2(app_id, ".json"),
    }
}

/// A heartbeat is stale when it was written after `now`, or more than the stale
/// interval before it. Times are nanoseconds from the Unix epoch.
pub open spec fn heartbeat_stale(modified_nanos: int, now_nanos: int) -> bool {
    now_nanos < modified_nanos || now_nanos - modified_nanos > SUITE_DISCOVERY_STALE_AFTER_NANOS
}

/// Whether a discovery heartbeat written at `modified_nanos` is stale at `now_nanos`.
pub fn suite_discovery_modified_is_stale(modified_nanos: i128, now_nanos: i128) -> (r: bool)
    ensures
        r == heartbeat_stale(modified_nanos as int, now_nanos as int),
{
    if now_nanos < modified_nanos {
        true
    } else if modified_nanos > i128::MAX - SUITE_DISCOVERY_STALE_AFTER_NANOS {
        false
    } else {
        now_nanos > modified_nanos + SUITE_DISCOVERY_STALE_AFTER_NANOS
    }
}

/// The status line of a suite app, from the first condition that is not met.
pub open spec fn status_detail_spec(
    install_hint: Seq<char>,
    installed: bool,
    discovered: bool,
    running: bool,
    stale: bool,
    reachable: bool,
) -> Seq<char> {
    if !installed {
        install_hint
    } else if !discovered {
        "No suite heartbeat has been published yet."@
    } else if !running {
        "Heartbeat exists, but the app process is not running."@
    } else if stale {
        "The suite heartbeat is stale."@
    } else if !reachable {
        "The app is running, but its local health endpoint is not reachable."@
    } else {
        "Ready."@
    }
}

/// Describes a suite app's state; `install_hint` is the platform's advice for an app
/// that is not installed.
pub fn suite_status_detail(
    install_hint: &str,
    installed: bool,
    discovered: bool,
    running: bool,
    stale: bool,
    reachable: bool,
) -> (r: String)
    ensures
        r@ == status_detail_spec(install_hint@, installed, discovered, running, stale, reachable),
{
    if !installed {
        return String::from_str(install_hint);
    }
    if !discovered {
        return String::from_str("No suite heartbeat has been published yet.");
    }
    if !running {
        return String::from_str("Heartbeat exists, but the app process is not running.");
    }
    if stale {
        return String::from_str("The suite heartbeat is stale.");
    }
    if !reachable {
        return String::from_str("The app is running, but its local health endpoint is not reachable.");
    }
    String::from_str("Ready.")
}

// ---------------------------------------------------------------------------------
// File-name components

pub open spec fn component_char(c: char) -> char {
    if crate::text::is_ascii_alnum(c) || c == '-' || c == '_' {
        c
    } else {
        '-'
    }
}

/// The characters kept as they are or replaced by a dash, then the dashes trimmed
/// from both ends; the fallback if nothing is left, else the first 80 characters.
pub open spec fn sanitize_spec(value: Seq<char>, fallback: Seq<char>) -> Seq<char> {
    let t = trim_dash_end(trim_dash_start(value.map_values(|c: char| component_char(c))));
    if t.len() == 0 {
        fallback
    } else if t.len() > 80 {
        t.subrange(0, 80)
    } else {
        t
    }
}

fn sanitize_component(value: &str, fallback: &str) -> (r: String)
    ensures
        r@ == sanitize_spec(value@, fallback@),
{
    let cs = chars_of(value);
    let mut mapped: Vec<char> = Vec::new();
    let mut i: usize = 0;
    while i < cs.len()
        invariant
            cs@ == value@,
            i <= cs@.len(),
            mapped@ == cs@.subrange(0, i as int).map_values(|c: char| component_char(c)),
        decreases cs@.len() - i,
    {
        let c = cs[i];
        let keep = ('a' <= c && c <= 'z') || ('A' <= c && c <= 'Z') || ('0' <= c && c <= '9') || c == '-' || c == '_';
        mapped.push(if keep { c } else { '-' });
        i = i + 1;
        assert(mapped@ =~= cs@.subrange(0, i as int).map_values(|c: char| component_char(c)));
    }
    assert(cs@.subrange(0, cs@.len() as int) =~= cs@);
    let t = trim_dashes(&mapped);
    if t.len() == 0 {
        return String::from_str(fallback);
    }
    let n: usize = if t.len() > 80 { 80 } else { t.len() };
    let mut out: Vec<char> = Vec::new();
    let mut k: usize = 0;
    while k < n
        invariant
            n <= t@.len(),
            k <= n,
            out@ == t@.subrange(0, k as int),
        decreases n - k,
    {
        out.push(t[k]);
        k = k + 1;
        assert(out@ =~= t@.subrange(0, k as int));
    }
    assert(t@.len() <= 80 ==> t@.subrange(0, n as int) =~= t@);
    string_from_chars(out.as_slice())
}

proof fn lemma_trim_dashes_sub(s: Seq<char>)
    ensures
        trim_dash_end(trim_dash_start(s)).len() <= s.len(),
        forall|i: int| 0 <= i < trim_dash_end(trim_dash_start(s)).len() ==> exists|j: int| 0 <= j < s.len()
            && #[trigger] trim_dash_end(trim_dash_start(s))[i] == s[j],
    decreases s.len(),
{
    if s.len() > 0 && s[0] == '-' {
        lemma_trim_dashes_sub(s.drop_first());
        let t = trim_dash_end(trim_dash_start(s));
        assert forall|i: int| 0 <= i < t.len() implies exists|j: int| 0 <= j < s.len() && #[trigger] t[i] == s[j] by {
            let j = choose|j: int| 0 <= j < s.drop_first().len() && t[i] == s.drop_first()[j];
            assert(s[j + 1] == t[i]);
        }
    } else {
        lemma_trim_end_sub(s);
    }
}

proof fn lemma_trim_end_sub(s: Seq<char>)
    ensures
        trim_dash_end(s).len() <= s.len(),
        forall|i: int| 0 <= i < trim_dash_end(s).len() ==> #[trigger] trim_dash_end(s)[i] == s[i],
    decreases s.len(),
{
    if s.len() > 0 && s.last() == '-' {
        lemma_trim_end_sub(s.drop_last());
    }
}

/// What the sanitizers give is safe in a file name: ASCII letters, digits, `-` and
/// `_` only, and at most 80 characters, whenever the fallback is.
pub proof fn lemma_sanitized_component_is_safe(value: Seq<char>, fallback: Seq<char>)
    requires
        fallback.len() <= 80,
        forall|i: int| 0 <= i < fallback.len() ==> component_char(#[trigger] fallback[i]) == fallback[i],
    ensures
        sanitize_spec(value, fallback).len() <= 80,
        forall|i: int| 0 <= i < sanitize_spec(value, fallback).len() ==> component_char(
            #[trigger] sanitize_spec(value, fallback)[i],
        ) == sanitize_spec(value, fallback)[i],
{
    let m = value.map_values(|c: char| component_char(c));
    lemma_trim_dashes_sub(m);
    let t = trim_dash_end(trim_dash_start(m));
    let r = sanitize_spec(value, fallback);
    if t.len() > 0 {
        assert forall|i: int| 0 <= i < r.len() implies component_char(#[trigger] r[i]) == r[i] by {
            assert(r[i] == t[i]);
            let j = choose|j: int| 0 <= j < m.len() && t[i] == m[j];
            assert(m[j] == component_char(value[j]));
        }
    }
}

/// A command identifier made safe for a file name, or `suite-command`.
pub fn sanitize_suite_file_component(value: &str) -> (r: String)
    ensures
        r@ == sanitize_spec(value@, "suite-command"@),
{
    sanitize_component(value, "suite-command")
}

/// A recording session identifier made safe for a handoff identifier, or `recording`.
pub fn sanitize_handoff_id(value: &str) -> (r: String)
    ensures
        r@ == sanitize_spec(value@, "recording"@),
{
    sanitize_component(value, "recording")
}

// ---------------------------------------------------------------------------------
// URLs

/// The text after the prefix, when the text starts with it.
pub open spec fn strip_prefix_spec(s: Seq<char>, prefix: Seq<char>) -> Option<Seq<char>> {
    if prefix.len() <= s.len() && s.subrange(0, prefix.len() as int) == prefix {
        Some(s.subrange(prefix.len() as int, s.len() as int))
    } else {
        None
    }
}

/// The text before the first slash.
pub open spec fn before_slash(s: Seq<char>) -> Seq<char>
    decreases s.len(),
{
    if s.len() == 0 || s[0] == '/' {
        seq![]
    } else {
        seq![s[0]] + before_slash(s.drop_first())
    }
}

/// The host and port of an `http://` or `https://` URL, when there is one.
pub open spec fn authority_spec(url: Seq<char>) -> Option<Seq<char>> {
    let rest = match strip_prefix_spec(url, "http://"@) {
        Some(r) => Some(r),
        None => strip_prefix_spec(url, "https://"@),
    };
    match rest {
        Some(r) => if before_slash(r).len() > 0 { Some(before_slash(r)) } else { None },
        None => None,
    }
}

/// The host and port of an HTTP URL.
pub fn http_url_authority(url: &str) -> (r: Option<String>)
    ensures
        match r {
            Some(a) => authority_spec(url@) == Some(a@),
            None => authority_spec(url@) is None,
        },
{
    let cs = chars_of(url);
    let start: usize = if starts_with(url, "http://") {
        proof { reveal_strlit("http://"); }
        7
    } else if starts_with(url, "https://") {
        proof { reveal_strlit("https://"); }
        8
    } else {
        return None;
    };
    proof {
        reveal_strlit("http://");
        reveal_strlit("https://");
    }
    let ghost rest = url@.subrange(start as int, url@.len() as int);
    let mut out: Vec<char> = Vec::new();
    let mut k: usize = start;
    assert(rest.skip(0) =~= rest);
    while k < cs.len() && cs[k] != '/'
        invariant
            cs@ == url@,
            start <= k <= cs@.len(),
            rest == url@.subrange(start as int, url@.len() as int),
            before_slash(rest) == out@ + before_slash(rest.skip(k - start)),
        decreases cs@.len() - k,
    {
        assert(rest.skip(k - start).drop_first() =~= rest.skip(k + 1 - start));
        assert(rest.skip(k - start)[0] == cs@[k as int]);
        out.push(cs[k]);
        k = k + 1;
        assert(before_slash(rest) =~= out@ + before_slash(rest.skip(k - start)));
    }
    assert(before_slash(rest.skip(k - start)) =~= Seq::<char>::empty());
    assert(out@ =~= before_slash(rest));
    if out.len() == 0 {
        None
    } else {
        Some(string_from_chars(out.as_slice()))
    }
}

/// A URL on the loopback host: HTTP or WebSocket on 127.0.0.1 or localhost, with a port.
pub open spec fn local_url(value: Seq<char>) -> bool {
    strip_prefix_spec(value, "http://127.0.0.1:"@) is Some || strip_prefix_spec(value, "http://localhost:"@) is Some
        || strip_prefix_spec(value, "ws://127.0.0.1:"@) is Some || strip_prefix_spec(value, "ws://localhost:"@) is Some
}

/// The error for a field whose URL is not local.
pub open spec fn local_url_error(value: Seq<char>, field: Seq<char>) -> Option<Seq<char>> {
    if local_url(value) {
        None
    } else {
        Some(field + " must be a localhost URL"@)
    }
}

/// `value` begins with `prefix`.
pub open spec fn begins_with(value: Seq<char>, prefix: Seq<char>) -> bool {
    prefix.len() <= value.len() && value.subrange(0, prefix.len() as int) == prefix
}

/// A URL is accepted as local exactly when it begins with `http://127.0.0.1:`,
/// `http://localhost:`, `ws://127.0.0.1:` or `ws://localhost:`; any other URL is
/// refused with an error that names the field.
pub proof fn lemma_loopback_urls_are_local(value: Seq<char>, field: Seq<char>)
    ensures
        begins_with(value, "http://127.0.0.1:"@) ==> local_url_error(value, field) is None,
        begins_with(value, "http://localhost:"@) ==> local_url_error(value, field) is None,
        begins_with(value, "ws://127.0.0.1:"@) ==> local_url_error(value, field) is None,
        begins_with(value, "ws://localhost:"@) ==> local_url_error(value, field) is None,
        !begins_with(value, "http://127.0.0.1:"@) && !begins_with(value, "http://localhost:"@) && !begins_with(value,
            "ws://127.0.0.1:"@) && !begins_with(value, "ws://localhost:"@) ==> local_url_error(value, field) == Some(
            field + " must be a localhost URL"@),
{
}

pub open spec fn result_matches(r: Result<(), String>, e: Option<Seq<char>>) -> bool {
    match r {
        Ok(_) => e is None,
        Err(m) => e == Some(m@),
    }
}

/// Accepts a local URL; refuses any other, naming the field.
pub fn validate_local_url(value: &str, field: &str) -> (r: Result<(), String>)
    ensures
        result_matches(r, local_url_error(value@, field@)),
{
    if starts_with(value, "http://127.0.0.1:") || starts_with(value, "http://localhost:") || starts_with(
        value,
        "ws://127.0.0.1:",
    ) || starts_with(value, "ws://localhost:") {
        Ok(())
    } else {
        Err(cat2(field, " must be a localhost URL"))
    }
}

fn validate_optional_local_url(value: &Option<String>, field: &str) -> (r: Result<(), String>)
    ensures
        result_matches(r, match value {
            Some(v) => local_url_error(v@, field@),
            None => None,
        }),
{
    match value {
        Some(v) => validate_local_url(v.as_str(), field),
        None => Ok(()),
    }
}

// ---------------------------------------------------------------------------------
// RFC 3339 timestamps

/// Whether `chrono::DateTime::parse_from_rfc3339` accepts the text.
pub uninterp spec fn rfc3339_accepts(text: Seq<char>) -> bool;

/// Calls `chrono::DateTime::parse_from_rfc3339` and reports whether it parsed.
/// The contract claims only that the answer is `rfc3339_accepts` of the text, so the
/// same text always gets the same answer; which texts the parser accepts is left to
/// chrono and is not stated here.
#[verifier::external_body]
fn parses_as_rfc3339(text: &str) -> (r: bool)
    ensures
        r == rfc3339_accepts(text@),
{
    chrono::DateTime::parse_from_rfc3339(text).is_ok()
}

// ---------------------------------------------------------------------------------
// Discovery documents

#[derive(Clone, Debug)]
pub struct SuiteLocalRuntimeDependency {
    pub name: String,
    pub kind: String,
    pub state: String,
    pub detail: String,
}

#[derive(Clone, Debug)]
pub struct SuiteLocalRuntime {
    pub contract_version: u8,
    pub mode: String,
    pub state: String,
    pub app_storage_dir: String,
    pub suite_dir: String,
    pub secure_storage: String,
    pub secret_storage_state: String,
    pub durable_storage: Vec<String>,
    pub network_policy: String,
    pub dependencies: Vec<SuiteLocalRuntimeDependency>,
}

/// What Studio reports of its local runtime in its heartbeat: local-first and ready,
/// its storage directories, how secrets are stored (as the secret store reports it,
/// or unknown and unavailable without a report), what it keeps on disk, localhost
/// networking only, and whether its media runner is managed or a dry-run fallback.
pub fn studio_suite_local_runtime(
    schema_version: u8,
    app_storage_dir: &str,
    suite_dir: &str,
    secret_storage: Option<(String, String)>,
    media_runner_configured: bool,
) -> (r: SuiteLocalRuntime)
    ensures
        r.contract_version == schema_version,
        r.mode@ == "local-first"@,
        r.state@ == "ready"@,
        r.app_storage_dir@ == app_storage_dir@,
        r.suite_dir@ == suite_dir@,
        match secret_storage {
            Some((secure, state)) => r.secure_storage@ == secure@ && r.secret_storage_state@ == state@,
            None => r.secure_storage@ == "unknown"@ && r.secret_storage_state@ == "unavailable"@,
        },
        crate::text::views(r.durable_storage@) == seq![
            "SQLite profiles, destinations, markers, and app settings"@,
            "Stream keys in app-owned secure storage"@,
            "api-discovery.json"@,
            "pipeline-plan.json and pipeline-config.json"@,
        ],
        r.network_policy@ == "localhost-only"@,
        r.dependencies@.len() == 1,
        r.dependencies@[0].name@ == "media-runner"@,
        r.dependencies@[0].kind@ == "managed-sidecar"@,
        media_runner_configured ==> r.dependencies@[0].state@ == "managed"@ && r.dependencies@[0].detail@
            == "Studio launched the bundled media-runner sidecar."@,
        !media_runner_configured ==> r.dependencies@[0].state@ == "dry-run-fallback"@ && r.dependencies@[0].detail@
            == "Studio is using the in-process dry-run media engine."@,
{
    let (secure_storage, secret_storage_state) = match secret_storage {
        Some((secure, state)) => (secure, state),
        None => (String::from_str("unknown"), String::from_str("unavailable")),
    };
    let durable_storage = vec![
        String::from_str("SQLite profiles, destinations, markers, and app settings"),
        String::from_str("Stream keys in app-owned secure storage"),
        String::from_str("api-discovery.json"),
        String::from_str("pipeline-plan.json and pipeline-config.json"),
    ];
    let (state, detail) = if media_runner_configured {
        (String::from_str("managed"), String::from_str("Studio launched the bundled media-runner sidecar."))
    } else {
        (String::from_str("dry-run-fallback"), String::from_str("Studio is using the in-process dry-run media engine."))
    };
    let dependencies = vec![SuiteLocalRuntimeDependency {
        name: String::from_str("media-runner"),
        kind: String::from_str("managed-sidecar"),
        state,
        detail,
    }];
    let r = SuiteLocalRuntime {
        contract_version: schema_version,
        mode: String::from_str("local-first"),
        state: String::from_str("ready"),
        app_storage_dir: String::from_str(app_storage_dir),
        suite_dir: String::from_str(suite_dir),
        secure_storage,
        secret_storage_state,
        durable_storage,
        network_policy: String::from_str("localhost-only"),
        dependencies,
    };
    assert(crate::text::views(r.durable_storage@) =~= seq![
        "SQLite profiles, destinations, markers, and app settings"@,
        "Stream keys in app-owned secure storage"@,
        "api-discovery.json"@,
        "pipeline-plan.json and pipeline-config.json"@,
    ]);
    r
}

/// The heartbeat that an app of the suite publishes.
#[derive(Clone, Debug)]
pub struct SuiteDiscoveryDocument {
    pub schema_version: u8,
    pub app_id: String,
    pub app_name: String,
    pub bundle_identifier: String,
    pub version: String,
    pub pid: u32,
    pub started_at: String,
    pub updated_at: String,
    pub api_url: Option<String>,
    pub ws_url: Option<String>,
    pub health_url: Option<String>,
    pub capabilities: Vec<String>,
    pub launch_name: String,
    pub suite_session_id: Option<String>,
    pub activity: Option<String>,
    pub activity_detail: Option<String>,
    pub local_runtime: Option<SuiteLocalRuntime>,
}

pub open spec fn schema_error(expected: u8, got: u8) -> Seq<char> {
    "expected schema version "@ + decimal(expected as nat) + ", got "@ + decimal(got as nat)
}

pub open spec fn opt_url_error(value: Option<String>, field: Seq<char>) -> Option<Seq<char>> {
    match value {
        Some(v) => local_url_error(v@, field),
        None => None,
    }
}

/// The checks of a discovery document after its identity, in order.
pub open spec fn discovery_tail_error(
    protocol: SuiteProtocol,
    d: SuiteDiscoveryDocument,
    started_at_valid: bool,
    updated_at_valid: bool,
) -> Option<Seq<char>> {
    if blank(d.version@) {
        Some("version is required"@)
    } else if d.pid == 0 {
        Some("pid must be greater than 0"@)
    } else if !started_at_valid {
        Some("startedAt must be an RFC3339 timestamp"@)
    } else if !updated_at_valid {
        Some("updatedAt must be an RFC3339 timestamp"@)
    } else if d.capabilities@.len() == 0 {
        Some("capabilities must not be empty"@)
    } else if opt_url_error(d.api_url, "apiUrl"@) is Some {
        opt_url_error(d.api_url, "apiUrl"@)
    } else if opt_url_error(d.ws_url, "wsUrl"@) is Some {
        opt_url_error(d.ws_url, "wsUrl"@)
    } else if opt_url_error(d.health_url, "healthUrl"@) is Some {
        opt_url_error(d.health_url, "healthUrl"@)
    } else {
        match d.local_runtime {
            Some(rt) => if rt.contract_version != protocol.schema_version {
                Some("localRuntime.contractVersion mismatch"@)
            } else if rt.dependencies@.len() == 0 {
                Some("localRuntime.dependencies must not be empty"@)
            } else {
                None
            },
            None => None,
        }
    }
}

/// The first problem with a discovery document, given whether its two timestamps
/// parse; `None` when it is valid.
pub open spec fn discovery_error(
    protocol: SuiteProtocol,
    d: SuiteDiscoveryDocument,
    started_at_valid: bool,
    updated_at_valid: bool,
) -> Option<Seq<char>> {
    if d.schema_version != protocol.schema_version {
        Some(schema_error(protocol.schema_version, d.schema_version))
    } else {
        match app_index(protocol.apps@, d.app_id@) {
            None => Some("unknown suite app "@ + d.app_id@),
            Some(i) => {
                let def = protocol.apps@[i];
                if d.app_name@ != def.app_name@ {
                    Some("unexpected appName "@ + d.app_name@)
                } else if d.bundle_identifier@ != def.bundle_identifier@ {
                    Some("unexpected bundleIdentifier "@ + d.bundle_identifier@)
                } else if d.launch_name@ != def.launch_name@ {
                    Some("unexpected launchName "@ + d.launch_name@)
                } else {
                    discovery_tail_error(protocol, d, started_at_valid, updated_at_valid)
                }
            },
        }
    }
}

fn schema_error_exec(expected: u8, got: u8) -> (r: String)
    ensures
        r@ == schema_error(expected, got),
{
    let e = u64_to_decimal(expected as u64);
    let g = u64_to_decimal(got as u64);
    let mut m = quoted("expected schema version ", e.as_str(), ", got ");
    m.append(g.as_str());
    m
}

fn check_discovery_tail(
    protocol: &SuiteProtocol,
    document: &SuiteDiscoveryDocument,
    started_at_valid: bool,
    updated_at_valid: bool,
) -> (r: Result<(), String>)
    ensures
        result_matches(r, discovery_tail_error(*protocol, *document, started_at_valid, updated_at_valid)),
{
    if is_blank(document.version.as_str()) {
        return Err(String::from_str("version is required"));
    }
    if document.pid == 0 {
        return Err(String::from_str("pid must be greater than 0"));
    }
    if !started_at_valid {
        return Err(String::from_str("startedAt must be an RFC3339 timestamp"));
    }
    if !updated_at_valid {
        return Err(String::from_str("updatedAt must be an RFC3339 timestamp"));
    }
    if document.capabilities.len() == 0 {
        return Err(String::from_str("capabilities must not be empty"));
    }
    validate_optional_local_url(&document.api_url, "apiUrl")?;
    validate_optional_local_url(&document.ws_url, "wsUrl")?;
    validate_optional_local_url(&document.health_url, "healthUrl")?;
    match &document.local_runtime {
        Some(rt) => {
            if rt.contract_version != protocol.schema_version {
                return Err(String::from_str("localRuntime.contractVersion mismatch"));
            }
            if rt.dependencies.len() == 0 {
                return Err(String::from_str("localRuntime.dependencies must not be empty"));
            }
        },
        None => {},
    }
    Ok(())
}

/// Checks a discovery document against the suite's contract, given whether its
/// `startedAt` and `updatedAt` parse as RFC 3339 timestamps: the first failed
/// check is the error.
pub fn check_suite_discovery_document(
    protocol: &SuiteProtocol,
    document: &SuiteDiscoveryDocument,
    started_at_valid: bool,
    updated_at_valid: bool,
) -> (r: Result<(), String>)
    ensures
        result_matches(r, discovery_error(*protocol, *document, started_at_valid, updated_at_valid)),
{
    if document.schema_version != protocol.schema_version {
        return Err(schema_error_exec(protocol.schema_version, document.schema_version));
    }
    let i = match suite_app_definition_for(&protocol.apps, document.app_id.as_str()) {
        Some(i) => i,
        None => {
            return Err(cat2("unknown suite app ", document.app_id.as_str()));
        },
    };
    let def = &protocol.apps[i];
    if !str_eq(document.app_name.as_str(), def.app_name.as_str()) {
        return Err(cat2("unexpected appName ", document.app_name.as_str()));
    }
    if !str_eq(document.bundle_identifier.as_str(), def.bundle_identifier.as_str()) {
        return Err(cat2("unexpected bundleIdentifier ", document.bundle_identifier.as_str()));
    }
    if !str_eq(document.launch_name.as_str(), def.launch_name.as_str()) {
        return Err(cat2("unexpected launchName ", document.launch_name.as_str()));
    }
    check_discovery_tail(protocol, document, started_at_valid, updated_at_valid)
}

/// Checks a discovery document against the suite's contract; its timestamps are
/// parsed with chrono.
pub fn validate_suite_discovery_document(protocol: &SuiteProtocol, document: &SuiteDiscoveryDocument) -> (r:
    Result<(), String>)
    ensures
        result_matches(r, discovery_error(*protocol, *document, rfc3339_accepts(document.started_at@),
            rfc3339_accepts(document.updated_at@))),
{
    let started = parses_as_rfc3339(document.started_at.as_str());
    let updated = parses_as_rfc3339(document.updated_at.as_str());
    check_suite_discovery_document(protocol, document, started, updated)
}

// ---------------------------------------------------------------------------------
// Commands

/// A command from studio to another app of the suite. `payload_is_object` records
/// whether the JSON payload is an object.
#[derive(Clone, Debug)]
pub struct SuiteCommandDocument {
    pub schema_version: u8,
    pub command_id: String,
    pub source_app: String,
    pub source_app_name: String,
    pub target_app: String,
    pub command: String,
    pub requested_at: String,
    pub payload_is_object: bool,
}

/// The first problem with a command, given whether `requestedAt` parses.
pub open spec fn command_error(protocol: SuiteProtocol, d: SuiteCommandDocument, requested_at_valid: bool) -> Option<
    Seq<char>,
> {
    if d.schema_version != protocol.schema_version {
        Some(schema_error(protocol.schema_version, d.schema_version))
    } else if d.source_app@ != STUDIO_APP_ID@ {
        Some("unexpected source app "@ + d.source_app@)
    } else if app_index(protocol.apps@, d.target_app@) is None {
        Some("unknown target app "@ + d.target_app@)
    } else if blank(d.command_id@) {
        Some("commandId is required"@)
    } else if blank(d.command@) {
        Some("command is required"@)
    } else if !requested_at_valid {
        Some("requestedAt must be an RFC3339 timestamp"@)
    } else if !d.payload_is_object {
        Some("payload must be an object"@)
    } else {
        None
    }
}

/// Checks a command, given whether its `requestedAt` parses as an RFC 3339 timestamp.
pub fn check_suite_command_document(
    protocol: &SuiteProtocol,
    document: &SuiteCommandDocument,
    requested_at_valid: bool,
) -> (r: Result<(), String>)
    ensures
        result_matches(r, command_error(*protocol, *document, requested_at_valid)),
{
    if document.schema_version != protocol.schema_version {
        return Err(schema_error_exec(protocol.schema_version, document.schema_version));
    }
    if !str_eq(document.source_app.as_str(), STUDIO_APP_ID) {
        return Err(cat2("unexpected source app ", document.source_app.as_str()));
    }
    if suite_app_definition_for(&protocol.apps, document.target_app.as_str()).is_none() {
        return Err(cat2("unknown target app ", document.target_app.as_str()));
    }
    if is_blank(document.command_id.as_str()) {
        return Err(String::from_str("commandId is required"));
    }
    if is_blank(document.command.as_str()) {
        return Err(String::from_str("command is required"));
    }
    if !requested_at_valid {
        return Err(String::from_str("requestedAt must be an RFC3339 timestamp"));
    }
    if !document.payload_is_object {
        return Err(String::from_str("payload must be an object"));
    }
    Ok(())
}

/// Checks a command before it is written; its timestamp is parsed with chrono.
pub fn validate_suite_command_document(protocol: &SuiteProtocol, document: &SuiteCommandDocument) -> (r: Result<
    (),
    String,
>)
    ensures
        result_matches(r, command_error(*protocol, *document, rfc3339_accepts(document.requested_at@))),
{
    let requested = parses_as_rfc3339(document.requested_at.as_str());
    check_suite_command_document(protocol, document, requested)
}

// ---------------------------------------------------------------------------------
// Recording handoffs

#[derive(Clone, Debug)]
pub struct PulseRecordingHandoffRecording {
    pub session_id: String,
    pub output_path: String,
    pub profile_id: Option<String>,
    pub profile_name: Option<String>,
    pub stopped_at: String,
}

/// A finished recording handed from studio to pulse for review.
#[derive(Clone, Debug)]
pub struct PulseRecordingHandoffDocument {
    pub schema_version: u8,
    pub request_id: String,
    pub source_app: String,
    pub source_app_name: String,
    pub target_app: String,
    pub requested_at: String,
    pub recording: PulseRecordingHandoffRecording,
}

/// The first problem with a handoff, given whether `requestedAt` and
/// `recording.stoppedAt` parse.
pub open spec fn handoff_error(
    schema_version: u8,
    d: PulseRecordingHandoffDocument,
    requested_at_valid: bool,
    stopped_at_valid: bool,
) -> Option<Seq<char>> {
    if d.schema_version != schema_version {
        Some(schema_error(schema_version, d.schema_version))
    } else if d.source_app@ != STUDIO_APP_ID@ {
        Some("unexpected source app "@ + d.source_app@)
    } else if d.target_app@ != PULSE_APP_ID@ {
        Some("unexpected target app "@ + d.target_app@)
    } else if blank(d.request_id@) {
        Some("requestId is required"@)
    } else if !requested_at_valid {
        Some("requestedAt must be an RFC3339 timestamp"@)
    } else if blank(d.recording.session_id@) {
        Some("recording.sessionId is required"@)
    } else if blank(d.recording.output_path@) {
        Some("recording.outputPath is required"@)
    } else if !stopped_at_valid {
        Some("recording.stoppedAt must be an RFC3339 timestamp"@)
    } else {
        None
    }
}

/// Checks a handoff, given whether its two timestamps parse as RFC 3339 timestamps.
pub fn check_pulse_recording_handoff_document(
    schema_version: u8,
    document: &PulseRecordingHandoffDocument,
    requested_at_valid: bool,
    stopped_at_valid: bool,
) -> (r: Result<(), String>)
    ensures
        result_matches(r, handoff_error(schema_version, *document, requested_at_valid, stopped_at_valid)),
{
    if document.schema_version != schema_version {
        return Err(schema_error_exec(schema_version, document.schema_version));
    }
    if !str_eq(document.source_app.as_str(), STUDIO_APP_ID) {
        return Err(cat2("unexpected source app ", document.source_app.as_str()));
    }
    if !str_eq(document.target_app.as_str(), PULSE_APP_ID) {
        return Err(cat2("unexpected target app ", document.target_app.as_str()));
    }
    if is_blank(document.request_id.as_str()) {
        return Err(String::from_str("requestId is required"));
    }
    if !requested_at_valid {
        return Err(String::from_str("requestedAt must be an RFC3339 timestamp"));
    }
    if is_blank(document.recording.session_id.as_str()) {
        return Err(String::from_str("recording.sessionId is required"));
    }
    if is_blank(document.recording.output_path.as_str()) {
        return Err(String::from_str("recording.outputPath is required"));
    }
    if !stopped_at_valid {
        return Err(String::from_str("recording.stoppedAt must be an RFC3339 timestamp"));
    }
    Ok(())
}

/// Checks a handoff before it is written; its timestamps are parsed with chrono.
pub fn validate_pulse_recording_handoff_document(schema_version: u8, document: &PulseRecordingHandoffDocument) -> (r:
    Result<(), String>)
    ensures
        result_matches(r, handoff_error(schema_version, *document, rfc3339_accepts(document.requested_at@),
            rfc3339_accepts(document.recording.stopped_at@))),
{
    let requested = parses_as_rfc3339(document.requested_at.as_str());
    let stopped = parses_as_rfc3339(document.recording.stopped_at.as_str());
    check_pulse_recording_handoff_document(schema_version, document, requested, stopped)
}


// ---------------------------------------------------------------------------------
// Documents that studio writes

/// The name of studio in the suite.
pub const STUDIO_APP_NAME: &'static str = "vaexcore studio";

/// The suite session that studio keeps.
#[derive(Clone, Debug)]
pub struct SuiteSessionDocument {
    pub schema_version: u8,
    pub session_id: String,
    pub title: String,
    pub status: String,
    pub owner_app: String,
    pub created_at: String,
    pub updated_at: String,
}

/// A session title: the given one trimmed, unless blank.
pub open spec fn session_title_spec(title: Option<Seq<char>>) -> Seq<char> {
    match title {
        Some(t) => if trim_spec(t).len() > 0 { trim_spec(t) } else { "VaexCore Suite Session"@ },
        None => "VaexCore Suite Session"@,
    }
}

/// The session document studio writes at `now`: an existing session keeps its
/// identifier and creation time; a new one is named after `now_ms`.
pub fn build_suite_session_document(
    schema_version: u8,
    existing: Option<&SuiteSessionDocument>,
    title: Option<String>,
    now: &str,
    now_ms: i64,
) -> (r: SuiteSessionDocument)
    ensures
        r.schema_version == schema_version,
        r.session_id@ == (match existing {
            Some(e) => e.session_id@,
            None => "suite-"@ + signed_decimal(now_ms as int),
        }),
        r.title@ == session_title_spec(match title { Some(t) => Some(t@), None => None }),
        r.status@ == "active"@,
        r.owner_app@ == STUDIO_APP_ID@,
        r.created_at@ == (match existing {
            Some(e) => e.created_at@,
            None => now@,
        }),
        r.updated_at@ == now@,
{
    let session_id = match existing {
        Some(e) => e.session_id.clone(),
        None => {
            let ms = i64_to_decimal(now_ms);
            cat2("suite-", ms.as_str())
        },
    };
    let title = match title {
        Some(t) => {
            let trimmed = trim(t.as_str());
            if trimmed.unicode_len() > 0 {
                trimmed
            } else {
                String::from_str("VaexCore Suite Session")
            }
        },
        None => String::from_str("VaexCore Suite Session"),
    };
    let created_at = match existing {
        Some(e) => e.created_at.clone(),
        None => String::from_str(now),
    };
    SuiteSessionDocument {
        schema_version,
        session_id,
        title,
        status: String::from_str("active"),
        owner_app: String::from_str(STUDIO_APP_ID),
        created_at,
        updated_at: String::from_str(now),
    }
}

/// The identifier of a command sent at `now_ms`.
pub open spec fn command_id_spec(command: Seq<char>, now_ms: i64) -> Seq<char> {
    sanitize_spec(command, "suite-command"@) + "-"@ + signed_decimal(now_ms as int)
}

/// A command from studio to `target_app`, sent at `requested_at` (`now_ms` in
/// milliseconds); `payload_is_object` records the shape of its JSON payload. The
/// command is written under the directory `sanitize_suite_file_component(target_app)`,
/// in the file named by its identifier and `.json`.
pub fn build_suite_command_document(
    schema_version: u8,
    target_app: String,
    command: String,
    payload_is_object: bool,
    requested_at: String,
    now_ms: i64,
) -> (r: SuiteCommandDocument)
    ensures
        r.schema_version == schema_version,
        r.command_id@ == command_id_spec(command@, now_ms),
        r.source_app@ == STUDIO_APP_ID@,
        r.source_app_name@ == STUDIO_APP_NAME@,
        r.target_app == target_app,
        r.command == command,
        r.requested_at == requested_at,
        r.payload_is_object == payload_is_object,
{
    let mut command_id = sanitize_suite_file_component(command.as_str());
    command_id.append("-");
    let ms = i64_to_decimal(now_ms);
    command_id.append(ms.as_str());
    SuiteCommandDocument {
        schema_version,
        command_id,
        source_app: String::from_str(STUDIO_APP_ID),
        source_app_name: String::from_str(STUDIO_APP_NAME),
        target_app,
        command,
        requested_at,
        payload_is_object,
    }
}

/// The identifier of a handoff of the recording session, made at `now_ms`.
pub open spec fn handoff_request_id_spec(session_id: Seq<char>, now_ms: i64) -> Seq<char> {
    "studio-recording-"@ + sanitize_spec(session_id, "recording"@) + "-"@ + signed_decimal(now_ms as int)
}

/// The handoff of a finished recording to pulse, requested at `requested_at`
/// (`now_ms` in milliseconds).
pub fn build_pulse_recording_handoff_document(
    schema_version: u8,
    recording: PulseRecordingHandoffRecording,
    requested_at: String,
    now_ms: i64,
) -> (r: PulseRecordingHandoffDocument)
    ensures
        r.schema_version == schema_version,
        r.request_id@ == handoff_request_id_spec(recording.session_id@, now_ms),
        r.source_app@ == STUDIO_APP_ID@,
        r.source_app_name@ == STUDIO_APP_NAME@,
        r.target_app@ == PULSE_APP_ID@,
        r.requested_at == requested_at,
        r.recording == recording,
{
    let mut request_id = String::from_str("studio-recording-");
    let id = sanitize_handoff_id(recording.session_id.as_str());
    request_id.append(id.as_str());
    request_id.append("-");
    let ms = i64_to_decimal(now_ms);
    request_id.append(ms.as_str());
    PulseRecordingHandoffDocument {
        schema_version,
        request_id,
        source_app: String::from_str(STUDIO_APP_ID),
        source_app_name: String::from_str(STUDIO_APP_NAME),
        target_app: String::from_str(PULSE_APP_ID),
        requested_at,
        recording,
    }
}


// ---------------------------------------------------------------------------------
// The status of a suite app

/// What studio shows of an app of the suite.
#[derive(Clone, Debug)]
pub struct SuiteAppStatus {
    pub app_id: String,
    pub app_name: String,
    pub launch_name: String,
    pub bundle_identifier: String,
    pub installed: bool,
    pub running: bool,
    pub reachable: bool,
    pub stale: bool,
    pub discovery_file: String,
    pub pid: Option<u32>,
    pub api_url: Option<String>,
    pub health_url: Option<String>,
    pub updated_at: Option<String>,
    pub capabilities: Vec<String>,
    pub suite_session_id: Option<String>,
    pub activity: Option<String>,
    pub activity_detail: Option<String>,
    pub local_runtime: Option<SuiteLocalRuntime>,
    pub detail: String,
}

/// The status of an app from its definition, its heartbeat if one was read, and what
/// was found of it: installed, its process running, its heartbeat stale, its health
/// endpoint reachable.
pub fn suite_app_status(
    definition: &SuiteAppDefinition,
    discovery: Option<SuiteDiscoveryDocument>,
    discovery_file: String,
    install_hint: &str,
    installed: bool,
    running: bool,
    stale: bool,
    reachable: bool,
) -> (r: SuiteAppStatus)
    ensures
        r.app_id == definition.app_id,
        r.app_name@ == (match discovery {
            Some(d) => d.app_name@,
            None => definition.app_name@,
        }),
        r.launch_name == definition.launch_name,
        r.bundle_identifier == definition.bundle_identifier,
        r.installed == installed,
        r.running == running,
        r.reachable == reachable,
        r.stale == stale,
        r.discovery_file == discovery_file,
        match discovery {
            Some(d) => {
                &&& r.pid == Some(d.pid)
                &&& r.api_url == d.api_url
                &&& r.health_url == d.health_url
                &&& r.updated_at == Some(d.updated_at)
                &&& r.capabilities == d.capabilities
                &&& r.suite_session_id == d.suite_session_id
                &&& r.activity == d.activity
                &&& r.activity_detail == d.activity_detail
                &&& r.local_runtime == d.local_runtime
            },
            None => {
                &&& r.pid is None && r.api_url is None && r.health_url is None && r.updated_at is None
                &&& r.capabilities@.len() == 0
                &&& r.suite_session_id is None && r.activity is None && r.activity_detail is None
                &&& r.local_runtime is None
            },
        },
        r.detail@ == status_detail_spec(install_hint@, installed, discovery is Some, running, stale, reachable),
{
    let detail = suite_status_detail(install_hint, installed, discovery.is_some(), running, stale, reachable);
    match discovery {
        Some(d) => SuiteAppStatus {
            app_id: definition.app_id.clone(),
            app_name: d.app_name,
            launch_name: definition.launch_name.clone(),
            bundle_identifier: definition.bundle_identifier.clone(),
            installed,
            running,
            reachable,
            stale,
            discovery_file,
            pid: Some(d.pid),
            api_url: d.api_url,
            health_url: d.health_url,
            updated_at: Some(d.updated_at),
            capabilities: d.capabilities,
            suite_session_id: d.suite_session_id,
            activity: d.activity,
            activity_detail: d.activity_detail,
            local_runtime: d.local_runtime,
            detail,
        },
        None => SuiteAppStatus {
            app_id: definition.app_id.clone(),
            app_name: definition.app_name.clone(),
            launch_name: definition.launch_name.clone(),
            bundle_identifier: definition.bundle_identifier.clone(),
            installed,
            running,
            reachable,
            stale,
            discovery_file,
            pid: None,
            api_url: None,
            health_url: None,
            updated_at: None,
            capabilities: Vec::new(),
            suite_session_id: None,
            activity: None,
            activity_detail: None,
            local_runtime: None,
            detail,
        },
    }
}


// ---------------------------------------------------------------------------------
// The suite timeline

/// Event `i` is listed before event `j`: created later, or at the same time and read
/// earlier. Creation times are RFC 3339 text, compared as text.
pub open spec fn timeline_before(created: Seq<Seq<char>>, i: int, j: int) -> bool {
    crate::order::lex_lt(created[j], created[i]) || (created[i] == created[j] && i < j)
}

proof fn lemma_timeline_order(created: Seq<Seq<char>>, i: int, j: int, k: int)
    ensures
        i != j ==> (timeline_before(created, i, j) || timeline_before(created, j, i)),
        timeline_before(created, i, j) && timeline_before(created, j, k) ==> timeline_before(created, i, k),
{
    crate::order::lemma_lex_total(created[i], created[j]);
    crate::order::lemma_lex_irreflexive(created[i]);
    if crate::order::lex_lt(created[j], created[i]) && crate::order::lex_lt(created[k], created[j]) {
        crate::order::lemma_lex_transitive(created[k], created[j], created[i]);
    }
}

/// The positions of the events, newest first: each once, each before the next.
pub open spec fn is_timeline_order(created: Seq<Seq<char>>, order: Seq<usize>) -> bool {
    &&& order.len() == created.len()
    &&& forall|k: int| 0 <= k < order.len() ==> (#[trigger] order[k]) < created.len()
    &&& forall|x: usize| x < created.len() ==> order.contains(x)
    &&& forall|a: int, b: int| 0 <= a < b < order.len() ==> timeline_before(created, #[trigger] order[a] as int,
        #[trigger] order[b] as int)
}

/// The timeline order of a set of events is unique: two lists that each hold every
/// event once, newest first and ties in reading order, are the same list.
pub proof fn lemma_timeline_order_unique(created: Seq<Seq<char>>, o1: Seq<usize>, o2: Seq<usize>)
    requires
        is_timeline_order(created, o1),
        is_timeline_order(created, o2),
    ensures
        o1 == o2,
{
    let before = |i: int, j: int| timeline_before(created, i, j);
    assert forall|x: int, y: int| #[trigger] before(x, y) implies !before(y, x) by {
        crate::order::lemma_lex_irreflexive(created[x]);
        if crate::order::lex_lt(created[y], created[x]) {
            crate::order::lemma_lex_asymmetric(created[y], created[x]);
        }
    }
    assert forall|x: usize| o1.contains(x) <==> o2.contains(x) by {
        if o1.contains(x) {
            let k = choose|k: int| 0 <= k < o1.len() && o1[k] == x;
            assert(o1[k] < created.len());
        }
        if o2.contains(x) {
            let k = choose|k: int| 0 <= k < o2.len() && o2[k] == x;
            assert(o2[k] < created.len());
        }
    }
    assert(crate::order::sorted_by(before, o1));
    assert(crate::order::sorted_by(before, o2));
    crate::order::lemma_sorted_by_unique(before, o1, o2);
}

/// The positions of the newest `limit` events, newest first.
pub fn newest_timeline_events(created_at: &Vec<String>, limit: usize) -> (r: Vec<usize>)
    ensures
        exists|order: Seq<usize>| #[trigger] is_timeline_order(crate::text::views(created_at@), order) && r@ == (if limit
            < order.len() {
            order.subrange(0, limit as int)
        } else {
            order
        }),
{
    let ghost cs = crate::text::views(created_at@);
    let n = created_at.len();
    let mut order: Vec<usize> = Vec::new();
    let mut i: usize = 0;
    while i < n
        invariant
            cs == crate::text::views(created_at@),
            n == cs.len(),
            i <= n,
            order@.len() == i,
            forall|k: int| 0 <= k < order@.len() ==> (#[trigger] order@[k]) < i,
            forall|x: usize| x < i ==> order@.contains(x),
            forall|a: int, b: int| 0 <= a < b < order@.len() ==> timeline_before(cs, #[trigger] order@[a] as int,
                #[trigger] order@[b] as int),
        decreases n - i,
    {
        let ghost o = order@;
        let mut k: usize = 0;
        while k < order.len()
            invariant
                cs == crate::text::views(created_at@),
                n == cs.len(),
                o == order@,
                i < n,
                k <= o.len(),
                forall|m: int| 0 <= m < o.len() ==> (#[trigger] o[m]) < i,
                forall|m: int| 0 <= m < k ==> timeline_before(cs, #[trigger] o[m] as int, i as int),
            ensures
                k <= o.len(),
                forall|m: int| 0 <= m < k ==> timeline_before(cs, #[trigger] o[m] as int, i as int),
                k < o.len() ==> timeline_before(cs, i as int, o[k as int] as int),
            decreases o.len() - k,
        {
            let j = order[k];
            let newer = crate::order::str_lt(created_at[i].as_str(), created_at[j].as_str());
            let same = str_eq(created_at[i].as_str(), created_at[j].as_str());
            if !(newer || (same && j < i)) {
                proof {
                    lemma_timeline_order(cs, o[k as int] as int, i as int, 0);
                }
                break;
            }
            k = k + 1;
        }
        order.insert(k, i);
        proof {
            let t = order@;
            assert(t =~= o.subrange(0, k as int).push(i) + o.subrange(k as int, o.len() as int));
            assert forall|a: int, b: int| 0 <= a < b < t.len() implies timeline_before(cs, #[trigger] t[a] as int,
                #[trigger] t[b] as int) by {
                if b == k {
                    assert(t[a] == o[a]);
                } else if a == k {
                    assert(t[b] == o[b - 1]);
                    if b - 1 > k {
                        lemma_timeline_order(cs, i as int, o[k as int] as int, o[b - 1] as int);
                    }
                } else if a < k && b > k {
                    assert(t[a] == o[a] && t[b] == o[b - 1]);
                } else if b < k {
                    assert(t[a] == o[a] && t[b] == o[b]);
                } else {
                    assert(t[a] == o[a - 1] && t[b] == o[b - 1]);
                }
            }
            assert forall|x: usize| x < i + 1 implies t.contains(x) by {
                if x == i {
                    assert(t[k as int] == x);
                } else {
                    assert(o.contains(x));
                    let m = choose|m: int| 0 <= m < o.len() && o[m] == x;
                    if m < k {
                        assert(t[m] == x);
                    } else {
                        assert(t[m + 1] == x);
                    }
                }
            }
            assert forall|m: int| 0 <= m < t.len() implies (#[trigger] t[m]) < i + 1 by {
                if m < k {
                    assert(t[m] == o[m]);
                } else if m > k {
                    assert(t[m] == o[m - 1]);
                }
            }
        }
        i = i + 1;
    }
    assert(is_timeline_order(cs, order@));
    if limit < order.len() {
        let ghost full = order@;
        order.truncate(limit);
        assert(order@ =~= full.subrange(0, limit as int));
    }
    order
}

} // verus!
