//! Talking to the Console app's local HTTP API: the endpoint and request, reading
//! the reply, and what its Twitch answers mean for Studio.

use vstd::prelude::*;
use crate::suite::{strip_prefix_spec, SuiteDiscoveryDocument};
use crate::text::{cat2, chars_of, decimal, is_ws, parse_u32, parse_u32_spec, quoted, string_from_chars, u64_to_decimal};

verus! {

// ---------------------------------------------------------------------------------
// Finding text

/// `pat` occurs in `s` at `i`.
pub open spec fn occurs_at(s: Seq<char>, pat: Seq<char>, i: int) -> bool {
    0 <= i && i + pat.len() <= s.len() && s.subrange(i, i + pat.len()) == pat
}

/// `i` is where `pat` first occurs in `s`.
pub open spec fn first_occurrence(s: Seq<char>, pat: Seq<char>, i: int) -> bool {
    occurs_at(s, pat, i) && forall|j: int| 0 <= j < i ==> !occurs_at(s, pat, j)
}

/// Where `pat` first occurs in `s`, if it does.
pub open spec fn find(s: Seq<char>, pat: Seq<char>) -> Option<int> {
    if exists|i: int| first_occurrence(s, pat, i) {
        Some(choose|i: int| first_occurrence(s, pat, i))
    } else {
        None
    }
}

proof fn lemma_first_occurrence_unique(s: Seq<char>, pat: Seq<char>, i: int, j: int)
    requires
        first_occurrence(s, pat, i),
        first_occurrence(s, pat, j),
    ensures
        i == j,
{
}

fn occurs_at_exec(cs: &Vec<char>, pat: &Vec<char>, i: usize) -> (r: bool)
    requires
        i + pat@.len() <= cs@.len(),
    ensures
        r == occurs_at(cs@, pat@, i as int),
{
    let n = cs.len();
    let mut k: usize = 0;
    while k < pat.len()
        invariant
            n == cs@.len(),
            i + pat@.len() <= cs@.len(),
            k <= pat@.len(),
            forall|m: int| 0 <= m < k ==> cs@[i + m] == pat@[m],
        decreases pat@.len() - k,
    {
        if cs[i + k] != pat[k] {
            assert(cs@.subrange(i as int, i + pat@.len())[k as int] != pat@[k as int]);
            return false;
        }
        k = k + 1;
    }
    assert(cs@.subrange(i as int, i + pat@.len()) =~= pat@);
    true
}

/// Where `pat` first occurs in `cs`.
fn find_exec(cs: &Vec<char>, pat: &Vec<char>) -> (r: Option<usize>)
    ensures
        match r {
            Some(i) => find(cs@, pat@) == Some(i as int) && i + pat@.len() <= cs@.len(),
            None => find(cs@, pat@) is None,
        },
{
    if pat.len() > cs.len() {
        assert forall|i: int| !first_occurrence(cs@, pat@, i) by {}
        return None;
    }
    if pat.len() == 0 {
        assert(cs@.subrange(0, 0) =~= pat@);
        assert(first_occurrence(cs@, pat@, 0));
        proof {
            let j = choose|j: int| first_occurrence(cs@, pat@, j);
            lemma_first_occurrence_unique(cs@, pat@, 0, j);
        }
        return Some(0);
    }
    let n = cs.len();
    let last = n - pat.len();
    let mut i: usize = 0;
    while i <= last
        invariant
            n == cs@.len(),
            pat@.len() <= cs@.len(),
            pat@.len() > 0,
            last == cs@.len() - pat@.len(),
            i <= last + 1,
            forall|j: int| 0 <= j < i ==> !occurs_at(cs@, pat@, j),
        decreases last + 1 - i,
    {
        if occurs_at_exec(cs, pat, i) {
            assert(first_occurrence(cs@, pat@, i as int));
            proof {
                let j = choose|j: int| first_occurrence(cs@, pat@, j);
                lemma_first_occurrence_unique(cs@, pat@, i as int, j);
            }
            return Some(i);
        }
        i = i + 1;
    }
    assert forall|j: int| !first_occurrence(cs@, pat@, j) by {
        if 0 <= j && j + pat@.len() <= cs@.len() {
            assert(j < i);
        }
    }
    None
}

fn sub_chars(cs: &Vec<char>, start: usize, end: usize) -> (r: Vec<char>)
    requires
        start <= end <= cs@.len(),
    ensures
        r@ == cs@.subrange(start as int, end as int),
{
    let mut r: Vec<char> = Vec::new();
    let mut k: usize = start;
    while k < end
        invariant
            start <= k <= end <= cs@.len(),
            r@ == cs@.subrange(start as int, k as int),
        decreases end - k,
    {
        r.push(cs[k]);
        k = k + 1;
        assert(r@ =~= cs@.subrange(start as int, k as int));
    }
    r
}

// ---------------------------------------------------------------------------------
// Whitespace-separated words

/// The words of `s` as `split_whitespace` gives them, `cur` being a word already begun.
pub open spec fn words_from(s: Seq<char>, cur: Seq<char>) -> Seq<Seq<char>>
    decreases s.len(),
{
    if s.len() == 0 {
        if cur.len() > 0 { seq![cur] } else { seq![] }
    } else if is_ws(s[0]) {
        (if cur.len() > 0 { seq![cur] } else { seq![] }) + words_from(s.drop_first(), seq![])
    } else {
        words_from(s.drop_first(), cur.push(s[0]))
    }
}

/// The words of `s`: the runs of characters that are not whitespace.
pub open spec fn words(s: Seq<char>) -> Seq<Seq<char>> {
    words_from(s, seq![])
}

fn words_exec(cs: &Vec<char>) -> (r: Vec<Vec<char>>)
    ensures
        r@.map_values(|w: Vec<char>| w@) == words(cs@),
{
    let mut out: Vec<Vec<char>> = Vec::new();
    let mut cur: Vec<char> = Vec::new();
    let mut i: usize = 0;
    assert(cs@.skip(0) =~= cs@);
    assert(out@.map_values(|w: Vec<char>| w@) =~= Seq::<Seq<char>>::empty());
    assert(cur@ =~= Seq::<char>::empty());
    assert(Seq::<Seq<char>>::empty() + words_from(cs@, seq![]) =~= words(cs@));
    while i < cs.len()
        invariant
            i <= cs@.len(),
            out@.map_values(|w: Vec<char>| w@) + words_from(cs@.skip(i as int), cur@) == words(cs@),
        decreases cs@.len() - i,
    {
        let ghost rest = cs@.skip(i as int);
        let ghost prev = out@.map_values(|w: Vec<char>| w@);
        assert(rest[0] == cs@[i as int]);
        assert(rest.drop_first() =~= cs@.skip(i + 1));
        let c = cs[i];
        if crate::text::char_is_ws(c) {
            if cur.len() > 0 {
                let ghost w = cur@;
                out.push(cur);
                cur = Vec::new();
                assert(out@.map_values(|w: Vec<char>| w@) =~= prev.push(w));
                assert(prev + (seq![w] + words_from(cs@.skip(i + 1), seq![])) =~= prev.push(w) + words_from(
                    cs@.skip(i + 1), seq![]));
            } else {
                assert(cur@ =~= Seq::<char>::empty());
                assert(seq![] + words_from(cs@.skip(i + 1), seq![]) =~= words_from(cs@.skip(i + 1), seq![]));
            }
            assert(cur@ =~= Seq::<char>::empty());
        } else {
            cur.push(c);
        }
        i = i + 1;
    }
    let ghost prev = out@.map_values(|w: Vec<char>| w@);
    assert(cs@.skip(i as int).len() == 0);
    if cur.len() > 0 {
        let ghost w = cur@;
        out.push(cur);
        assert(out@.map_values(|w: Vec<char>| w@) =~= prev.push(w));
        assert(prev + seq![w] =~= prev.push(w));
    } else {
        assert(prev + Seq::<Seq<char>>::empty() =~= prev);
    }
    out
}

// ---------------------------------------------------------------------------------
// The endpoint and the request

/// The host and port and the path of a `http://` endpoint: the path starts at the
/// first slash after the scheme, and is `/` when there is none.
pub open spec fn endpoint_parts(endpoint: Seq<char>) -> Option<(Seq<char>, Seq<char>)> {
    match strip_prefix_spec(endpoint, "http://"@) {
        Some(rest) => match find(rest, seq!['/']) {
            Some(k) => Some((rest.take(k), rest.skip(k))),
            None => Some((rest, seq!['/'])),
        },
        None => None,
    }
}

/// Splits a Console endpoint into host and port, and path; only `http://` endpoints
/// are accepted.
pub fn split_console_endpoint(endpoint: &str) -> (r: Result<(String, String), String>)
    ensures
        match endpoint_parts(endpoint@) {
            Some((host_port, path)) => (r matches Ok((h, p)) && h@ == host_port && p@ == path),
            None => (r matches Err(e) && e@ == "Only local http:// Console endpoints are supported."@),
        },
{
    if !crate::text::starts_with(endpoint, "http://") {
        return Err(String::from_str("Only local http:// Console endpoints are supported."));
    }
    let cs = chars_of(endpoint);
    let n = "http://".unicode_len();
    let rest = sub_chars(&cs, n, cs.len());
    assert(strip_prefix_spec(endpoint@, "http://"@) == Some(rest@));
    let slash = vec!['/'];
    assert(slash@ =~= seq!['/']);
    match find_exec(&rest, &slash) {
        Some(k) => {
            let host = sub_chars(&rest, 0, k);
            let path = sub_chars(&rest, k, rest.len());
            assert(host@ =~= rest@.take(k as int));
            assert(path@ =~= rest@.skip(k as int));
            Ok((string_from_chars(host.as_slice()), string_from_chars(path.as_slice())))
        },
        None => {
            let mut path = String::new();
            crate::text::push_char(&mut path, '/');
            Ok((string_from_chars(rest.as_slice()), path))
        },
    }
}

/// The GET request Studio sends to the Console for `path`.
pub fn console_http_request(host_port: &str, path: &str) -> (r: String)
    ensures
        r@ == "GET "@ + path@ + " HTTP/1.1\r\nHost: "@ + host_port@ + "\r\nConnection: close\r\nAccept: application/json\r\n\r\n"@,
{
    let mut r = quoted("GET ", path, " HTTP/1.1\r\nHost: ");
    r.append(host_port);
    r.append("\r\nConnection: close\r\nAccept: application/json\r\n\r\n");
    r
}

/// The text without the slashes at its end.
pub open spec fn trim_end_slashes(s: Seq<char>) -> Seq<char>
    decreases s.len(),
{
    if s.len() > 0 && s.last() == '/' {
        trim_end_slashes(s.drop_last())
    } else {
        s
    }
}

/// The address of a Console route: the API URL without its trailing slashes, then the
/// route.
pub fn console_endpoint(api_url: &str, route: &str) -> (r: String)
    ensures
        r@ == trim_end_slashes(api_url@) + route@,
{
    let cs = chars_of(api_url);
    let mut end: usize = cs.len();
    assert(cs@.take(end as int) =~= cs@);
    while end > 0 && cs[end - 1] == '/'
        invariant
            end <= cs@.len(),
            trim_end_slashes(cs@.take(end as int)) == trim_end_slashes(cs@),
        decreases end,
    {
        assert(cs@.take(end as int).drop_last() =~= cs@.take(end - 1));
        end = end - 1;
    }
    assert(cs@.take(end as int) =~= cs@.subrange(0, end as int));
    let kept = sub_chars(&cs, 0, end);
    let mut r = string_from_chars(kept.as_slice());
    r.append(route);
    r
}

/// The Console endpoint for `route` from the Console's heartbeat: there must be a
/// heartbeat, and it must name an API URL.
pub fn console_endpoint_from_heartbeat(heartbeat: Option<&SuiteDiscoveryDocument>, route: &str) -> (r: Result<
    String,
    String,
>)
    ensures
        match heartbeat {
            None => (r matches Err(e) && e@ == "Console is not publishing a suite heartbeat yet."@),
            Some(d) => match d.api_url {
                None => (r matches Err(e) && e@ == "Console heartbeat does not include an API URL."@),
                Some(url) => (r matches Ok(x) && x@ == trim_end_slashes(url@) + route@),
            },
        },
{
    match heartbeat {
        None => Err(String::from_str("Console is not publishing a suite heartbeat yet.")),
        Some(d) => match &d.api_url {
            None => Err(String::from_str("Console heartbeat does not include an API URL.")),
            Some(url) => Ok(console_endpoint(url.as_str(), route)),
        },
    }
}

// ---------------------------------------------------------------------------------
// The reply

/// The text before the first line feed.
pub open spec fn first_line(s: Seq<char>) -> Seq<char> {
    match find(s, seq!['\n']) {
        Some(k) => s.take(k),
        None => s,
    }
}

/// The status code of a reply head: the second word of its first line, read as a
/// `u16`.
pub open spec fn status_code(head: Seq<char>) -> Option<u16> {
    let ws = words(first_line(head));
    if ws.len() > 1 {
        match parse_u32_spec(ws[1]) {
            Some(v) => if v <= 65535 {
                Some(v as u16)
            } else {
                None
            },
            None => None,
        }
    } else {
        None
    }
}

/// A Console reply read as HTTP: the head ends at the first blank line, the status
/// code comes from the head, and the body is the rest.
pub open spec fn console_reply(response: Seq<char>) -> Result<(u16, Seq<char>), Seq<char>> {
    match find(response, seq!['\r', '\n', '\r', '\n']) {
        None => Err("Console returned a malformed HTTP response."@),
        Some(k) => match status_code(response.take(k)) {
            Some(code) => Ok((code, response.skip(k + 4))),
            None => Err("Console returned a malformed HTTP status."@),
        },
    }
}

/// Reads a Console reply: its status code and body.
pub fn parse_console_reply(response: &str) -> (r: Result<(u16, String), String>)
    ensures
        match console_reply(response@) {
            Ok((code, body)) => (r matches Ok((c, b)) && c == code && b@ == body),
            Err(e) => (r matches Err(x) && x@ == e),
        },
{
    let cs = chars_of(response);
    let n = cs.len();
    let sep = vec!['\r', '\n', '\r', '\n'];
    assert(sep@ =~= seq!['\r', '\n', '\r', '\n']);
    let k = match find_exec(&cs, &sep) {
        None => {
            return Err(String::from_str("Console returned a malformed HTTP response."));
        },
        Some(k) => k,
    };
    let head = sub_chars(&cs, 0, k);
    assert(head@ =~= cs@.take(k as int));
    let newline = vec!['\n'];
    assert(newline@ =~= seq!['\n']);
    let line = match find_exec(&head, &newline) {
        Some(j) => {
            let l = sub_chars(&head, 0, j);
            assert(l@ =~= head@.take(j as int));
            l
        },
        None => head,
    };
    let ws = words_exec(&line);
    if ws.len() > 1 {
        let w = string_from_chars(ws[1].as_slice());
        assert(w@ == words(line@)[1]);
        match parse_u32(w.as_str()) {
            Some(v) => {
                if v <= 65535 {
                    assert(k + 4 <= n);
                    let body = sub_chars(&cs, k + 4, n);
                    assert(body@ =~= cs@.skip(k + 4));
                    return Ok((v as u16, string_from_chars(body.as_slice())));
                }
            },
            None => {},
        }
    }
    Err(String::from_str("Console returned a malformed HTTP status."))
}

// ---------------------------------------------------------------------------------
// Twitch answers

/// The Console's answer to a stream key request.
#[derive(Clone, Debug)]
pub struct ConsoleTwitchStreamKeyResponse {
    pub ok: bool,
    pub stream_key: Option<String>,
    pub broadcaster_login: Option<String>,
    pub broadcaster_user_id: Option<String>,
    pub error: Option<String>,
}

/// A Twitch stream key imported from the Console.
#[derive(Clone, Debug)]
pub struct ConsoleTwitchStreamKey {
    pub stream_key: String,
    pub broadcaster_login: Option<String>,
    pub broadcaster_user_id: Option<String>,
}

/// The error for a failed Console request: the Console's own message, or the HTTP
/// status.
pub open spec fn console_failure(error: Option<String>, what: Seq<char>, status: u16) -> Seq<char> {
    match error {
        Some(e) => e@,
        None => what + " failed with HTTP "@ + decimal(status as nat),
    }
}

fn failure_text(error: Option<String>, what: &str, status: u16) -> (r: String)
    ensures
        r@ == console_failure(error, what@, status),
{
    match error {
        Some(e) => e,
        None => {
            let mut r = cat2(what, " failed with HTTP ");
            let d = u64_to_decimal(status as u64);
            r.append(d.as_str());
            r
        },
    }
}

/// The stream key from the Console's answer: the answer must be ok with status 200
/// and hold a key.
pub fn console_stream_key(status: u16, response: ConsoleTwitchStreamKeyResponse) -> (r: Result<
    ConsoleTwitchStreamKey,
    String,
>)
    ensures
        !response.ok || status != 200 ==> (r matches Err(e) && e@ == console_failure(response.error,
            "Console stream key request"@, status)),
        response.ok && status == 200 ==> match response.stream_key {
            None => (r matches Err(e) && e@ == "Console did not return a stream key."@),
            Some(k) => (r matches Ok(v) && v.stream_key == k && v.broadcaster_login == response.broadcaster_login
                && v.broadcaster_user_id == response.broadcaster_user_id),
        },
{
    if !response.ok || status != 200 {
        return Err(failure_text(response.error, "Console stream key request", status));
    }
    match response.stream_key {
        None => Err(String::from_str("Console did not return a stream key.")),
        Some(stream_key) => Ok(ConsoleTwitchStreamKey {
            stream_key,
            broadcaster_login: response.broadcaster_login,
            broadcaster_user_id: response.broadcaster_user_id,
        }),
    }
}

/// Whether the Console's Twitch readiness answer is an error: any status but 200 is,
/// with the answer's own message when it has one.
pub fn console_readiness_error(status: u16, error: Option<String>) -> (r: Option<String>)
    ensures
        status == 200 ==> r is None,
        status != 200 ==> (r matches Some(e) && e@ == console_failure(error, "Console Twitch readiness"@, status)),
{
    if status == 200 {
        None
    } else {
        Some(failure_text(error, "Console Twitch readiness", status))
    }
}

} // verus!
