//! The API's memory of recent activity: the clients it has seen, at most the 50
//! most recently seen, and the last 100 events it has emitted.

use vstd::prelude::*;
use crate::api::{opt_string_view, ClientSeen};
use crate::ids::{is_generated_id, new_id};
use crate::text::{copy_opt_string, quoted, str_eq};

verus! {

/// The most clients the registry remembers.
pub const RECENT_CLIENT_LIMIT: usize = 50;

/// The most events the history keeps.
pub const RECENT_EVENT_LIMIT: usize = 100;

/// A client of the API, with times in milliseconds from the Unix epoch.
#[derive(Clone, Debug)]
pub struct ConnectedClient {
    pub id: String,
    pub name: String,
    pub kind: String,
    pub user_agent: Option<String>,
    pub last_request_id: Option<String>,
    pub last_path: Option<String>,
    pub request_count: u64,
    pub connected_at_ms: i64,
    pub last_seen_at_ms: i64,
}

/// A client as values.
pub struct ClientView {
    pub id: Seq<char>,
    pub name: Seq<char>,
    pub kind: Seq<char>,
    pub user_agent: Option<Seq<char>>,
    pub last_request_id: Option<Seq<char>>,
    pub last_path: Option<Seq<char>>,
    pub request_count: u64,
    pub connected_at_ms: i64,
    pub last_seen_at_ms: i64,
}

impl View for ConnectedClient {
    type V = ClientView;

    open spec fn view(&self) -> ClientView {
        ClientView {
            id: self.id@,
            name: self.name@,
            kind: self.kind@,
            user_agent: opt_string_view(self.user_agent),
            last_request_id: opt_string_view(self.last_request_id),
            last_path: opt_string_view(self.last_path),
            request_count: self.request_count,
            connected_at_ms: self.connected_at_ms,
            last_seen_at_ms: self.last_seen_at_ms,
        }
    }
}

impl crate::text::DeepCopy for ConnectedClient {
    fn deep_copy(&self) -> (r: ConnectedClient) {
        ConnectedClient {
            id: self.id.clone(),
            name: self.name.clone(),
            kind: self.kind.clone(),
            user_agent: copy_opt_string(&self.user_agent),
            last_request_id: copy_opt_string(&self.last_request_id),
            last_path: copy_opt_string(&self.last_path),
            request_count: self.request_count,
            connected_at_ms: self.connected_at_ms,
            last_seen_at_ms: self.last_seen_at_ms,
        }
    }
}

/// The key under which a client is remembered: its identifier, else its kind, name
/// and user agent joined by colons.
pub open spec fn client_key_spec(seen: ClientSeen) -> Seq<char> {
    match seen.client_id {
        Some(id) => id@,
        None => seen.kind@ + ":"@ + seen.name@ + ":"@ + (match seen.user_agent {
            Some(ua) => ua@,
            None => seq![],
        }),
    }
}

/// The key under which a client is remembered.
pub fn client_key(seen: &ClientSeen) -> (r: String)
    ensures
        r@ == client_key_spec(*seen),
{
    match &seen.client_id {
        Some(id) => id.clone(),
        None => {
            let mut k = quoted(seen.kind.as_str(), ":", seen.name.as_str());
            k.append(":");
            match &seen.user_agent {
                Some(ua) => k.append(ua.as_str()),
                None => {},
            }
            k
        },
    }
}

struct RegistryEntry {
    key: String,
    client: ConnectedClient,
}

/// The clients the API has seen, each under its key.
pub struct ClientRegistry {
    entries: Vec<RegistryEntry>,
}

/// The position of the key among the entries.
pub open spec fn key_index(entries: Seq<(Seq<char>, ClientView)>, key: Seq<char>) -> Option<int> {
    if exists|i: int| 0 <= i < entries.len() && (#[trigger] entries[i]).0 == key {
        Some(choose|i: int| 0 <= i < entries.len() && (#[trigger] entries[i]).0 == key)
    } else {
        None
    }
}

/// The position of the first entry seen least recently.
pub open spec fn oldest_index(entries: Seq<(Seq<char>, ClientView)>) -> int
    decreases entries.len(),
{
    if entries.len() <= 1 {
        0
    } else {
        let k = oldest_index(entries.drop_last());
        if entries.last().1.last_seen_at_ms < entries[k].1.last_seen_at_ms {
            entries.len() - 1
        } else {
            k
        }
    }
}

/// Drops the least recently seen entry while there are too many.
pub open spec fn evict(entries: Seq<(Seq<char>, ClientView)>) -> Seq<(Seq<char>, ClientView)> {
    if entries.len() > RECENT_CLIENT_LIMIT {
        entries.remove(oldest_index(entries))
    } else {
        entries
    }
}

/// A known client seen again: what the request says replaces what was known, and
/// the count goes up by one (staying at its maximum).
pub open spec fn touched(c: ClientView, seen: ClientSeen, now_ms: i64) -> ClientView {
    ClientView {
        name: seen.name@,
        kind: seen.kind@,
        user_agent: opt_string_view(seen.user_agent),
        last_request_id: opt_string_view(seen.request_id),
        last_path: opt_string_view(seen.path),
        request_count: if c.request_count < u64::MAX { (c.request_count + 1) as u64 } else { c.request_count },
        last_seen_at_ms: now_ms,
        ..c
    }
}

/// A client seen for the first time, under the identifier `id`.
pub open spec fn fresh(seen: ClientSeen, now_ms: i64, id: Seq<char>) -> ClientView {
    ClientView {
        id,
        name: seen.name@,
        kind: seen.kind@,
        user_agent: opt_string_view(seen.user_agent),
        last_request_id: opt_string_view(seen.request_id),
        last_path: opt_string_view(seen.path),
        request_count: 1,
        connected_at_ms: now_ms,
        last_seen_at_ms: now_ms,
    }
}

/// The identifier a new client gets: its own, or a new `client` identifier.
pub open spec fn fresh_id_ok(seen: ClientSeen, id: Seq<char>) -> bool {
    match seen.client_id {
        Some(c) => id == c@,
        None => is_generated_id("client"@, id),
    }
}

proof fn lemma_oldest_index_bounds(entries: Seq<(Seq<char>, ClientView)>)
    requires
        entries.len() > 0,
    ensures
        0 <= oldest_index(entries) < entries.len(),
        forall|j: int| 0 <= j < entries.len() ==> entries[oldest_index(entries)].1.last_seen_at_ms <= (#[trigger] entries[j]).1.last_seen_at_ms,
        forall|j: int| 0 <= j < oldest_index(entries) ==> entries[oldest_index(entries)].1.last_seen_at_ms < (#[trigger] entries[j]).1.last_seen_at_ms,
    decreases entries.len(),
{
    if entries.len() > 1 {
        let rest = entries.drop_last();
        lemma_oldest_index_bounds(rest);
        let k = oldest_index(rest);
        assert forall|j: int| 0 <= j < rest.len() implies rest[j] == entries[j] by {}
    }
}

impl ClientRegistry {
    /// The remembered clients, each with its key, in the order they were first seen.
    pub closed spec fn entries(&self) -> Seq<(Seq<char>, ClientView)> {
        self.entries@.map_values(|e: RegistryEntry| (e.key@, e.client@))
    }

    /// Keys are distinct, and there are at most 50 entries.
    pub open spec fn wf(&self) -> bool {
        &&& self.entries().len() <= RECENT_CLIENT_LIMIT
        &&& forall|i: int, j: int| 0 <= i < j < self.entries().len() ==> (#[trigger] self.entries()[i]).0 != (#[trigger] self.entries()[j]).0
    }

    /// An empty registry.
    pub fn new() -> (r: ClientRegistry)
        ensures
            r.wf(),
            r.entries().len() == 0,
    {
        let r = ClientRegistry { entries: Vec::new() };
        assert(r.entries() =~= Seq::<(Seq<char>, ClientView)>::empty());
        r
    }

    fn find(&self, key: &String) -> (r: Option<usize>)
        ensures
            match r {
                Some(i) => i < self.entries().len() && self.entries()[i as int].0 == key@,
                None => forall|i: int| 0 <= i < self.entries().len() ==> (#[trigger] self.entries()[i]).0 != key@,
            },
    {
        let mut i: usize = 0;
        while i < self.entries.len()
            invariant
                i <= self.entries@.len(),
                forall|j: int| 0 <= j < i ==> (#[trigger] self.entries()[j]).0 != key@,
            decreases self.entries@.len() - i,
        {
            if str_eq(self.entries[i].key.as_str(), key.as_str()) {
                return Some(i);
            }
            i = i + 1;
        }
        None
    }

    fn oldest(&self) -> (r: usize)
        requires
            self.entries@.len() > 0,
        ensures
            r == oldest_index(self.entries()),
    {
        let ghost es = self.entries();
        let mut best: usize = 0;
        let mut i: usize = 1;
        while i < self.entries.len()
            invariant
                es == self.entries(),
                es.len() == self.entries@.len(),
                1 <= i <= es.len(),
                best == oldest_index(es.subrange(0, i as int)),
                best < i,
            decreases es.len() - i,
        {
            let ghost pre = es.subrange(0, i + 1 as int);
            assert(pre.drop_last() =~= es.subrange(0, i as int));
            assert(pre[best as int] == es[best as int]);
            assert(pre.last() == es[i as int]);
            if self.entries[i].client.last_seen_at_ms < self.entries[best].client.last_seen_at_ms {
                best = i;
            }
            i = i + 1;
        }
        assert(es.subrange(0, es.len() as int) =~= es);
        best
    }

    /// Records a request from a client at `now_ms`. A known client is updated in
    /// place; a new one is added, and then the least recently seen client is
    /// forgotten if there are more than 50.
    pub fn register(&mut self, seen: ClientSeen, now_ms: i64)
        requires
            old(self).wf(),
        ensures
            final(self).wf(),
            ({
                let old_entries = old(self).entries();
                let key = client_key_spec(seen);
                match key_index(old_entries, key) {
                    Some(i) => final(self).entries() == old_entries.update(i, (key, touched(old_entries[i].1, seen, now_ms))),
                    None => exists|id: Seq<char>| fresh_id_ok(seen, id)
                        && final(self).entries() == evict(old_entries.push((key, fresh(seen, now_ms, id)))),
                }
            }),
    {
        let ghost old_entries = self.entries();
        let key = client_key(&seen);
        let ghost k = key@;
        match self.find(&key) {
            Some(i) => {
                proof {
                    assert(old_entries[i as int].0 == k);
                    assert(key_index(old_entries, k) == Some(i as int));
                }
                let mut entry = self.entries.remove(i);
                entry.client.name = seen.name;
                entry.client.kind = seen.kind;
                entry.client.user_agent = seen.user_agent;
                entry.client.last_request_id = seen.request_id;
                entry.client.last_path = seen.path;
                if entry.client.request_count < u64::MAX {
                    entry.client.request_count = entry.client.request_count + 1;
                }
                entry.client.last_seen_at_ms = now_ms;
                self.entries.insert(i, entry);
                proof {
                    assert(self.entries() =~= old_entries.update(i as int, (k, touched(old_entries[i as int].1, seen, now_ms))));
                }
            },
            None => {
                proof {
                    assert(key_index(old_entries, k) is None);
                }
                let id = match &seen.client_id {
                    Some(c) => c.clone(),
                    None => new_id("client"),
                };
                let ghost idv = id@;
                let ghost seen_g = seen;
                let client = ConnectedClient {
                    id,
                    name: seen.name,
                    kind: seen.kind,
                    user_agent: seen.user_agent,
                    last_request_id: seen.request_id,
                    last_path: seen.path,
                    request_count: 1,
                    connected_at_ms: now_ms,
                    last_seen_at_ms: now_ms,
                };
                self.entries.push(RegistryEntry { key, client });
                let ghost pushed = old_entries.push((k, fresh(seen_g, now_ms, idv)));
                assert(self.entries() =~= pushed);
                if self.entries.len() > RECENT_CLIENT_LIMIT {
                    let o = self.oldest();
                    proof {
                        lemma_oldest_index_bounds(pushed);
                    }
                    self.entries.remove(o);
                    assert(self.entries() =~= pushed.remove(o as int));
                }
                assert(fresh_id_ok(seen_g, idv));
                assert(self.entries() == evict(pushed));
            },
        }
    }

    /// The clients, most recently seen first; among clients seen at the same time, in
    /// the order they were first seen.
    pub fn recent(&self) -> (r: Vec<ConnectedClient>)
        ensures
            exists|order: Seq<usize>| #[trigger] is_recent_order(self.entries(), order) && r@.len() == order.len()
                && forall|k: int| 0 <= k < order.len() ==> (#[trigger] r@[k])@ == self.entries()[order[k] as int].1,
    {
        let ghost es = self.entries();
        let n = self.entries.len();
        let mut order: Vec<usize> = Vec::new();
        let mut i: usize = 0;
        while i < n
            invariant
                es == self.entries(),
                n == es.len(),
                i <= n,
                order@.len() == i,
                forall|k: int| 0 <= k < order@.len() ==> (#[trigger] order@[k]) < i,
                forall|x: usize| x < i ==> order@.contains(x),
                forall|a: int, b: int| 0 <= a < b < order@.len() ==> recent_before(es, #[trigger] order@[a] as int, #[trigger] order@[b] as int),
            decreases n - i,
        {
            let ghost o = order@;
            let mut k: usize = 0;
            while k < order.len()
                invariant
                    es == self.entries(),
                    n == es.len(),
                    o == order@,
                    i < n,
                    k <= o.len(),
                    forall|m: int| 0 <= m < o.len() ==> (#[trigger] o[m]) < i,
                    forall|m: int| 0 <= m < k ==> recent_before(es, #[trigger] o[m] as int, i as int),
                ensures
                    k <= o.len(),
                    forall|m: int| 0 <= m < k ==> recent_before(es, #[trigger] o[m] as int, i as int),
                    k < o.len() ==> recent_before(es, i as int, o[k as int] as int),
                decreases o.len() - k,
            {
                let j = order[k];
                let before = self.entries[j].client.last_seen_at_ms > self.entries[i].client.last_seen_at_ms || (
                self.entries[j].client.last_seen_at_ms == self.entries[i].client.last_seen_at_ms && j < i);
                if !before {
                    break;
                }
                k = k + 1;
            }
            order.insert(k, i);
            proof {
                let t = order@;
                assert(t =~= o.subrange(0, k as int).push(i) + o.subrange(k as int, o.len() as int));
                assert forall|a: int, b: int| 0 <= a < b < t.len() implies recent_before(es, #[trigger] t[a] as int, #[trigger] t[b] as int) by {
                    if b == k {
                        assert(t[a] == o[a]);
                    } else if a == k {
                        assert(t[b] == o[b - 1]);
                    } else if a < k && b > k {
                        assert(t[a] == o[a] && t[b] == o[b - 1]);
                    } else if b < k {
                        assert(t[a] == o[a] && t[b] == o[b]);
                    } else {
                        assert(t[a] == o[a - 1] && t[b] == o[b - 1]);
                    }
                }
                assert forall|x: usize| x < i + 1 implies t.contains(x) by {
                    if x == i {
                        assert(t[k as int] == x);
                    } else {
                        assert(o.contains(x));
                        let m = choose|m: int| 0 <= m < o.len() && o[m] == x;
                        if m < k {
                            assert(t[m] == x);
                        } else {
                            assert(t[m + 1] == x);
                        }
                    }
                }
                assert forall|m: int| 0 <= m < t.len() implies (#[trigger] t[m]) < i + 1 by {
                    if m < k {
                        assert(t[m] == o[m]);
                    } else if m > k {
                        assert(t[m] == o[m - 1]);
                    }
                }
            }
            i = i + 1;
        }
        let mut out: Vec<ConnectedClient> = Vec::new();
        let mut k: usize = 0;
        while k < n
            invariant
                es == self.entries(),
                n == es.len(),
                order@.len() == n,
                forall|m: int| 0 <= m < n ==> (#[trigger] order@[m]) < n,
                k <= n,
                out@.len() == k,
                forall|m: int| 0 <= m < k ==> (#[trigger] out@[m])@ == es[order@[m] as int].1,
            decreases n - k,
        {
            let j = order[k];
            out.push(crate::text::DeepCopy::deep_copy(&self.entries[j].client));
            k = k + 1;
        }
        assert(is_recent_order(es, order@));
        out
    }
}

/// Entry `i` is listed before entry `j`: seen more recently, or at the same time and
/// first seen earlier.
pub open spec fn recent_before(es: Seq<(Seq<char>, ClientView)>, i: int, j: int) -> bool {
    es[i].1.last_seen_at_ms > es[j].1.last_seen_at_ms || (es[i].1.last_seen_at_ms == es[j].1.last_seen_at_ms && i < j)
}

/// Every entry's position once, each listed before the next.
pub open spec fn is_recent_order(es: Seq<(Seq<char>, ClientView)>, order: Seq<usize>) -> bool {
    &&& order.len() == es.len()
    &&& forall|k: int| 0 <= k < order.len() ==> (#[trigger] order[k]) < es.len()
    &&& forall|x: usize| x < es.len() ==> order.contains(x)
    &&& forall|a: int, b: int| 0 <= a < b < order.len() ==> recent_before(es, #[trigger] order[a] as int, #[trigger] order[b] as int)
}

/// There is only one recent order for a set of clients: two lists that each hold every
/// client once, most recently seen first and ties in first-seen order, are the same list.
pub proof fn lemma_recent_order_unique(es: Seq<(Seq<char>, ClientView)>, o1: Seq<usize>, o2: Seq<usize>)
    requires
        is_recent_order(es, o1),
        is_recent_order(es, o2),
    ensures
        o1 == o2,
{
    let before = |i: int, j: int| recent_before(es, i, j);
    assert forall|x: usize| o1.contains(x) <==> o2.contains(x) by {
        if o1.contains(x) {
            let k = choose|k: int| 0 <= k < o1.len() && o1[k] == x;
            assert(o1[k] < es.len());
        }
        if o2.contains(x) {
            let k = choose|k: int| 0 <= k < o2.len() && o2[k] == x;
            assert(o2[k] < es.len());
        }
    }
    assert(crate::order::sorted_by(before, o1));
    assert(crate::order::sorted_by(before, o2));
    crate::order::lemma_sorted_by_unique(before, o1, o2);
}

// ---------------------------------------------------------------------------------
// Recent events

/// The last events emitted, oldest first.
pub struct RecentEvents<E> {
    events: Vec<E>,
}

/// The history after one more event: the event is appended, and the oldest dropped
/// when the history was full.
pub open spec fn history_step<E>(h: Seq<E>, e: E) -> Seq<E> {
    if h.len() >= RECENT_EVENT_LIMIT {
        h.drop_first().push(e)
    } else {
        h.push(e)
    }
}

/// The history after emitting the events in order, from an empty history.
pub open spec fn history_of<E>(es: Seq<E>) -> Seq<E>
    decreases es.len(),
{
    if es.len() == 0 {
        seq![]
    } else {
        history_step(history_of(es.drop_last()), es.last())
    }
}

/// The last `n` elements, or all of them when there are fewer.
pub open spec fn last_n<E>(s: Seq<E>, n: nat) -> Seq<E> {
    if s.len() <= n { s } else { s.subrange(s.len() - n, s.len() as int) }
}

impl<E> View for RecentEvents<E> {
    type V = Seq<E>;

    closed spec fn view(&self) -> Seq<E> {
        self.events@
    }
}

impl<E> RecentEvents<E> {
    pub open spec fn wf(&self) -> bool {
        self@.len() <= RECENT_EVENT_LIMIT
    }

    /// An empty history.
    pub fn new() -> (r: RecentEvents<E>)
        ensures
            r.wf(),
            r@ == Seq::<E>::empty(),
    {
        RecentEvents { events: Vec::new() }
    }

    /// Records an event, forgetting the oldest when 100 are kept.
    pub fn emit(&mut self, event: E)
        requires
            old(self).wf(),
        ensures
            final(self).wf(),
            final(self)@ == history_step(old(self)@, event),
    {
        if self.events.len() >= RECENT_EVENT_LIMIT {
            self.events.remove(0);
        }
        self.events.push(event);
        assert(self@ =~= history_step(old(self)@, event));
    }

    /// The kept events, oldest first.
    pub fn recent(&self) -> (r: &Vec<E>)
        ensures
            r@ == self@,
    {
        &self.events
    }

    /// The most recent `limit` kept events, oldest first.
    pub fn recent_limit(&self, limit: usize) -> (r: &[E])
        ensures
            r@ == last_n(self@, limit as nat),
    {
        let n = self.events.len();
        let start: usize = if n <= limit { 0 } else { n - limit };
        let r = vstd::slice::slice_subrange(self.events.as_slice(), start, n);
        assert(r@ =~= last_n(self@, limit as nat));
        r
    }
}

/// The history keeps exactly the last 100 events emitted, in the order they were
/// emitted.
pub proof fn lemma_history_keeps_last_events<E>(es: Seq<E>)
    ensures
        history_of(es) == last_n(es, RECENT_EVENT_LIMIT as nat),
    decreases es.len(),
{
    if es.len() > 0 {
        let rest = es.drop_last();
        lemma_history_keeps_last_events(rest);
        let h = history_of(rest);
        if rest.len() >= RECENT_EVENT_LIMIT {
            assert(h.drop_first().push(es.last()) =~= last_n(es, RECENT_EVENT_LIMIT as nat));
        } else {
            assert(h.push(es.last()) =~= last_n(es, RECENT_EVENT_LIMIT as nat));
        }
    } else {
        assert(last_n(es, RECENT_EVENT_LIMIT as nat) =~= Seq::<E>::empty());
    }
}

} // verus!
