//! The telemetry store: completed spans by span ID, a trace index, and events,
//! with temporal queries over them.
//!
//! Times are nanoseconds since the Unix epoch. A span that has not ended counts
//! as lasting until the present.

use vstd::prelude::*;
use crate::assoc::{assoc_map, keys_unique, lemma_assoc_dom, lemma_assoc_lookup, lemma_assoc_push_unique,
    lemma_assoc_update};
use crate::telemetry::clock::unix_time_nanos;
use crate::telemetry::span::{EventData, EventView, SpanData, SpanView};
use crate::telemetry::trace::{SpanId, TraceId};

verus! {

/// Stored span record.
#[derive(Debug)]
pub struct StoredSpan {
    /// Entity ID of the record.
    pub entity_id: u64,
    /// The span data as recorded.
    pub data: SpanData,
}

impl View for StoredSpan {
    type V = (u64, SpanView);

    open spec fn view(&self) -> (u64, SpanView) {
        (self.entity_id, self.data@)
    }
}

impl Clone for StoredSpan {
    fn clone(&self) -> (r: StoredSpan)
        ensures
            r@ == self@,
    {
        StoredSpan { entity_id: self.entity_id, data: self.data.clone() }
    }
}

/// Stored event record.
#[derive(Debug)]
pub struct StoredEvent {
    /// Entity ID of the record.
    pub entity_id: u64,
    /// The event data as recorded.
    pub data: EventData,
}

impl View for StoredEvent {
    type V = (u64, EventView);

    open spec fn view(&self) -> (u64, EventView) {
        (self.entity_id, self.data@)
    }
}

impl Clone for StoredEvent {
    fn clone(&self) -> (r: StoredEvent)
        ensures
            r@ == self@,
    {
        StoredEvent { entity_id: self.entity_id, data: self.data.clone() }
    }
}

/// The span ID bytes of a stored span.
pub open spec fn span_key(v: (u64, SpanView)) -> Seq<u8> {
    v.1.span_id.bytes()
}

/// The end of a span, or `now` if it has not ended.
pub open spec fn end_or(v: (u64, SpanView), now: int) -> int {
    match v.1.end_time_ns {
        Some(e) => e as int,
        None => now,
    }
}

/// Whether a span was active at `t`: started at or before it and ended (or, if
/// still open, `now` is) at or after it.
pub open spec fn active_at(t: int, now: int) -> spec_fn((u64, SpanView)) -> bool {
    |v: (u64, SpanView)| v.1.start_time_ns <= t && t <= end_or(v, now)
}

/// Whether a span overlaps the range `[from, to]` (an open span lasts until `now`).
pub open spec fn overlaps(from: int, to: int, now: int) -> spec_fn((u64, SpanView)) -> bool {
    |v: (u64, SpanView)| v.1.start_time_ns <= to && end_or(v, now) >= from
}

/// Whether an event happened in the range `[from, to]`.
pub open spec fn happened_in(from: int, to: int) -> spec_fn((u64, EventView)) -> bool {
    |v: (u64, EventView)| from <= v.1.timestamp_ns && v.1.timestamp_ns <= to
}

/// Stores `v` in place of the span with its ID, or appends it if there is none.
pub open spec fn put_span(s: Seq<(u64, SpanView)>, v: (u64, SpanView)) -> Seq<(u64, SpanView)> {
    if exists|i: int| 0 <= i < s.len() && span_key(#[trigger] s[i]) == span_key(v) {
        s.update(choose|i: int| 0 <= i < s.len() && span_key(#[trigger] s[i]) == span_key(v), v)
    } else {
        s.push(v)
    }
}

/// Whether a span belongs to the trace with ID bytes `t`.
pub open spec fn in_trace(t: Seq<u8>) -> spec_fn((u64, SpanView)) -> bool {
    |v: (u64, SpanView)| v.1.trace_id.bytes() == t
}

/// The stored spans after recording `spans` (entity ID and span, in order) into a
/// store that held none: each record replaces the stored span with its span ID, or
/// is appended.
pub open spec fn recorded(spans: Seq<(u64, SpanView)>) -> Seq<(u64, SpanView)>
    decreases spans.len(),
{
    if spans.len() == 0 {
        Seq::empty()
    } else {
        put_span(recorded(spans.drop_last()), spans.last())
    }
}

/// No span ID occurs twice.
pub open spec fn unique_span_ids(s: Seq<(u64, SpanView)>) -> bool {
    forall|i: int, j: int| 0 <= i < j < s.len() ==> span_key(#[trigger] s[i]) != span_key(#[trigger] s[j])
}

proof fn lemma_put_span_keeps_unique(s: Seq<(u64, SpanView)>, v: (u64, SpanView))
    requires
        unique_span_ids(s),
    ensures
        unique_span_ids(put_span(s, v)),
{
    if exists|i: int| 0 <= i < s.len() && span_key(#[trigger] s[i]) == span_key(v) {
        let k = choose|i: int| 0 <= i < s.len() && span_key(#[trigger] s[i]) == span_key(v);
        let t = s.update(k, v);
        assert forall|i: int, j: int| 0 <= i < j < t.len() implies span_key(#[trigger] t[i]) != span_key(#[trigger] t[j]) by {
            if i != k && j != k {
                assert(t[i] == s[i] && t[j] == s[j]);
            } else if i == k {
                assert(span_key(s[j]) != span_key(s[k]));
            } else {
                assert(span_key(s[i]) != span_key(s[k]));
            }
        }
    } else {
        let t = s.push(v);
        assert forall|i: int, j: int| 0 <= i < j < t.len() implies span_key(#[trigger] t[i]) != span_key(#[trigger] t[j]) by {
            if j == s.len() {
                assert(t[i] == s[i]);
            } else {
                assert(t[i] == s[i] && t[j] == s[j]);
            }
        }
    }
}

proof fn lemma_filter_keeps_unique(s: Seq<(u64, SpanView)>, t: Seq<u8>)
    requires
        unique_span_ids(s),
    ensures
        unique_span_ids(s.filter(in_trace(t))),
    decreases s.len(),
{
    reveal(Seq::filter);
    if s.len() > 0 {
        let rest = s.drop_last();
        assert(unique_span_ids(rest)) by {
            assert forall|i: int, j: int| 0 <= i < j < rest.len() implies span_key(#[trigger] rest[i]) != span_key(#[trigger] rest[j]) by {
                assert(rest[i] == s[i] && rest[j] == s[j]);
            }
        }
        lemma_filter_keeps_unique(rest, t);
        let f = rest.filter(in_trace(t));
        if in_trace(t)(s.last()) {
            let g = f.push(s.last());
            assert forall|i: int, j: int| 0 <= i < j < g.len() implies span_key(#[trigger] g[i]) != span_key(#[trigger] g[j]) by {
                if j == f.len() {
                    assert(f.contains(f[i]));
                    rest.lemma_filter_contains_rev(in_trace(t), f[i]);
                    let m = choose|m: int| 0 <= m < rest.len() && rest[m] == f[i];
                    assert(s[m] == rest[m]);
                    assert(span_key(s[m]) != span_key(s[s.len() - 1]));
                } else {
                    assert(g[i] == f[i] && g[j] == f[j]);
                }
            }
        }
    }
}

/// Recording spans one after another keeps one record per span ID: the spans of a
/// trace are each found once. When the recorded spans have distinct span IDs, the
/// store holds them all in recording order, so the spans of a trace are exactly the
/// recorded spans of that trace, in recording order.
pub proof fn law_trace_spans_after_recording(spans: Seq<(u64, SpanView)>, t: Seq<u8>)
    ensures
        unique_span_ids(recorded(spans)),
        unique_span_ids(recorded(spans).filter(in_trace(t))),
        unique_span_ids(spans) ==> recorded(spans) == spans,
        unique_span_ids(spans) ==> recorded(spans).filter(in_trace(t)) == spans.filter(in_trace(t)),
    decreases spans.len(),
{
    if spans.len() > 0 {
        let rest = spans.drop_last();
        law_trace_spans_after_recording(rest, t);
        lemma_put_span_keeps_unique(recorded(rest), spans.last());
        if unique_span_ids(spans) {
            assert(unique_span_ids(rest)) by {
                assert forall|i: int, j: int| 0 <= i < j < rest.len() implies span_key(#[trigger] rest[i]) != span_key(#[trigger] rest[j]) by {
                    assert(rest[i] == spans[i] && rest[j] == spans[j]);
                }
            }
            assert(recorded(rest) == rest);
            assert forall|i: int| 0 <= i < rest.len() implies span_key(#[trigger] rest[i]) != span_key(spans.last()) by {
                assert(rest[i] == spans[i]);
            }
            assert(rest.push(spans.last()) =~= spans);
        }
    }
    lemma_filter_keeps_unique(recorded(spans), t);
}

/// The nanoseconds in `ms` milliseconds.
pub open spec fn ms_to_ns(ms: int) -> int {
    ms * 1_000_000
}

/// Once recorded, a span is found under its span ID with the entity ID it got.
pub proof fn law_record_then_get(before: TelemetryStore, after: TelemetryStore, span: SpanView, id: u64)
    requires
        after.spans() == before.spans().insert(span.span_id.bytes(), (id, span)),
    ensures
        after.spans().contains_key(span.span_id.bytes()),
        after.spans()[span.span_id.bytes()] == (id, span),
{
}

/// A recorded span is among the spans active at any time within its interval.
pub proof fn law_recorded_span_is_active(spans: Seq<(u64, SpanView)>, v: (u64, SpanView), t: int, now: int)
    requires
        active_at(t, now)(v),
    ensures
        put_span(spans, v).filter(active_at(t, now)).contains(v),
{
    let s = put_span(spans, v);
    let i = if exists|i: int| 0 <= i < spans.len() && span_key(#[trigger] spans[i]) == span_key(v) {
        choose|i: int| 0 <= i < spans.len() && span_key(#[trigger] spans[i]) == span_key(v)
    } else {
        spans.len() as int
    };
    assert(s[i] == v);
    s.lemma_filter_contains(active_at(t, now), i);
}

/// Asking for the spans that overlap the single instant `[t, t]` is asking for
/// the spans active at `t`.
pub proof fn law_instant_range_is_point_query(store: TelemetryStore, t: int, now: int)
    ensures
        store.stored_spans().filter(overlaps(t, t, now)) == store.stored_spans().filter(active_at(t, now)),
{
    assert(overlaps(t, t, now) =~= active_at(t, now));
}


/// Telemetry storage with temporal queries.
#[derive(Debug)]
pub struct TelemetryStore {
    spans: Vec<StoredSpan>,
    events: Vec<StoredEvent>,
    next_entity: u64,
}

impl TelemetryStore {
    /// The stored spans, keyed by span ID bytes, in storage order.
    pub closed spec fn span_entries(&self) -> Seq<(Seq<u8>, (u64, SpanView))> {
        self.spans@.map_values(|s: StoredSpan| (s.data.span_id.bytes(), s@))
    }

    /// The stored spans in storage order.
    pub closed spec fn stored_spans(&self) -> Seq<(u64, SpanView)> {
        self.spans@.map_values(|s: StoredSpan| s@)
    }

    /// The stored spans by span ID bytes.
    pub open spec fn spans(&self) -> Map<Seq<u8>, (u64, SpanView)> {
        assoc_map(self.span_entries())
    }

    /// The stored events in recording order.
    pub closed spec fn stored_events(&self) -> Seq<(u64, EventView)> {
        self.events@.map_values(|e: StoredEvent| e@)
    }

    /// The entity ID the next record gets.
    pub closed spec fn next_entity(&self) -> u64 {
        self.next_entity
    }

    /// No span ID is stored twice.
    pub closed spec fn wf(&self) -> bool {
        keys_unique(self.span_entries())
    }

    /// Creates an empty store; entity IDs start at 1.
    pub fn new() -> (s: TelemetryStore)
        ensures
            s.wf(),
            s.stored_spans() == Seq::<(u64, SpanView)>::empty(),
            s.spans() == Map::<Seq<u8>, (u64, SpanView)>::empty(),
            s.stored_events() == Seq::<(u64, EventView)>::empty(),
            s.next_entity() == 1,
    {
        let s = TelemetryStore { spans: Vec::new(), events: Vec::new(), next_entity: 1 };
        proof {
            assert(s.span_entries() =~= Seq::empty());
            assert(s.stored_spans() =~= Seq::empty());
            assert(s.stored_events() =~= Seq::empty());
        }
        s
    }

    fn take_entity_id(&mut self) -> (id: u64)
        ensures
            id == old(self).next_entity,
            final(self).next_entity == old(self).next_entity.wrapping_add(1),
            final(self).spans == old(self).spans,
            final(self).events == old(self).events,
    {
        let id = self.next_entity;
        self.next_entity = id.wrapping_add(1);
        id
    }

    fn find_span(&self, span_id: &SpanId) -> (r: Option<usize>)
        ensures
            match r {
                Some(i) => i < self.span_entries().len() && self.span_entries()[i as int].0 == span_id.bytes(),
                None => forall|i: int| 0 <= i < self.span_entries().len() ==> (#[trigger] self.span_entries()[i]).0 != span_id.bytes(),
            },
    {
        let n = self.spans.len();
        let mut i: usize = 0;
        while i < n
            invariant
                n == self.spans@.len(),
                i <= n,
                forall|k: int| 0 <= k < i ==> (#[trigger] self.span_entries()[k]).0 != span_id.bytes(),
            decreases n - i,
        {
            if self.spans[i].data.span_id.same_as(span_id) {
                return Some(i);
            }
            i = i + 1;
        }
        None
    }

    /// Records a completed span under a fresh entity ID, which it returns.
    ///
    /// The span replaces any stored span with the same span ID (keeping that
    /// span's place in storage order).
    pub fn record_span(&mut self, span: SpanData) -> (id: u64)
        requires
            old(self).wf(),
        ensures
            final(self).wf(),
            id == old(self).next_entity(),
            final(self).next_entity() == old(self).next_entity().wrapping_add(1),
            final(self).stored_spans() == put_span(old(self).stored_spans(), (id, span@)),
            final(self).spans() == old(self).spans().insert(span.span_id.bytes(), (id, span@)),
            final(self).stored_events() == old(self).stored_events(),
    {
        let ghost old_spans = self.stored_spans();
        let ghost se = self.span_entries();
        let id = self.take_entity_id();
        assert(self.span_entries() == se);
        assert(self.stored_spans() == old_spans);
        let span_id = span.span_id;
        let ghost v = (id, span@);
        let stored = StoredSpan { entity_id: id, data: span };
        assert(stored@ == v);
        match self.find_span(&span_id) {
            Some(i) => {
                proof {
                    lemma_assoc_update(se, i as int, v);
                    assert(span_key(old_spans[i as int]) == span_key(v));
                    let j = choose|j: int| 0 <= j < old_spans.len() && span_key(#[trigger] old_spans[j]) == span_key(v);
                    assert(se[j].0 == se[i as int].0);
                    assert(j == i);
                }
                self.spans.set(i, stored);
                proof {
                    assert(self.span_entries() =~= se.update(i as int, (se[i as int].0, v)));
                    assert(self.stored_spans() =~= old_spans.update(i as int, v));
                }
            },
            None => {
                proof {
                    lemma_assoc_dom(se, span_id.bytes());
                    lemma_assoc_push_unique(se, span_id.bytes(), v);
                    assert forall|j: int| 0 <= j < old_spans.len() implies span_key(#[trigger] old_spans[j]) != span_key(v) by {
                        assert(se[j].0 == span_key(old_spans[j]));
                    }
                }
                self.spans.push(stored);
                proof {
                    assert(self.span_entries() =~= se.push((span_id.bytes(), v)));
                    assert(self.stored_spans() =~= old_spans.push(v));
                }
            },
        }
        proof {
            assert(self.stored_events() =~= old(self).stored_events());
        }
        id
    }

    /// Records an event under a fresh entity ID, which it returns.
    pub fn record_event(&mut self, event: EventData) -> (id: u64)
        requires
            old(self).wf(),
        ensures
            final(self).wf(),
            id == old(self).next_entity(),
            final(self).next_entity() == old(self).next_entity().wrapping_add(1),
            final(self).stored_events() == old(self).stored_events().push((id, event@)),
            final(self).stored_spans() == old(self).stored_spans(),
            final(self).spans() == old(self).spans(),
    {
        let id = self.take_entity_id();
        let ghost before = self.stored_events();
        self.events.push(StoredEvent { entity_id: id, data: event });
        proof {
            assert(self.stored_events() =~= before.push((id, event@)));
            assert(self.span_entries() =~= old(self).span_entries());
            assert(self.stored_spans() =~= old(self).stored_spans());
        }
        id
    }

    /// Gets a span by its ID.
    pub fn get_span(&self, span_id: SpanId) -> (r: Option<StoredSpan>)
        requires
            self.wf(),
        ensures
            match r {
                Some(s) => self.spans().contains_key(span_id.bytes()) && s@ == self.spans()[span_id.bytes()],
                None => !self.spans().contains_key(span_id.bytes()),
            },
    {
        match self.find_span(&span_id) {
            Some(i) => {
                proof {
                    lemma_assoc_lookup(self.span_entries(), i as int);
                }
                Some(self.spans[i].clone())
            },
            None => {
                proof {
                    lemma_assoc_dom(self.span_entries(), span_id.bytes());
                }
                None
            },
        }
    }

    /// Gets all spans of a trace: every stored span whose trace ID is `trace_id`,
    /// each once, in the order the spans were first recorded.
    pub fn get_trace_spans(&self, trace_id: TraceId) -> (r: Vec<StoredSpan>)
        ensures
            r@.map_values(|s: StoredSpan| s@) == self.stored_spans().filter(in_trace(trace_id.bytes())),
    {
        let mut out: Vec<StoredSpan> = Vec::new();
        let n = self.spans.len();
        let ghost all = self.stored_spans();
        let ghost p = in_trace(trace_id.bytes());
        let mut i: usize = 0;
        while i < n
            invariant
                n == self.spans@.len(),
                all == self.stored_spans(),
                p == in_trace(trace_id.bytes()),
                i <= n,
                out@.map_values(|s: StoredSpan| s@) == all.take(i as int).filter(p),
            decreases n - i,
        {
            let ghost prev = out@;
            let s = &self.spans[i];
            proof {
                reveal(Seq::filter);
                assert(all.take(i + 1).drop_last() =~= all.take(i as int));
                assert(all.take(i + 1).last() == s@);
            }
            if s.data.trace_id.same_as(&trace_id) {
                out.push(s.clone());
                proof {
                    assert(out@.map_values(|s: StoredSpan| s@) =~= prev.map_values(|s: StoredSpan| s@).push(all[i as int]));
                }
            }
            i = i + 1;
        }
        proof {
            assert(all.take(n as int) =~= all);
        }
        out
    }

    /// The stored spans (in storage order) that satisfy an interval condition:
    /// starting at or before `to` and ending (open spans: at `now`) at or after `from`.
    fn spans_between(&self, from: i128, to: i128, now: i64) -> (r: Vec<StoredSpan>)
        ensures
            r@.map_values(|s: StoredSpan| s@) == self.stored_spans().filter(overlaps(from as int, to as int, now as int)),
    {
        let mut out: Vec<StoredSpan> = Vec::new();
        let n = self.spans.len();
        let ghost all = self.stored_spans();
        let ghost p = overlaps(from as int, to as int, now as int);
        let mut i: usize = 0;
        while i < n
            invariant
                n == self.spans@.len(),
                all == self.stored_spans(),
                p == overlaps(from as int, to as int, now as int),
                i <= n,
                out@.map_values(|s: StoredSpan| s@) == all.take(i as int).filter(p),
            decreases n - i,
        {
            let ghost prev = out@;
            let s = &self.spans[i];
            let end: i64 = match s.data.end_time_ns {
                Some(e) => e,
                None => now,
            };
            proof {
                reveal(Seq::filter);
                assert(all.take(i + 1).drop_last() =~= all.take(i as int));
                assert(all.take(i + 1).last() == s@);
                assert(end as int == end_or(s@, now as int));
            }
            if (s.data.start_time_ns as i128) <= to && (end as i128) >= from {
                out.push(s.clone());
                proof {
                    assert(out@.map_values(|s: StoredSpan| s@) =~= prev.map_values(|s: StoredSpan| s@).push(all[i as int]));
                }
            }
            i = i + 1;
        }
        proof {
            assert(all.take(n as int) =~= all);
        }
        out
    }

    /// The stored spans (in storage order) active at `valid_time_ns`, an open span
    /// counting as lasting until `now_ns`.
    pub fn spans_active_at(&self, valid_time_ns: i64, now_ns: i64) -> (r: Vec<StoredSpan>)
        ensures
            r@.map_values(|s: StoredSpan| s@) == self.stored_spans().filter(active_at(valid_time_ns as int, now_ns as int)),
    {
        let r = self.spans_between(valid_time_ns as i128, valid_time_ns as i128, now_ns);
        proof {
            assert(overlaps(valid_time_ns as int, valid_time_ns as int, now_ns as int)
                =~= active_at(valid_time_ns as int, now_ns as int));
        }
        r
    }

    /// Finds spans active at a specific time (an open span counts as lasting
    /// until the present, a time read from the clock, never before the epoch).
    /// The transaction time is not used.
    pub fn spans_at(&self, valid_time_ns: i64, _transaction_time_ns: Option<i64>) -> (r: Vec<StoredSpan>)
        ensures
            exists|now: i64| 0 <= now && r@.map_values(|s: StoredSpan| s@)
                == #[trigger] self.stored_spans().filter(active_at(valid_time_ns as int, now as int)),
    {
        let now = Self::now_or_max();
        self.spans_active_at(valid_time_ns, now)
    }

    /// The present as nanoseconds since the epoch (0 if the clock reads before the
    /// epoch); the latest representable time if it does not fit an `i64`.
    fn now_or_max() -> (n: i64)
        ensures
            n >= 0,
    {
        let nanos = unix_time_nanos();
        if nanos <= 0x7fff_ffff_ffff_ffffu128 {
            nanos as i64
        } else {
            i64::MAX
        }
    }

    /// The stored spans (in storage order) that overlap `[from_ns, to_ns]`, an
    /// open span counting as lasting until `now_ns`.
    pub fn spans_overlapping(&self, from_ns: i64, to_ns: i64, now_ns: i64) -> (r: Vec<StoredSpan>)
        ensures
            r@.map_values(|s: StoredSpan| s@) == self.stored_spans().filter(overlaps(from_ns as int, to_ns as int, now_ns as int)),
    {
        self.spans_between(from_ns as i128, to_ns as i128, now_ns)
    }

    /// Finds spans that overlap a time range (an open span counts as lasting
    /// until the present).
    pub fn spans_in_range(&self, from_ns: i64, to_ns: i64) -> (r: Vec<StoredSpan>)
        ensures
            exists|now: i64| 0 <= now && r@.map_values(|s: StoredSpan| s@)
                == #[trigger] self.stored_spans().filter(overlaps(from_ns as int, to_ns as int, now as int)),
    {
        let now = Self::now_or_max();
        self.spans_overlapping(from_ns, to_ns, now)
    }

    fn events_between(&self, from: i128, to: i128) -> (r: Vec<StoredEvent>)
        ensures
            r@.map_values(|e: StoredEvent| e@) == self.stored_events().filter(happened_in(from as int, to as int)),
    {
        let mut out: Vec<StoredEvent> = Vec::new();
        let n = self.events.len();
        let ghost all = self.stored_events();
        let ghost p = happened_in(from as int, to as int);
        let mut i: usize = 0;
        while i < n
            invariant
                n == self.events@.len(),
                all == self.stored_events(),
                p == happened_in(from as int, to as int),
                i <= n,
                out@.map_values(|e: StoredEvent| e@) == all.take(i as int).filter(p),
            decreases n - i,
        {
            let ghost prev = out@;
            let e = &self.events[i];
            proof {
                reveal(Seq::filter);
                assert(all.take(i + 1).drop_last() =~= all.take(i as int));
                assert(all.take(i + 1).last() == e@);
            }
            let ts = e.data.timestamp_ns as i128;
            if from <= ts && ts <= to {
                out.push(e.clone());
                proof {
                    assert(out@.map_values(|e: StoredEvent| e@) =~= prev.map_values(|e: StoredEvent| e@).push(all[i as int]));
                }
            }
            i = i + 1;
        }
        proof {
            assert(all.take(n as int) =~= all);
        }
        out
    }

    /// Finds events in a time range, in recording order.
    pub fn events_in_range(&self, from_ns: i64, to_ns: i64) -> (r: Vec<StoredEvent>)
        ensures
            r@.map_values(|e: StoredEvent| e@) == self.stored_events().filter(happened_in(from_ns as int, to_ns as int)),
    {
        self.events_between(from_ns as i128, to_ns as i128)
    }

    /// All spans and events within `window_ms` milliseconds of `timestamp_ns`,
    /// an open span counting as lasting until `now_ns`.
    pub fn context_at(&self, timestamp_ns: i64, window_ms: i64, now_ns: i64) -> (c: TelemetryContext)
        ensures
            c.center_ns == timestamp_ns,
            c.window_ms == window_ms,
            c.spans@.map_values(|s: StoredSpan| s@) == self.stored_spans().filter(overlaps(
                timestamp_ns - ms_to_ns(window_ms as int),
                timestamp_ns + ms_to_ns(window_ms as int),
                now_ns as int,
            )),
            c.events@.map_values(|e: StoredEvent| e@) == self.stored_events().filter(happened_in(
                timestamp_ns - ms_to_ns(window_ms as int),
                timestamp_ns + ms_to_ns(window_ms as int),
            )),
    {
        let window = (window_ms as i128) * 1_000_000;
        let from = (timestamp_ns as i128) - window;
        let to = (timestamp_ns as i128) + window;
        let spans = self.spans_between(from, to, now_ns);
        let events = self.events_between(from, to);
        TelemetryContext { center_ns: timestamp_ns, window_ms, spans, events }
    }

    /// Gets context around a specific timestamp: all spans and events within
    /// `window_ms` milliseconds of it (an open span counts as lasting until the
    /// present).
    pub fn context_around(&self, timestamp_ns: i64, window_ms: i64) -> (c: TelemetryContext)
        requires
            window_ms > i64::MIN,
        ensures
            exists|now: i64| 0 <= now && c.spans@.map_values(|s: StoredSpan| s@) == #[trigger] self.stored_spans().filter(overlaps(
                timestamp_ns - ms_to_ns(window_ms as int),
                timestamp_ns + ms_to_ns(window_ms as int),
                now as int,
            )),
            c.center_ns == timestamp_ns,
            c.window_ms == window_ms,
            c.events@.map_values(|e: StoredEvent| e@) == self.stored_events().filter(happened_in(
                timestamp_ns - ms_to_ns(window_ms as int),
                timestamp_ns + ms_to_ns(window_ms as int),
            )),
    {
        let now = Self::now_or_max();
        self.context_at(timestamp_ns, window_ms, now)
    }

    /// Returns the total number of stored spans.
    pub fn span_count(&self) -> (n: usize)
        requires
            self.wf(),
        ensures
            n == self.stored_spans().len(),
    {
        self.spans.len()
    }

    /// Returns the total number of stored events.
    pub fn event_count(&self) -> (n: usize)
        ensures
            n == self.stored_events().len(),
    {
        self.events.len()
    }

    /// Clears all stored telemetry data (entity IDs keep counting).
    pub fn clear(&mut self)
        ensures
            final(self).wf(),
            final(self).stored_spans() == Seq::<(u64, SpanView)>::empty(),
            final(self).spans() == Map::<Seq<u8>, (u64, SpanView)>::empty(),
            final(self).stored_events() == Seq::<(u64, EventView)>::empty(),
            final(self).next_entity() == old(self).next_entity(),
    {
        self.spans = Vec::new();
        self.events = Vec::new();
        proof {
            assert(self.span_entries() =~= Seq::empty());
            assert(self.stored_spans() =~= Seq::empty());
            assert(self.stored_events() =~= Seq::empty());
        }
    }
}

/// Context around a specific timestamp: the spans and events within a window
/// centred on it.
#[derive(Debug)]
pub struct TelemetryContext {
    /// Center timestamp of the context (nanoseconds since the Unix epoch).
    pub center_ns: i64,
    /// Window size in milliseconds (before and after center).
    pub window_ms: i64,
    /// Spans active during this window.
    pub spans: Vec<StoredSpan>,
    /// Events that occurred during this window.
    pub events: Vec<StoredEvent>,
}

impl TelemetryContext {
    /// Returns the start of the time window, in nanoseconds.
    pub fn start(&self) -> (t: i128)
        ensures
            t == self.center_ns - ms_to_ns(self.window_ms as int),
    {
        (self.center_ns as i128) - (self.window_ms as i128) * 1_000_000
    }

    /// Returns the end of the time window, in nanoseconds.
    pub fn end(&self) -> (t: i128)
        ensures
            t == self.center_ns + ms_to_ns(self.window_ms as int),
    {
        (self.center_ns as i128) + (self.window_ms as i128) * 1_000_000
    }

    /// Returns whether the context is empty.
    pub fn is_empty(&self) -> (r: bool)
        ensures
            r == (self.spans@.len() == 0 && self.events@.len() == 0),
    {
        self.spans.len() == 0 && self.events.len() == 0
    }

    /// Returns the total number of items in the context.
    pub fn len(&self) -> (n: usize)
        requires
            self.spans@.len() + self.events@.len() <= usize::MAX,
        ensures
            n == self.spans@.len() + self.events@.len(),
    {
        self.spans.len() + self.events.len()
    }
}

} // verus!
