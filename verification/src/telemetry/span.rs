//! Span and event records as the tracing layer captures them.
//!
//! Times are nanoseconds since the Unix epoch; attributes and fields are
//! (name, value) pairs in the order they were recorded.

use vstd::prelude::*;
use crate::telemetry::level::Level;
use crate::telemetry::meta::Subsystem;
use crate::assoc::{assoc_map, keys_unique, lemma_assoc_dom, lemma_assoc_push_unique, lemma_assoc_update};
use crate::telemetry::trace::{SpanId, TraceId};
use crate::text::str_eq;

verus! {

/// Copies a list of (name, value) pairs.
pub fn clone_pairs(pairs: &Vec<(String, String)>) -> (r: Vec<(String, String)>)
    ensures
        r@ == pairs@,
{
    let mut out: Vec<(String, String)> = Vec::new();
    let n = pairs.len();
    let mut i: usize = 0;
    while i < n
        invariant
            n == pairs@.len(),
            i <= n,
            out@ =~= pairs@.take(i as int),
        decreases n - i,
    {
        let (k, v) = &pairs[i];
        out.push((k.clone(), v.clone()));
        proof {
            assert(pairs@.take(i + 1) =~= pairs@.take(i as int).push(pairs@[i as int]));
        }
        i = i + 1;
    }
    proof {
        assert(pairs@.take(n as int) =~= pairs@);
    }
    out
}

/// The (name, value) pairs as text.
pub open spec fn pair_texts(pairs: Seq<(String, String)>) -> Seq<(Seq<char>, Seq<char>)> {
    pairs.map_values(|p: (String, String)| (p.0@, p.1@))
}

/// The value recorded for each name.
pub open spec fn pairs_map(pairs: Seq<(String, String)>) -> Map<Seq<char>, Seq<char>> {
    assoc_map(pair_texts(pairs))
}

/// Records a named value: it replaces the value of that name, or is added last.
pub fn set_pair(pairs: &mut Vec<(String, String)>, name: String, value: String)
    requires
        keys_unique(pair_texts(old(pairs)@)),
    ensures
        keys_unique(pair_texts(final(pairs)@)),
        pairs_map(final(pairs)@) == pairs_map(old(pairs)@).insert(name@, value@),
{
    let ghost t = pair_texts(pairs@);
    let n = pairs.len();
    let mut i: usize = 0;
    while i < n
        invariant
            n == pairs@.len(),
            t == pair_texts(pairs@),
            keys_unique(t),
            i <= n,
            forall|k: int| 0 <= k < i ==> (#[trigger] t[k]).0 != name@,
            t == pair_texts(old(pairs)@),
        decreases n - i,
    {
        if str_eq(pairs[i].0.as_str(), name.as_str()) {
            proof {
                assert(t[i as int] == (pairs@[i as int].0@, pairs@[i as int].1@));
                assert(t[i as int].0 == name@);
                lemma_assoc_update(t, i as int, value@);
            }
            let ghost nm = name@;
            let ghost vv = value@;
            pairs.set(i, (name, value));
            proof {
                assert(pair_texts(pairs@) =~= t.update(i as int, (t[i as int].0, vv)));
            }
            return;
        }
        i = i + 1;
    }
    proof {
        lemma_assoc_dom(t, name@);
        lemma_assoc_push_unique(t, name@, value@);
    }
    let ghost nm = name@;
    let ghost vv = value@;
    pairs.push((name, value));
    proof {
        assert(pair_texts(pairs@) =~= t.push((nm, vv)));
    }
}

/// Data associated with a span.
#[derive(Debug)]
pub struct SpanData {
    /// Trace ID for distributed tracing.
    pub trace_id: TraceId,
    /// Span ID.
    pub span_id: SpanId,
    /// Parent span ID (if any).
    pub parent_id: Option<SpanId>,
    /// Span name.
    pub name: String,
    /// Originating subsystem.
    pub subsystem: Subsystem,
    /// When the span started (wall clock, nanoseconds since the Unix epoch).
    pub start_time_ns: i64,
    /// When the span ended (wall clock), if it has.
    pub end_time_ns: Option<i64>,
    /// Span attributes.
    pub attributes: Vec<(String, String)>,
    /// Span level.
    pub level: Level,
}

/// What a span record holds, with its attributes as a sequence.
pub struct SpanView {
    pub trace_id: TraceId,
    pub span_id: SpanId,
    pub parent_id: Option<SpanId>,
    pub name: String,
    pub subsystem: Subsystem,
    pub start_time_ns: i64,
    pub end_time_ns: Option<i64>,
    pub attributes: Seq<(String, String)>,
    pub level: Level,
}

impl View for SpanData {
    type V = SpanView;

    open spec fn view(&self) -> SpanView {
        SpanView {
            trace_id: self.trace_id,
            span_id: self.span_id,
            parent_id: self.parent_id,
            name: self.name,
            subsystem: self.subsystem,
            start_time_ns: self.start_time_ns,
            end_time_ns: self.end_time_ns,
            attributes: self.attributes@,
            level: self.level,
        }
    }
}

impl Clone for SpanData {
    fn clone(&self) -> (r: SpanData)
        ensures
            r@ == self@,
    {
        let r = SpanData {
            trace_id: self.trace_id,
            span_id: self.span_id,
            parent_id: self.parent_id,
            name: self.name.clone(),
            subsystem: self.subsystem,
            start_time_ns: self.start_time_ns,
            end_time_ns: self.end_time_ns,
            attributes: clone_pairs(&self.attributes),
            level: self.level,
        };
        r
    }
}

/// Data associated with an event.
#[derive(Debug)]
pub struct EventData {
    /// Span ID this event belongs to.
    pub span_id: Option<SpanId>,
    /// Trace ID.
    pub trace_id: TraceId,
    /// Event timestamp (nanoseconds since the Unix epoch).
    pub timestamp_ns: i64,
    /// Event level.
    pub level: Level,
    /// Event message.
    pub message: String,
    /// Event fields.
    pub fields: Vec<(String, String)>,
    /// Originating subsystem.
    pub subsystem: Subsystem,
}

/// What an event record holds, with its fields as a sequence.
pub struct EventView {
    pub span_id: Option<SpanId>,
    pub trace_id: TraceId,
    pub timestamp_ns: i64,
    pub level: Level,
    pub message: String,
    pub fields: Seq<(String, String)>,
    pub subsystem: Subsystem,
}

impl View for EventData {
    type V = EventView;

    open spec fn view(&self) -> EventView {
        EventView {
            span_id: self.span_id,
            trace_id: self.trace_id,
            timestamp_ns: self.timestamp_ns,
            level: self.level,
            message: self.message,
            fields: self.fields@,
            subsystem: self.subsystem,
        }
    }
}

impl Clone for EventData {
    fn clone(&self) -> (r: EventData)
        ensures
            r@ == self@,
    {
        let r = EventData {
            span_id: self.span_id,
            trace_id: self.trace_id,
            timestamp_ns: self.timestamp_ns,
            level: self.level,
            message: self.message.clone(),
            fields: clone_pairs(&self.fields),
            subsystem: self.subsystem,
        };
        r
    }
}

} // verus!
