//! Ring buffer for kernel telemetry.
//!
//! The buffer has [`RING_BUFFER_SIZE`] slots. Every slot carries a sequence number:
//! a slot that holds the entry written at position `p` carries `2p + 2` (an even
//! number); an odd number marks a slot whose writer has not finished. The writer
//! always advances; a write into a full buffer overwrites the oldest unread entry,
//! moves the reader past it and counts it, once, as dropped.
//!
//! The buffer here has a single owner (`&mut`): a reader never waits for a writer
//! to finish, so a slot that is not ready when it is read is skipped and counted
//! as dropped, which is what a waiting reader does once it gives up.

use vstd::prelude::*;
use crate::telemetry::level::Level;
use crate::telemetry::meta::{EventType, Subsystem};
use crate::telemetry::trace::{SpanId, TraceId};
use crate::telemetry::wire::TelemetryEntry;

verus! {

/// Ring buffer capacity (a power of two).
pub const RING_BUFFER_SIZE: usize = 4096;

/// Mask that maps a position to its slot index.
const RING_BUFFER_MASK: usize = 4095;

/// Maximum payload size per entry.
pub const MAX_PAYLOAD_SIZE: usize = 192;

/// One slot of the ring buffer.
pub struct RingSlot {
    /// `2p + 2` once the entry written at position `p` is complete; odd while a
    /// write is in progress; 0 if the slot was never written.
    pub sequence: usize,
    /// Entry header.
    pub entry: TelemetryEntry,
    /// Inline payload storage, always [`MAX_PAYLOAD_SIZE`] bytes.
    pub payload: Vec<u8>,
}

/// The ring buffer.
pub struct RingBuffer {
    /// Next position to write (only the producer advances it).
    pub write_pos: usize,
    /// Next position to read (only the consumer advances it).
    pub read_pos: usize,
    /// Number of entries dropped (overwritten, skipped, or refused).
    pub dropped_count: u64,
    /// The slots; always [`RING_BUFFER_SIZE`] of them.
    pub slots: Vec<RingSlot>,
}

/// The abstract content of a slot.
pub struct SlotModel {
    pub sequence: usize,
    pub entry: TelemetryEntry,
    pub payload: Seq<u8>,
}

/// The abstract state of a ring buffer.
pub struct RingModel {
    pub write_pos: usize,
    pub read_pos: usize,
    pub dropped: u64,
    pub slots: Seq<SlotModel>,
}

/// The abstract content of a slot.
pub open spec fn slot_model(s: RingSlot) -> SlotModel {
    SlotModel { sequence: s.sequence, entry: s.entry, payload: s.payload@ }
}

impl View for RingBuffer {
    type V = RingModel;

    open spec fn view(&self) -> RingModel {
        RingModel {
            write_pos: self.write_pos,
            read_pos: self.read_pos,
            dropped: self.dropped_count,
            slots: self.slots@.map_values(|s: RingSlot| slot_model(s)),
        }
    }
}

/// The shape every ring buffer keeps: all slots present, each with a full payload area.
pub open spec fn model_wf(m: RingModel) -> bool {
    &&& m.slots.len() == RING_BUFFER_SIZE
    &&& forall|i: int| 0 <= i < m.slots.len() ==> (#[trigger] m.slots[i]).payload.len() == MAX_PAYLOAD_SIZE
}

/// The slot index of a position.
pub open spec fn slot_of(pos: int) -> int {
    pos % (RING_BUFFER_SIZE as int)
}

/// The sequence number of a slot that holds the complete entry written at `pos`.
pub open spec fn ready_seq(pos: usize) -> usize {
    pos.wrapping_mul(2).wrapping_add(2)
}

/// Adds `n` to a drop counter, wrapping at 2^64.
pub open spec fn add_dropped(d: u64, n: int) -> u64 {
    ((d as int + n) % 0x1_0000_0000_0000_0000) as u64
}

/// The payload bytes an entry of slot model `s` exposes: its recorded length, capped.
pub open spec fn visible_payload(s: SlotModel) -> Seq<u8> {
    let n = if s.entry.payload_len as int <= MAX_PAYLOAD_SIZE as int {
        s.entry.payload_len as int
    } else {
        MAX_PAYLOAD_SIZE as int
    };
    s.payload.take(n)
}

/// The entry a write stores: the given header with the payload length set to the
/// number of payload bytes kept (at most [`MAX_PAYLOAD_SIZE`]).
pub open spec fn stored_entry(entry: TelemetryEntry, kept: int) -> TelemetryEntry {
    TelemetryEntry { payload_len: kept as u16, ..entry }
}

/// The number of payload bytes a write keeps.
pub open spec fn kept_len(payload: Seq<u8>) -> int {
    if payload.len() <= MAX_PAYLOAD_SIZE {
        payload.len() as int
    } else {
        MAX_PAYLOAD_SIZE as int
    }
}

/// What `try_write` does: claim position `write_pos`; refuse (and count a drop) if the
/// slot is busy; otherwise store the entry and the first bytes of the payload. If the
/// buffer was full (a whole lap unread), the stored entry replaces the oldest unread
/// one: the reader moves past it, it counts as dropped, and the write reports `false`.
pub open spec fn spec_write(m: RingModel, entry: TelemetryEntry, payload: Seq<u8>) -> (bool, RingModel) {
    let pos = m.write_pos;
    let idx = slot_of(pos as int);
    let cur = m.slots[idx].sequence;
    let advanced = RingModel { write_pos: pos.wrapping_add(1), ..m };
    if cur % 2 == 1 {
        (false, RingModel { dropped: add_dropped(m.dropped, 1), ..advanced })
    } else {
        let full = pos.wrapping_sub(m.read_pos) >= RING_BUFFER_SIZE;
        let n = kept_len(payload);
        let slot = SlotModel {
            sequence: ready_seq(pos),
            entry: stored_entry(entry, n),
            payload: payload.take(n) + m.slots[idx].payload.skip(n),
        };
        (
            !full,
            RingModel {
                read_pos: if full { m.read_pos.wrapping_add(1) } else { m.read_pos },
                dropped: if full { add_dropped(m.dropped, 1) } else { m.dropped },
                slots: m.slots.update(idx, slot),
                ..advanced
            },
        )
    }
}

/// The slot for position `p` holds the complete entry written at `p`.
pub open spec fn is_ready(m: RingModel, p: int) -> bool {
    m.slots[slot_of(p)].sequence == ready_seq(p as usize)
}

/// The first position at or after `p` (and before `write_pos`) whose slot is ready,
/// or `write_pos` if there is none.
pub open spec fn first_ready(m: RingModel, p: int) -> int
    decreases m.write_pos - p,
{
    if p >= m.write_pos {
        m.write_pos as int
    } else if is_ready(m, p) {
        p
    } else {
        first_ready(m, p + 1)
    }
}

/// Where a reader starts: at `read_pos`, unless the writer is more than a full lap
/// ahead, in which case at the oldest position the buffer still holds.
pub open spec fn window_start(m: RingModel) -> int {
    if m.write_pos - m.read_pos > RING_BUFFER_SIZE {
        m.write_pos - RING_BUFFER_SIZE
    } else {
        m.read_pos as int
    }
}

/// What `try_read` does: nothing if `read_pos` has reached `write_pos`; otherwise skip
/// to the window start and then past every slot that is not ready, counting each
/// skipped position as dropped, and take the first ready entry if there is one.
pub open spec fn spec_read(m: RingModel) -> (Option<(TelemetryEntry, Seq<u8>)>, RingModel) {
    if m.read_pos >= m.write_pos {
        (None, m)
    } else {
        let q = first_ready(m, window_start(m));
        let dropped = add_dropped(m.dropped, q - m.read_pos);
        if q < m.write_pos {
            let s = m.slots[slot_of(q)];
            (Some((s.entry, visible_payload(s))), RingModel { read_pos: (q + 1) as usize, dropped, ..m })
        } else {
            (None, RingModel { read_pos: m.write_pos, dropped, ..m })
        }
    }
}

/// Lemma: masking with `RING_BUFFER_MASK` is taking the remainder by the capacity.
proof fn lemma_mask_is_mod(x: usize)
    ensures
        x & RING_BUFFER_MASK == x % RING_BUFFER_SIZE,
{
    assert(x & 4095 == x % 4096) by (bit_vector);
}

proof fn lemma_add_dropped_step(d: u64, a: int)
    requires
        0 <= a,
    ensures
        add_dropped(add_dropped(d, a), 1) == add_dropped(d, a + 1),
{
    let m = 0x1_0000_0000_0000_0000int;
    vstd::arithmetic::div_mod::lemma_add_mod_noop_right(1, d as int + a, m);
}

proof fn lemma_first_ready_skip(m: RingModel, p: int)
    requires
        p < m.write_pos,
        !is_ready(m, p),
    ensures
        first_ready(m, p) == first_ready(m, p + 1),
{
}

proof fn lemma_first_ready_bounds(m: RingModel, p: int)
    requires
        p <= m.write_pos,
    ensures
        p <= first_ready(m, p) <= m.write_pos,
        first_ready(m, p) < m.write_pos ==> is_ready(m, first_ready(m, p)),
        forall|q: int| p <= q < first_ready(m, p) ==> !is_ready(m, q),
    decreases m.write_pos - p,
{
    if p < m.write_pos && !is_ready(m, p) {
        lemma_first_ready_bounds(m, p + 1);
    }
}


/// The reader is not ahead of the writer nor more than a lap behind, and every
/// position from the read position up to the write position holds its complete entry.
pub open spec fn consistent(m: RingModel) -> bool {
    &&& m.read_pos <= m.write_pos
    &&& m.write_pos - m.read_pos <= RING_BUFFER_SIZE
    &&& forall|p: int| m.read_pos <= p < m.write_pos ==> #[trigger] is_ready(m, p)
}

/// No slot has a write in progress.
pub open spec fn settled(m: RingModel) -> bool {
    forall|i: int| 0 <= i < RING_BUFFER_SIZE ==> (#[trigger] m.slots[i]).sequence % 2 == 0
}

/// The entry and payload a reader gets from the slot of position `p`.
pub open spec fn record(m: RingModel, p: int) -> (TelemetryEntry, Seq<u8>) {
    let s = m.slots[slot_of(p)];
    (s.entry, visible_payload(s))
}

/// The entries a reader will get, oldest first.
pub open spec fn contents(m: RingModel) -> Seq<(TelemetryEntry, Seq<u8>)> {
    Seq::new((m.write_pos - window_start(m)) as nat, |i: int| record(m, window_start(m) + i))
}

/// The last lap of a sequence of entries: its last [`RING_BUFFER_SIZE`] elements.
pub open spec fn last_lap<A>(s: Seq<A>) -> Seq<A> {
    if s.len() > RING_BUFFER_SIZE {
        s.skip(s.len() - RING_BUFFER_SIZE)
    } else {
        s
    }
}

/// Positions are far enough from the top of `usize` that no position or sequence
/// number wraps around.
pub open spec fn positions_in_range(m: RingModel) -> bool {
    m.write_pos < usize::MAX / 4
}

proof fn lemma_ready_seq_exact(p: usize)
    requires
        p < usize::MAX / 4,
    ensures
        ready_seq(p) == 2 * p + 2,
        p.wrapping_mul(2) == 2 * p,
        p.wrapping_add(1) == p + 1,
{
    let r = (usize::MAX - usize::MIN + 1) as nat;
    vstd::arithmetic::div_mod::lemma_small_mod((2 * p) as nat, r);
}

/// A fresh buffer holds nothing, and it is consistent and settled.
pub proof fn law_fresh_buffer_is_empty(m: RingModel)
    requires
        model_wf(m),
        m.write_pos == 0,
        m.read_pos == 0,
        forall|i: int| 0 <= i < RING_BUFFER_SIZE ==> (#[trigger] m.slots[i]).sequence == 0,
    ensures
        consistent(m),
        settled(m),
        contents(m).len() == 0,
{
}

/// Writing to a consistent, settled buffer puts the stored record at the end of what
/// a reader will get. If a full lap was unread, the oldest record goes, it is counted
/// once as dropped, and the write reports `false`; otherwise the write reports `true`
/// and the drop count stays.
pub proof fn law_write_appends(m: RingModel, entry: TelemetryEntry, payload: Seq<u8>)
    requires
        model_wf(m),
        consistent(m),
        settled(m),
        positions_in_range(m),
    ensures
        spec_write(m, entry, payload).0 == (contents(m).len() < RING_BUFFER_SIZE),
        model_wf(spec_write(m, entry, payload).1),
        consistent(spec_write(m, entry, payload).1),
        settled(spec_write(m, entry, payload).1),
        contents(spec_write(m, entry, payload).1) == last_lap(
            contents(m).push((stored_entry(entry, kept_len(payload)), payload.take(kept_len(payload)))),
        ),
        spec_write(m, entry, payload).1.dropped == (if contents(m).len() < RING_BUFFER_SIZE {
            m.dropped
        } else {
            add_dropped(m.dropped, 1)
        }),
{
    let w = m.write_pos;
    let r = m.read_pos;
    let m2 = spec_write(m, entry, payload).1;
    let idx = slot_of(w as int);
    lemma_ready_seq_exact(w);
    lemma_ready_seq_exact(r);
    assert(m.slots[idx].sequence % 2 == 0);
    assert(w.wrapping_sub(r) == w - r);
    assert(window_start(m) == r);
    let full = w - r == RING_BUFFER_SIZE;
    let n = kept_len(payload);
    let new_slot = m2.slots[idx];
    assert(new_slot.payload.len() == MAX_PAYLOAD_SIZE);
    assert(model_wf(m2)) by {
        assert forall|i: int| 0 <= i < m2.slots.len() implies (#[trigger] m2.slots[i]).payload.len() == MAX_PAYLOAD_SIZE by {
            if i != idx {
                assert(m2.slots[i] == m.slots[i]);
            }
        }
    }
    assert(visible_payload(new_slot) =~= payload.take(n));
    let r2 = m2.read_pos;
    assert(m2.write_pos == w + 1);
    assert(r2 == if full { r + 1 } else { r as int });
    assert(window_start(m2) == r2);
    assert forall|p: int| r2 <= p < w implies slot_of(p) != idx by {
        assert(0 < w - p < RING_BUFFER_SIZE);
        vstd::arithmetic::div_mod::lemma_fundamental_div_mod(p, RING_BUFFER_SIZE as int);
        vstd::arithmetic::div_mod::lemma_fundamental_div_mod(w as int, RING_BUFFER_SIZE as int);
        let qp = p / (RING_BUFFER_SIZE as int);
        let qw = (w as int) / (RING_BUFFER_SIZE as int);
        if slot_of(p) == idx {
            assert((qw - qp) * 4096 == w - p);
        }
    }
    assert forall|p: int| r2 <= p < m2.write_pos implies #[trigger] is_ready(m2, p) by {
        if p < w {
            assert(is_ready(m, p));
            lemma_ready_seq_exact(p as usize);
        } else {
            assert(p == w);
        }
    }
    assert forall|i: int| 0 <= i < RING_BUFFER_SIZE implies (#[trigger] m2.slots[i]).sequence % 2 == 0 by {
        if i != idx {
            assert(m2.slots[i] == m.slots[i]);
        }
    }
    let rec = (stored_entry(entry, n), payload.take(n));
    let pushed = contents(m).push(rec);
    assert(record(m2, w as int) == rec);
    assert forall|p: int| r2 <= p < w implies #[trigger] record(m2, p) == record(m, p) by {
    }
    if full {
        assert(contents(m2) =~= last_lap(pushed));
    } else {
        assert(contents(m2) =~= last_lap(pushed));
    }
}

/// Reading a consistent buffer that holds something returns its oldest record and
/// removes exactly that record; nothing is counted as dropped.
pub proof fn law_read_pops(m: RingModel)
    requires
        model_wf(m),
        consistent(m),
        m.read_pos < m.write_pos,
        positions_in_range(m),
    ensures
        spec_read(m).0 == Some(contents(m)[0]),
        model_wf(spec_read(m).1),
        consistent(spec_read(m).1),
        settled(m) ==> settled(spec_read(m).1),
        contents(spec_read(m).1) == contents(m).drop_first(),
        spec_read(m).1.dropped == m.dropped,
{
    let ws = window_start(m);
    assert(is_ready(m, ws));
    assert(first_ready(m, ws) == ws);
    let m2 = spec_read(m).1;
    assert(window_start(m2) == ws + 1);
    assert forall|p: int| window_start(m2) <= p < m2.write_pos implies #[trigger] is_ready(m2, p) by {
        assert(is_ready(m, p));
    }
    assert(contents(m2) =~= contents(m).drop_first());
}

/// Reading an empty buffer returns nothing and changes nothing.
pub proof fn law_read_empty(m: RingModel)
    requires
        m.read_pos >= m.write_pos,
    ensures
        spec_read(m).0 is None,
        spec_read(m).1 == m,
{
}

/// What is written to a consistent, settled buffer that holds nothing is what the
/// next read returns: the header with its payload length set to the number of bytes
/// kept, and the first [`MAX_PAYLOAD_SIZE`] payload bytes.
pub proof fn law_write_then_read(m: RingModel, entry: TelemetryEntry, payload: Seq<u8>)
    requires
        model_wf(m),
        consistent(m),
        settled(m),
        m.read_pos == m.write_pos,
        m.write_pos + 1 < usize::MAX / 4,
    ensures
        spec_write(m, entry, payload).0,
        spec_read(spec_write(m, entry, payload).1).0 == Some(
            (stored_entry(entry, kept_len(payload)), payload.take(kept_len(payload))),
        ),
        spec_read(spec_write(m, entry, payload).1).1.read_pos == spec_read(spec_write(m, entry, payload).1).1.write_pos,
{
    law_write_appends(m, entry, payload);
    let m2 = spec_write(m, entry, payload).1;
    lemma_ready_seq_exact(m.write_pos);
    assert(positions_in_range(m2));
    assert(contents(m).len() == 0);
    law_read_pops(m2);
}

/// One step in the use of a buffer: a write of an entry and its payload, or a read.
pub enum RingOp {
    Write(TelemetryEntry, Seq<u8>),
    Read,
}

/// The records a sequence of operations writes, in order.
pub open spec fn written(ops: Seq<RingOp>) -> Seq<(TelemetryEntry, Seq<u8>)>
    decreases ops.len(),
{
    if ops.len() == 0 {
        Seq::empty()
    } else {
        match ops[0] {
            RingOp::Write(e, p) => seq![(stored_entry(e, kept_len(p)), p.take(kept_len(p)))] + written(ops.skip(1)),
            RingOp::Read => written(ops.skip(1)),
        }
    }
}

/// Applies a sequence of operations to a buffer: the records the reads returned, in
/// order, and the buffer afterwards.
pub open spec fn run_ops(m: RingModel, ops: Seq<RingOp>) -> (Seq<(TelemetryEntry, Seq<u8>)>, RingModel)
    decreases ops.len(),
{
    if ops.len() == 0 {
        (Seq::empty(), m)
    } else {
        match ops[0] {
            RingOp::Write(e, p) => run_ops(spec_write(m, e, p).1, ops.skip(1)),
            RingOp::Read => {
                let rest = run_ops(spec_read(m).1, ops.skip(1));
                match spec_read(m).0 {
                    Some(x) => (seq![x] + rest.0, rest.1),
                    None => rest,
                }
            },
        }
    }
}

/// First in, first out: on a consistent, settled buffer, as long as what it holds and
/// what is written fit in one lap, any interleaving of writes and reads returns the
/// records in the order they went in, none skipped or repeated. What the reads return
/// followed by what the buffer still holds is what it held followed by what was
/// written, and nothing is counted as dropped.
pub proof fn law_first_in_first_out(m: RingModel, ops: Seq<RingOp>)
    requires
        model_wf(m),
        consistent(m),
        settled(m),
        contents(m).len() + written(ops).len() <= RING_BUFFER_SIZE,
        m.write_pos + written(ops).len() < usize::MAX / 4,
    ensures
        run_ops(m, ops).0 + contents(run_ops(m, ops).1) == contents(m) + written(ops),
        run_ops(m, ops).1.dropped == m.dropped,
    decreases ops.len(),
{
    if ops.len() == 0 {
        assert(Seq::<(TelemetryEntry, Seq<u8>)>::empty() + contents(m) =~= contents(m) + written(ops));
    } else {
        let rest = ops.skip(1);
        match ops[0] {
            RingOp::Write(e, p) => {
                law_write_appends(m, e, p);
                let m1 = spec_write(m, e, p).1;
                let rec = (stored_entry(e, kept_len(p)), p.take(kept_len(p)));
                assert(contents(m1) == contents(m).push(rec));
                law_first_in_first_out(m1, rest);
                assert(contents(m).push(rec) + written(rest) =~= contents(m) + written(ops));
            },
            RingOp::Read => {
                if m.read_pos < m.write_pos {
                    law_read_pops(m);
                    let m1 = spec_read(m).1;
                    law_first_in_first_out(m1, rest);
                    let out = run_ops(m1, rest).0;
                    let c = contents(m);
                    assert(c.len() > 0);
                    assert(seq![c[0]] + out + contents(run_ops(m1, rest).1)
                        =~= seq![c[0]] + (out + contents(run_ops(m1, rest).1)));
                    assert(seq![c[0]] + (c.drop_first() + written(rest)) =~= c + written(ops));
                } else {
                    law_read_empty(m);
                    law_first_in_first_out(m, rest);
                }
            },
        }
    }
}

impl RingSlot {
    /// Creates an empty slot: sequence 0, a blank entry, zeroed payload area.
    fn new() -> (s: RingSlot)
        ensures
            s.sequence == 0,
            s.payload@ == Seq::new(MAX_PAYLOAD_SIZE as nat, |i: int| 0u8),
    {
        let mut payload: Vec<u8> = Vec::new();
        let mut i: usize = 0;
        while i < MAX_PAYLOAD_SIZE
            invariant
                i <= MAX_PAYLOAD_SIZE,
                payload@ =~= Seq::new(i as nat, |k: int| 0u8),
            decreases MAX_PAYLOAD_SIZE - i,
        {
            payload.push(0);
            i = i + 1;
        }
        RingSlot {
            sequence: 0,
            entry: TelemetryEntry {
                timestamp_ns: 0,
                level: Level::Trace,
                subsystem: Subsystem::Unknown,
                event_type: EventType::Unknown,
                span_id: SpanId::none(),
                trace_id: TraceId::none(),
                parent_span_id: SpanId::none(),
                payload_len: 0,
            },
            payload,
        }
    }
}

impl RingBuffer {
    /// The buffer has all its slots, each with a full payload area.
    pub open spec fn wf(&self) -> bool {
        &&& self.slots@.len() == RING_BUFFER_SIZE
        &&& forall|i: int| 0 <= i < RING_BUFFER_SIZE ==> (#[trigger] self.slots@[i]).payload@.len() == MAX_PAYLOAD_SIZE
    }

    /// Creates an empty ring buffer: positions and drop count 0, every slot empty.
    pub fn new() -> (b: RingBuffer)
        ensures
            b.wf(),
            b@.write_pos == 0,
            b@.read_pos == 0,
            b@.dropped == 0,
            forall|i: int| 0 <= i < RING_BUFFER_SIZE ==> (#[trigger] b@.slots[i]).sequence == 0,
    {
        let mut slots: Vec<RingSlot> = Vec::new();
        let mut i: usize = 0;
        while i < RING_BUFFER_SIZE
            invariant
                i <= RING_BUFFER_SIZE,
                slots@.len() == i,
                forall|k: int| 0 <= k < i ==> (#[trigger] slots@[k]).sequence == 0
                    && slots@[k].payload@.len() == MAX_PAYLOAD_SIZE,
            decreases RING_BUFFER_SIZE - i,
        {
            slots.push(RingSlot::new());
            i = i + 1;
        }
        RingBuffer { write_pos: 0, read_pos: 0, dropped_count: 0, slots }
    }

    /// Writes an entry (the producer side).
    ///
    /// Returns `true` if the entry was written into free room. Returns `false` if the
    /// buffer is full, in which case the entry overwrites the oldest unread one, which
    /// counts as dropped; and `false` if the slot for the claimed position is still
    /// being written, in which case the entry itself is dropped.
    /// At most [`MAX_PAYLOAD_SIZE`] payload bytes are kept, and the stored header's
    /// `payload_len` is set to their number.
    pub fn try_write(&mut self, entry: &TelemetryEntry, payload: &[u8]) -> (r: bool)
        requires
            old(self).wf(),
        ensures
            final(self).wf(),
            (r, final(self)@) == spec_write(old(self)@, *entry, payload@),
    {
        let ghost m = self@;
        let pos = self.write_pos;
        self.write_pos = pos.wrapping_add(1);
        let index = pos & RING_BUFFER_MASK;
        proof {
            lemma_mask_is_mod(pos);
        }
        let expected_seq = pos.wrapping_mul(2);
        let current_seq = self.slots[index].sequence;
        if current_seq & 1 == 1 {
            assert(current_seq & 1 == current_seq % 2) by (bit_vector);
            self.dropped_count = self.dropped_count.wrapping_add(1);
            proof {
                assert(self@.slots =~= m.slots);
                assert(self@ == spec_write(m, *entry, payload@).1);
            }
            return false;
        }
        assert(current_seq & 1 == current_seq % 2) by (bit_vector);
        let full = pos.wrapping_sub(self.read_pos) >= RING_BUFFER_SIZE;
        if full {
            self.read_pos = self.read_pos.wrapping_add(1);
            self.dropped_count = self.dropped_count.wrapping_add(1);
        }
        let plen = payload.len();
        let n = if plen < MAX_PAYLOAD_SIZE { plen } else { MAX_PAYLOAD_SIZE };
        let mut buf = self.slots[index].payload.clone();
        let ghost old_buf = buf@;
        assert(old_buf == m.slots[index as int].payload);
        let mut i: usize = 0;
        while i < n
            invariant
                n <= MAX_PAYLOAD_SIZE,
                n <= payload@.len(),
                old_buf.len() == MAX_PAYLOAD_SIZE,
                i <= n,
                buf@ =~= payload@.take(i as int) + old_buf.skip(i as int),
            decreases n - i,
        {
            buf.set(i, payload[i]);
            i = i + 1;
        }
        let mut stored = *entry;
        stored.payload_len = n as u16;
        let slot = RingSlot { sequence: expected_seq.wrapping_add(2), entry: stored, payload: buf };
        self.slots.set(index, slot);
        proof {
            let w = spec_write(m, *entry, payload@);
            assert(self@.slots =~= w.1.slots);
            assert(self@ == w.1);
        }
        !full
    }

    /// Reads the oldest available entry (the consumer side).
    ///
    /// Returns `None` if the buffer is empty. When the writer has lapped the reader,
    /// the reader first skips to the oldest entry still held; slots that are not
    /// ready are skipped; every skipped position counts as dropped. The returned
    /// payload has the length recorded in the entry, capped at [`MAX_PAYLOAD_SIZE`].
    pub fn try_read(&mut self) -> (r: Option<(TelemetryEntry, Vec<u8>)>)
        requires
            old(self).wf(),
        ensures
            final(self).wf(),
            final(self)@ == spec_read(old(self)@).1,
            match r {
                None => spec_read(old(self)@).0 is None,
                Some((e, p)) => spec_read(old(self)@).0 == Some((e, p@)),
            },
    {
        let ghost m = self@;
        let read_pos = self.read_pos;
        let write_pos = self.write_pos;
        if read_pos >= write_pos {
            return None;
        }
        if write_pos - read_pos > RING_BUFFER_SIZE {
            let new_read_pos = write_pos - RING_BUFFER_SIZE;
            self.read_pos = new_read_pos;
            self.dropped_count = self.dropped_count.wrapping_add((new_read_pos - read_pos) as u64);
        }
        let ghost start = window_start(m);
        proof {
            lemma_first_ready_bounds(m, start);
            vstd::arithmetic::div_mod::lemma_small_mod((self.read_pos - read_pos) as nat, 0x1_0000_0000_0000_0000nat);
        }
        while self.read_pos < write_pos
            invariant
                self.wf(),
                self.write_pos == write_pos,
                write_pos == m.write_pos,
                self.slots == old(self).slots,
                m == old(self)@,
                start == window_start(m),
                start <= self.read_pos <= write_pos,
                first_ready(m, start) == first_ready(m, self.read_pos as int),
                self.dropped_count == add_dropped(m.dropped, self.read_pos - m.read_pos),
                read_pos == m.read_pos,
                read_pos <= start,
            decreases write_pos - self.read_pos,
        {
            let rp = self.read_pos;
            let index = rp & RING_BUFFER_MASK;
            proof {
                lemma_mask_is_mod(rp);
            }
            let expected_seq = rp.wrapping_mul(2).wrapping_add(2);
            if self.slots[index].sequence != expected_seq {
                proof {
                    assert(self@.slots == m.slots);
                    assert(!is_ready(m, rp as int));
                    lemma_first_ready_skip(m, rp as int);
                    lemma_add_dropped_step(m.dropped, rp - read_pos);
                }
                self.read_pos = rp + 1;
                self.dropped_count = self.dropped_count.wrapping_add(1);
            } else {
                proof {
                    assert(self@.slots == m.slots);
                    assert(is_ready(m, rp as int));
                }
                self.read_pos = rp + 1;
                let entry = self.slots[index].entry;
                let plen = entry.payload_len as usize;
                let n = if plen < MAX_PAYLOAD_SIZE { plen } else { MAX_PAYLOAD_SIZE };
                let mut payload: Vec<u8> = Vec::new();
                let mut i: usize = 0;
                assert(self.slots@[index as int].payload@.len() == MAX_PAYLOAD_SIZE);
                while i < n
                    invariant
                        n <= MAX_PAYLOAD_SIZE,
                        self.wf(),
                        0 <= index < RING_BUFFER_SIZE,
                        self.slots@[index as int].payload@.len() == MAX_PAYLOAD_SIZE,
                        i <= n,
                        payload@ =~= self.slots@[index as int].payload@.take(i as int),
                    decreases n - i,
                {
                    payload.push(self.slots[index].payload[i]);
                    i = i + 1;
                }
                proof {
                    let s = m.slots[slot_of(rp as int)];
                    assert(s == slot_model(self.slots@[index as int]));
                    assert(payload@ =~= visible_payload(s));
                }
                return Some((entry, payload));
            }
        }
        None
    }

    /// Number of entries between the read and write positions (wrapping difference).
    pub fn available(&self) -> (n: usize)
        ensures
            n == self.write_pos.wrapping_sub(self.read_pos),
    {
        self.write_pos.wrapping_sub(self.read_pos)
    }

    /// Number of dropped entries.
    pub fn dropped_count(&self) -> (n: u64)
        ensures
            n == self.dropped_count,
    {
        self.dropped_count
    }

    /// Whether no entry is available.
    pub fn is_empty(&self) -> (r: bool)
        ensures
            r == (self.write_pos.wrapping_sub(self.read_pos) == 0),
    {
        self.available() == 0
    }

    /// Whether a full lap of entries (or more) is available.
    pub fn is_full(&self) -> (r: bool)
        ensures
            r == (self.write_pos.wrapping_sub(self.read_pos) >= RING_BUFFER_SIZE),
    {
        self.available() >= RING_BUFFER_SIZE
    }

    /// Resets positions, the drop count and every slot's sequence to 0.
    pub fn reset(&mut self)
        requires
            old(self).wf(),
        ensures
            final(self).wf(),
            final(self)@.write_pos == 0,
            final(self)@.read_pos == 0,
            final(self)@.dropped == 0,
            forall|i: int| 0 <= i < RING_BUFFER_SIZE ==>
                (#[trigger] final(self)@.slots[i]).sequence == 0
                && final(self)@.slots[i].entry == old(self)@.slots[i].entry
                && final(self)@.slots[i].payload == old(self)@.slots[i].payload,
    {
        self.write_pos = 0;
        self.read_pos = 0;
        self.dropped_count = 0;
        let ghost orig = self.slots@;
        let mut i: usize = 0;
        while i < RING_BUFFER_SIZE
            invariant
                i <= RING_BUFFER_SIZE,
                self.slots@.len() == RING_BUFFER_SIZE,
                orig.len() == RING_BUFFER_SIZE,
                forall|k: int| 0 <= k < RING_BUFFER_SIZE ==> (#[trigger] orig[k]).payload@.len() == MAX_PAYLOAD_SIZE,
                forall|k: int| 0 <= k < RING_BUFFER_SIZE ==>
                    (#[trigger] self.slots@[k]).entry == orig[k].entry
                    && self.slots@[k].payload@ == orig[k].payload@,
                forall|k: int| 0 <= k < i ==> (#[trigger] self.slots@[k]).sequence == 0,
                self.write_pos == 0,
                self.read_pos == 0,
                self.dropped_count == 0,
            decreases RING_BUFFER_SIZE - i,
        {
            let old_slot = self.slots[i].payload.clone();
            let e = self.slots[i].entry;
            self.slots.set(i, RingSlot { sequence: 0, entry: e, payload: old_slot });
            i = i + 1;
        }
    }
}

} // verus!
