//! The batching decisions of the export loops.
//!
//! Items arrive one at a time and a timer ticks; a batch is handed on when it
//! reaches the maximum size, when the timer ticks and the batch is not empty, and
//! once more when the input closes. The loop that waits for items and ticks and
//! performs the flushes drives a [`Batcher`].

use vstd::prelude::*;

verus! {

/// What happens to a batcher: an item arrives, or the flush timer ticks.
pub enum BatchEvent<T> {
    /// An item arrived.
    Item(T),
    /// The flush interval elapsed.
    Tick,
}

/// One step of batching: the batch handed on (if any) and the items still pending.
pub open spec fn batch_step<T>(max_size: usize, pending: Seq<T>, ev: BatchEvent<T>) -> (Option<Seq<T>>, Seq<T>) {
    match ev {
        BatchEvent::Item(x) => {
            let p = pending.push(x);
            if p.len() >= max_size { (Some(p), Seq::empty()) } else { (None, p) }
        },
        BatchEvent::Tick => {
            if pending.len() > 0 { (Some(pending), Seq::empty()) } else { (None, pending) }
        },
    }
}

/// Running a sequence of events from nothing pending: the batches handed on, in
/// order, and the items still pending.
pub open spec fn batch_run<T>(max_size: usize, events: Seq<BatchEvent<T>>) -> (Seq<Seq<T>>, Seq<T>)
    decreases events.len(),
{
    if events.len() == 0 {
        (Seq::empty(), Seq::empty())
    } else {
        let (flushed, pending) = batch_run(max_size, events.drop_last());
        let (out, rest) = batch_step(max_size, pending, events.last());
        match out {
            Some(b) => (flushed.push(b), rest),
            None => (flushed, rest),
        }
    }
}

/// The items of a sequence of events, in order.
pub open spec fn event_items<T>(events: Seq<BatchEvent<T>>) -> Seq<T>
    decreases events.len(),
{
    if events.len() == 0 {
        Seq::empty()
    } else {
        match events.last() {
            BatchEvent::Item(x) => event_items(events.drop_last()).push(x),
            BatchEvent::Tick => event_items(events.drop_last()),
        }
    }
}

/// The concatenation of a sequence of batches.
pub open spec fn concat<T>(batches: Seq<Seq<T>>) -> Seq<T>
    decreases batches.len(),
{
    if batches.len() == 0 {
        Seq::empty()
    } else {
        concat(batches.drop_last()) + batches.last()
    }
}

/// Collects items into batches of up to `max_size`.
pub struct Batcher<T> {
    max_size: usize,
    batch: Vec<T>,
}

impl<T> Batcher<T> {
    /// The items not handed on yet.
    pub closed spec fn pending(&self) -> Seq<T> {
        self.batch@
    }

    /// The batch size at which a batch is handed on.
    pub closed spec fn max_size(&self) -> usize {
        self.max_size
    }

    /// A batcher with nothing pending.
    pub fn new(max_size: usize) -> (b: Batcher<T>)
        ensures
            b.pending() == Seq::<T>::empty(),
            b.max_size() == max_size,
    {
        Batcher { max_size, batch: Vec::new() }
    }

    /// An item arrived: it joins the batch, and a batch that reached the maximum size
    /// is handed on.
    pub fn on_item(&mut self, item: T) -> (out: Option<Vec<T>>)
        ensures
            final(self).max_size() == old(self).max_size(),
            (match out { Some(v) => Some(v@), None => None }, final(self).pending())
                == batch_step(old(self).max_size(), old(self).pending(), BatchEvent::Item(item)),
    {
        self.batch.push(item);
        if self.batch.len() >= self.max_size {
            let mut full = Vec::new();
            std::mem::swap(&mut full, &mut self.batch);
            Some(full)
        } else {
            None
        }
    }

    /// The flush interval elapsed: a non-empty batch is handed on.
    pub fn on_tick(&mut self) -> (out: Option<Vec<T>>)
        ensures
            final(self).max_size() == old(self).max_size(),
            (match out { Some(v) => Some(v@), None => None }, final(self).pending())
                == batch_step(old(self).max_size(), old(self).pending(), BatchEvent::<T>::Tick),
    {
        if self.batch.len() > 0 {
            let mut full = Vec::new();
            std::mem::swap(&mut full, &mut self.batch);
            Some(full)
        } else {
            None
        }
    }

    /// The input closed: what is pending is handed on, if anything is.
    pub fn finish(self) -> (out: Option<Vec<T>>)
        ensures
            match out {
                Some(v) => v@ == self.pending() && v@.len() > 0,
                None => self.pending().len() == 0,
            },
    {
        if self.batch.len() > 0 {
            Some(self.batch)
        } else {
            None
        }
    }
}

/// No item is lost or reordered: the batches handed on, followed by what is
/// pending, are exactly the items that arrived, in order.
pub proof fn law_batching_preserves_items<T>(max_size: usize, events: Seq<BatchEvent<T>>)
    ensures
        concat(batch_run(max_size, events).0) + batch_run(max_size, events).1 == event_items(events),
    decreases events.len(),
{
    if events.len() > 0 {
        let prev = events.drop_last();
        law_batching_preserves_items(max_size, prev);
        let (flushed, pending) = batch_run(max_size, prev);
        let (out, rest) = batch_step(max_size, pending, events.last());
        match out {
            Some(b) => {
                assert(concat(flushed.push(b)) =~= concat(flushed) + b) by {
                    assert(flushed.push(b).drop_last() =~= flushed);
                }
            },
            None => {},
        }
        assert(concat(batch_run(max_size, events).0) + batch_run(max_size, events).1 =~= event_items(events));
    }
}

/// Nothing stays pending in a full batch: the pending items are always fewer than
/// the maximum size, and every batch handed on is non-empty and at most the
/// maximum size.
pub proof fn law_batches_are_bounded<T>(max_size: usize, events: Seq<BatchEvent<T>>)
    requires
        max_size > 0,
    ensures
        batch_run(max_size, events).1.len() < max_size,
        forall|i: int| 0 <= i < batch_run(max_size, events).0.len() ==>
            0 < (#[trigger] batch_run(max_size, events).0[i]).len() <= max_size,
    decreases events.len(),
{
    if events.len() > 0 {
        law_batches_are_bounded(max_size, events.drop_last());
    }
}

} // verus!
