//! The capture buffer: an append-only, growable sequence of captured
//! events, read in insertion order at export time. The shell keeps the
//! whole recorder behind one lock, so every call here is one critical
//! section; the contracts state what each call does to the contents.

use vstd::prelude::*;
use crate::event::{CapturedEvent, EventModel};

verus! {

/// The models of a sequence of stored events.
pub open spec fn models_of(s: Seq<CapturedEvent>) -> Seq<EventModel> {
    s.map_values(|e: CapturedEvent| e@)
}

/// The in-memory log of normalized events for the current session.
pub struct CaptureBuffer {
    events: Vec<CapturedEvent>,
}

impl View for CaptureBuffer {
    type V = Seq<EventModel>;

    closed spec fn view(&self) -> Seq<EventModel> {
        models_of(self.events@)
    }
}

impl CaptureBuffer {
    /// Every stored event carries a well-formed timestamp.
    pub open spec fn wf(&self) -> bool {
        forall|i: int| 0 <= i < self@.len() ==> (#[trigger] self@[i]).timestamp.wf()
    }

    pub fn new() -> (r: CaptureBuffer)
        ensures
            r@ == Seq::<EventModel>::empty(),
            r.wf(),
    {
        let r = CaptureBuffer { events: Vec::new() };
        proof {
            assert(r@ =~= Seq::<EventModel>::empty());
        }
        r
    }

    /// Empties the buffer; called at session start, before any event
    /// of the new session is forwarded.
    pub fn clear(&mut self)
        ensures
            final(self)@ == Seq::<EventModel>::empty(),
            final(self).wf(),
    {
        self.events.clear();
        proof {
            assert(final(self)@ =~= Seq::<EventModel>::empty());
        }
    }

    /// Adds one record at the end; nothing already stored moves.
    pub fn append(&mut self, e: CapturedEvent)
        ensures
            final(self)@ == old(self)@.push(e@),
            old(self).wf() && e@.timestamp.wf() ==> final(self).wf(),
    {
        self.events.push(e);
        proof {
            assert(final(self)@ =~= old(self)@.push(e@));
        }
    }

    pub fn len(&self) -> (n: usize)
        ensures
            n == self@.len(),
    {
        self.events.len()
    }

    /// All current records, in insertion order, for the exporter to
    /// walk.
    pub fn snapshot_iterate(&self) -> (r: &Vec<CapturedEvent>)
        ensures
            models_of(r@) == self@,
    {
        &self.events
    }
}

/// The contents after a run of appends, one event at a time.
pub open spec fn after_appends(init: Seq<EventModel>, es: Seq<EventModel>) -> Seq<EventModel>
    decreases es.len(),
{
    if es.len() == 0 {
        init
    } else {
        after_appends(init.push(es[0]), es.drop_first())
    }
}

/// Law: a run of appends, read back in one snapshot, yields exactly
/// the prior contents followed by the appended events in order — no
/// event lost, none duplicated, none reordered.
pub proof fn lemma_appends_accumulate(init: Seq<EventModel>, es: Seq<EventModel>)
    ensures
        after_appends(init, es) == init + es,
    decreases es.len(),
{
    if es.len() == 0 {
        assert(init + es =~= init);
    } else {
        lemma_appends_accumulate(init.push(es[0]), es.drop_first());
        assert(init.push(es[0]) + es.drop_first() =~= init + es);
    }
}

} // verus!
