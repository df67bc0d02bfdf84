//! The polling and publishing decisions: which sources a run listens on,
//! the order drained events are dispatched in, and the per-destination
//! fan-out of one publish call.

use vstd::prelude::*;

use crate::message::{decoded, name_of, DecodeError};
use crate::osc::{address_of, osc_packet_bytes, process_event};

verus! {

/// One raw event as a source hands it out: a status byte and two data
/// bytes.
#[derive(Clone, Copy, Debug, PartialEq, Eq, Structural)]
pub struct RawEvent {
    pub status: u8,
    pub data1: u8,
    pub data2: u8,
}

/// One batch drained from one source: the source's identifier and the
/// events in the order they were read.
#[derive(Debug, PartialEq, Eq)]
pub struct EventBatch {
    pub source: i32,
    pub events: Vec<RawEvent>,
}

/// The events of one batch tagged with their source, in read order.
pub open spec fn tagged_events(src: i32, events: Seq<RawEvent>) -> Seq<(i32, RawEvent)>
    decreases events.len(),
{
    if events.len() == 0 {
        Seq::empty()
    } else {
        seq![(src, events.first())] + tagged_events(src, events.drop_first())
    }
}

/// The order the dispatch role handles events in: batch after batch as
/// they arrived, and within one batch in read order.
pub open spec fn dispatched(batches: Seq<EventBatch>) -> Seq<(i32, RawEvent)>
    decreases batches.len(),
{
    if batches.len() == 0 {
        Seq::empty()
    } else {
        tagged_events(batches.first().source, batches.first().events@) + dispatched(
            batches.drop_first(),
        )
    }
}

/// The events of one source picked out of a tagged stream, keeping their
/// order.
pub open spec fn of_source(s: i32, pairs: Seq<(i32, RawEvent)>) -> Seq<RawEvent>
    decreases pairs.len(),
{
    if pairs.len() == 0 {
        Seq::empty()
    } else if pairs.first().0 == s {
        seq![pairs.first().1] + of_source(s, pairs.drop_first())
    } else {
        of_source(s, pairs.drop_first())
    }
}

/// The events one source contributed, batch after batch, in read order.
pub open spec fn source_events(batches: Seq<EventBatch>, s: i32) -> Seq<RawEvent>
    decreases batches.len(),
{
    if batches.len() == 0 {
        Seq::empty()
    } else if batches.first().source == s {
        batches.first().events@ + source_events(batches.drop_first(), s)
    } else {
        source_events(batches.drop_first(), s)
    }
}

proof fn lemma_tagged_events_add(src: i32, a: Seq<RawEvent>, b: Seq<RawEvent>)
    ensures
        tagged_events(src, a + b) == tagged_events(src, a) + tagged_events(src, b),
    decreases a.len(),
{
    if a.len() == 0 {
        assert(a + b =~= b);
        assert(tagged_events(src, a) + tagged_events(src, b) =~= tagged_events(src, b));
    } else {
        assert((a + b).first() == a.first());
        assert((a + b).drop_first() =~= a.drop_first() + b);
        lemma_tagged_events_add(src, a.drop_first(), b);
        assert(tagged_events(src, a + b) =~= tagged_events(src, a) + tagged_events(src, b));
    }
}

proof fn lemma_dispatched_add(a: Seq<EventBatch>, b: Seq<EventBatch>)
    ensures
        dispatched(a + b) == dispatched(a) + dispatched(b),
    decreases a.len(),
{
    if a.len() == 0 {
        assert(a + b =~= b);
        assert(dispatched(a) + dispatched(b) =~= dispatched(b));
    } else {
        assert((a + b).first() == a.first());
        assert((a + b).drop_first() =~= a.drop_first() + b);
        lemma_dispatched_add(a.drop_first(), b);
        assert(dispatched(a + b) =~= dispatched(a) + dispatched(b));
    }
}

proof fn lemma_of_source_add(s: i32, a: Seq<(i32, RawEvent)>, b: Seq<(i32, RawEvent)>)
    ensures
        of_source(s, a + b) == of_source(s, a) + of_source(s, b),
    decreases a.len(),
{
    if a.len() == 0 {
        assert(a + b =~= b);
        assert(of_source(s, a) + of_source(s, b) =~= of_source(s, b));
    } else {
        assert((a + b).first() == a.first());
        assert((a + b).drop_first() =~= a.drop_first() + b);
        lemma_of_source_add(s, a.drop_first(), b);
        assert(of_source(s, a + b) =~= of_source(s, a) + of_source(s, b));
    }
}

proof fn lemma_of_source_tagged(s: i32, src: i32, events: Seq<RawEvent>)
    ensures
        of_source(s, tagged_events(src, events)) == if src == s {
            events
        } else {
            Seq::<RawEvent>::empty()
        },
    decreases events.len(),
{
    if events.len() == 0 {
    } else {
        lemma_of_source_tagged(s, src, events.drop_first());
        assert(tagged_events(src, events).first() == (src, events.first()));
        assert(tagged_events(src, events).drop_first() =~= tagged_events(
            src,
            events.drop_first(),
        ));
        if src == s {
            assert(of_source(s, tagged_events(src, events)) =~= events);
        }
    }
}

/// Events read from a single source come out of the dispatch order in the
/// order they were read: picking one source's events out of the dispatched
/// stream gives exactly that source's batches, concatenated in arrival
/// order, however the other sources' batches are interleaved.
pub proof fn lemma_source_order_preserved(batches: Seq<EventBatch>, s: i32)
    ensures
        of_source(s, dispatched(batches)) == source_events(batches, s),
    decreases batches.len(),
{
    if batches.len() == 0 {
    } else {
        let first = batches.first();
        lemma_of_source_add(
            s,
            tagged_events(first.source, first.events@),
            dispatched(batches.drop_first()),
        );
        lemma_of_source_tagged(s, first.source, first.events@);
        lemma_source_order_preserved(batches.drop_first(), s);
        if first.source == s {
        } else {
            assert(Seq::<RawEvent>::empty() + source_events(batches.drop_first(), s)
                =~= source_events(batches.drop_first(), s));
        }
    }
}

/// The order a set of drained batches is dispatched in: the batches in
/// arrival order, each batch's events in read order, every event tagged
/// with its source.
pub fn dispatch_order(batches: &Vec<EventBatch>) -> (r: Vec<(i32, RawEvent)>)
    ensures
        r@ == dispatched(batches@),
{
    let mut r: Vec<(i32, RawEvent)> = Vec::new();
    let mut i: usize = 0;
    while i < batches.len()
        invariant
            i <= batches@.len(),
            r@ == dispatched(batches@.take(i as int)),
        decreases batches@.len() - i,
    {
        let b = &batches[i];
        let mut j: usize = 0;
        while j < b.events.len()
            invariant
                i < batches@.len(),
                j <= b.events@.len(),
                b == batches@[i as int],
                r@ == dispatched(batches@.take(i as int)) + tagged_events(
                    b.source,
                    b.events@.take(j as int),
                ),
            decreases b.events@.len() - j,
        {
            let ev = b.events[j];
            r.push((b.source, ev));
            proof {
                assert(b.events@.take(j as int + 1) =~= b.events@.take(j as int) + seq![ev]);
                lemma_tagged_events_add(b.source, b.events@.take(j as int), seq![ev]);
                assert(seq![ev].drop_first() =~= Seq::<RawEvent>::empty());
                assert(tagged_events(b.source, Seq::<RawEvent>::empty()) =~= Seq::<(
                    i32,
                    RawEvent,
                )>::empty());
                assert(tagged_events(b.source, seq![ev]) =~= seq![(b.source, ev)]);
            }
            j += 1;
        }
        proof {
            assert(b.events@.take(b.events@.len() as int) =~= b.events@);
            assert(batches@.take(i as int + 1) =~= batches@.take(i as int) + seq![batches@[i as int]]);
            lemma_dispatched_add(batches@.take(i as int), seq![batches@[i as int]]);
            assert(seq![batches@[i as int]].drop_first() =~= Seq::<EventBatch>::empty());
            assert(dispatched(Seq::<EventBatch>::empty()) =~= Seq::<(i32, RawEvent)>::empty());
            assert(dispatched(seq![batches@[i as int]]) =~= tagged_events(b.source, b.events@));
        }
        i += 1;
    }
    proof {
        assert(batches@.take(batches@.len() as int) =~= batches@);
    }
    r
}

/// The encoded packet one decodable event yields for the named source.
pub open spec fn event_packet(name: Seq<char>, e: RawEvent) -> Seq<u8> {
    osc_packet_bytes(
        address_of(name, decoded(e.status).unwrap()),
        name_of(decoded(e.status).unwrap()),
        e.data1 as i32,
        e.data2 as i32,
    )
}

/// Whether every event of a batch carries a legal status byte.
pub open spec fn all_decodable(events: Seq<RawEvent>) -> bool {
    forall|i: int| 0 <= i < events.len() ==> decoded(#[trigger] events[i].status) is Some
}

/// Translate one drained batch for the named source: each event becomes
/// its encoded packet, in read order. The first illegal status byte aborts
/// the whole batch with its error, as a protocol violation the run cannot
/// continue past.
pub fn process_batch(device_name: &str, events: &Vec<RawEvent>) -> (r: Result<
    Vec<Vec<u8>>,
    DecodeError,
>)
    ensures
        match r {
            Ok(packets) => all_decodable(events@) && packets@.len() == events@.len() && (forall|
                i: int,
            |
                0 <= i < events@.len() ==> (#[trigger] packets@[i])@ == event_packet(
                    device_name@,
                    events@[i],
                )),
            Err(e) => exists|k: int|
                #![auto]
                0 <= k < events@.len() && decoded(events@[k].status) is None && e == (DecodeError {
                    status: events@[k].status,
                }) && (forall|j: int| 0 <= j < k ==> decoded(events@[j].status) is Some),
        },
{
    let mut packets: Vec<Vec<u8>> = Vec::new();
    let mut i: usize = 0;
    while i < events.len()
        invariant
            i <= events@.len(),
            packets@.len() == i,
            forall|j: int| 0 <= j < i ==> decoded(#[trigger] events@[j].status) is Some,
            forall|j: int|
                0 <= j < i ==> (#[trigger] packets@[j])@ == event_packet(
                    device_name@,
                    events@[j],
                ),
        decreases events@.len() - i,
    {
        let ev = events[i];
        match process_event(device_name, ev.status, ev.data1, ev.data2) {
            Ok(p) => packets.push(p),
            Err(e) => {
                proof {
                    assert(decoded(events@[i as int].status) is None);
                }
                return Err(e);
            },
        }
        i += 1;
    }
    Ok(packets)
}

/// One publish call's progress across its destination list: destination
/// after destination, in order, each attempted exactly once.
pub struct PublishState {
    pub attempted: usize,
    pub total: usize,
}

impl PublishState {
    /// No more attempts were recorded than there are destinations.
    pub open spec fn wf(self) -> bool {
        self.attempted <= self.total
    }

    /// Start one publish call over the given number of destinations.
    pub fn new(total: usize) -> (r: PublishState)
        ensures
            r.attempted == 0,
            r.total == total,
            r.wf(),
    {
        PublishState { attempted: 0, total }
    }

    /// Whether a destination is still owed an attempt.
    pub fn has_next(&self) -> (r: bool)
        ensures
            r == (self.attempted < self.total),
    {
        self.attempted < self.total
    }

    /// The destination to attempt next: always the first not yet
    /// attempted, so every destination is attempted once, in list order.
    pub fn next_destination(&self) -> (r: usize)
        requires
            self.attempted < self.total,
        ensures
            r == self.attempted,
    {
        self.attempted
    }

    /// Record the outcome of one attempt. The new state does not depend on
    /// `delivered`: a failed transmission advances to the next destination
    /// exactly as a successful one, so no destination is skipped or
    /// retried on account of an earlier failure.
    #[allow(unused_variables)]
    pub fn record(&mut self, delivered: bool)
        requires
            old(self).attempted < old(self).total,
        ensures
            final(self).attempted == old(self).attempted + 1,
            final(self).total == old(self).total,
            final(self).wf(),
    {
        self.attempted = self.attempted + 1;
    }
}

/// Whether an available device's identifier is among the requested ones:
/// the rule by which devices are bound at startup.
pub fn requested_contains(requested: &Vec<i32>, id: i32) -> (r: bool)
    ensures
        r == requested@.contains(id),
{
    let mut i: usize = 0;
    while i < requested.len()
        invariant
            i <= requested@.len(),
            forall|j: int| 0 <= j < i ==> requested@[j] != id,
        decreases requested@.len() - i,
    {
        if requested[i] == id {
            return true;
        }
        i += 1;
    }
    false
}

/// The identifiers a run binds: the available ones that were requested,
/// kept in device order. Requesting an identifier that no device carries
/// binds nothing for it.
pub open spec fn selected_sources(ids: Seq<i32>, requested: Seq<i32>) -> Seq<i32>
    decreases ids.len(),
{
    if ids.len() == 0 {
        Seq::empty()
    } else if requested.contains(ids.first()) {
        seq![ids.first()] + selected_sources(ids.drop_first(), requested)
    } else {
        selected_sources(ids.drop_first(), requested)
    }
}

proof fn lemma_selected_sources_add(a: Seq<i32>, b: Seq<i32>, requested: Seq<i32>)
    ensures
        selected_sources(a + b, requested) == selected_sources(a, requested) + selected_sources(
            b,
            requested,
        ),
    decreases a.len(),
{
    if a.len() == 0 {
        assert(a + b =~= b);
        assert(selected_sources(a, requested) + selected_sources(b, requested)
            =~= selected_sources(b, requested));
    } else {
        assert((a + b).first() == a.first());
        assert((a + b).drop_first() =~= a.drop_first() + b);
        lemma_selected_sources_add(a.drop_first(), b, requested);
        assert(selected_sources(a + b, requested) =~= selected_sources(a, requested)
            + selected_sources(b, requested));
    }
}

/// The devices a run binds, by identifier: filter the available devices,
/// in order, down to those whose identifier was requested.
pub fn select_sources(available: &Vec<i32>, requested: &Vec<i32>) -> (r: Vec<i32>)
    ensures
        r@ == selected_sources(available@, requested@),
{
    let mut r: Vec<i32> = Vec::new();
    let mut i: usize = 0;
    while i < available.len()
        invariant
            i <= available@.len(),
            r@ == selected_sources(available@.take(i as int), requested@),
        decreases available@.len() - i,
    {
        let id = available[i];
        if requested_contains(requested, id) {
            r.push(id);
        }
        proof {
            assert(available@.take(i as int + 1) =~= available@.take(i as int) + seq![id]);
            lemma_selected_sources_add(available@.take(i as int), seq![id], requested@);
            assert(seq![id].drop_first() =~= Seq::<i32>::empty());
            assert(selected_sources(Seq::<i32>::empty(), requested@) =~= Seq::<i32>::empty());
            if requested@.contains(id) {
                assert(selected_sources(seq![id], requested@) =~= seq![id]);
            } else {
                assert(selected_sources(seq![id], requested@) =~= Seq::<i32>::empty());
            }
        }
        i += 1;
    }
    proof {
        assert(available@.take(available@.len() as int) =~= available@);
    }
    r
}

/// Whether a run over the given requested identifiers uses the
/// single-source topology: it does exactly when they name one distinct
/// source.
pub fn single_source_topology(requested: &Vec<i32>) -> (r: bool)
    ensures
        r == (requested@.len() > 0 && (forall|i: int|
            0 <= i < requested@.len() ==> #[trigger] requested@[i] == requested@[0])),
{
    if requested.len() == 0 {
        return false;
    }
    let first = requested[0];
    let mut i: usize = 1;
    while i < requested.len()
        invariant
            1 <= i <= requested@.len(),
            first == requested@[0],
            forall|j: int| 0 <= j < i ==> requested@[j] == first,
        decreases requested@.len() - i,
    {
        if requested[i] != first {
            return false;
        }
        i += 1;
    }
    true
}

} // verus!
