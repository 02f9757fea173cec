//! The subscription bridge: relays an atomically-obtained (snapshot, update
//! source) pair to a push-based consumer as a two-phase stream.
//!
//! The bridge owns one receiving end of the collaborator's broadcast source.
//! Each observation it takes from that source is a [`SourceEvent`]: the next
//! update, a lag notice (the consumer was too slow and buffered updates were
//! dropped for this receiver only), or closure. Lag is absorbed silently:
//! every update carries the full state of its item, so a missed update is
//! repaired by the next one (see [`crate::replay`]). Sink rejection and
//! source closure both end the stream without error: they are normal
//! lifecycle, not faults.

use vstd::prelude::*;

verus! {

/// One observation taken from a broadcast update source.
#[derive(Debug, Clone)]
pub enum SourceEvent<U> {
    /// The next update, in emission order.
    Update(U),
    /// This receiver lagged and missed some buffered updates.
    Lagged,
    /// The source closed: the feed has ended.
    Closed,
}

/// One event delivered to the consumer of a two-phase feed.
#[derive(Debug, Clone)]
pub enum StreamEvent<I, U> {
    /// The complete state of the feed at subscription time.
    Snapshot(Vec<I>),
    /// One real-time update.
    Update(U),
}

/// The updates a bridge forwards: every update emitted before the source
/// closes, in emission order, with lag notices producing nothing.
pub open spec fn forwarded_updates<U>(events: Seq<SourceEvent<U>>) -> Seq<U>
    decreases events.len(),
{
    if events.len() == 0 {
        Seq::empty()
    } else {
        match events[0] {
            SourceEvent::Update(u) => seq![u] + forwarded_updates(events.drop_first()),
            SourceEvent::Lagged => forwarded_updates(events.drop_first()),
            SourceEvent::Closed => Seq::empty(),
        }
    }
}

/// The update payloads of a whole trace, in emission order, lag notices
/// ignored.
pub open spec fn emitted_updates<U>(events: Seq<SourceEvent<U>>) -> Seq<U>
    decreases events.len(),
{
    if events.len() == 0 {
        Seq::empty()
    } else {
        match events[0] {
            SourceEvent::Update(u) => seq![u] + emitted_updates(events.drop_first()),
            SourceEvent::Lagged => emitted_updates(events.drop_first()),
            SourceEvent::Closed => emitted_updates(events.drop_first()),
        }
    }
}

/// Law: the bridge fabricates and reorders nothing. As long as the source
/// has not closed, what it forwards is exactly what the source emitted,
/// update for update, in emission order.
pub proof fn lemma_forwarded_is_emitted<U>(events: Seq<SourceEvent<U>>)
    requires
        forall|i: int| 0 <= i < events.len() ==> !((#[trigger] events[i]) is Closed),
    ensures
        forwarded_updates(events) == emitted_updates(events),
    decreases events.len(),
{
    if events.len() > 0 {
        assert(!(events[0] is Closed));
        assert forall|i: int| 0 <= i < events.drop_first().len() implies !((
        #[trigger] events.drop_first()[i]) is Closed) by {
            assert(events.drop_first()[i] == events[i + 1]);
        }
        lemma_forwarded_is_emitted(events.drop_first());
    }
}

/// Wraps a sequence of updates as stream events.
pub open spec fn update_events<I, U>(updates: Seq<U>) -> Seq<StreamEvent<I, U>> {
    updates.map_values(|u: U| StreamEvent::Update(u))
}

/// The full stream a two-phase subscription owes a consumer that never
/// disconnects: the snapshot, then every forwarded update.
pub open spec fn two_phase_stream<I, U>(snapshot: Vec<I>, events: Seq<SourceEvent<U>>) -> Seq<
    StreamEvent<I, U>,
> {
    seq![StreamEvent::Snapshot(snapshot)] + update_events(forwarded_updates(events))
}

/// What the relay loop does with one source observation.
#[derive(Debug, Clone)]
pub enum RelayStep<U> {
    /// Forward this update to the sink.
    Deliver(U),
    /// Produce nothing and keep going: the lagged case. Safe only because
    /// updates are full-state, never deltas.
    Skip,
    /// End the stream normally.
    Stop,
}

/// The relay decision for one observation: updates are forwarded, lag is
/// absorbed, closure ends the stream. A live loop applies this to each
/// observation it awaits.
pub fn relay_step<U>(ev: SourceEvent<U>) -> (s: RelayStep<U>)
    ensures
        match ev {
            SourceEvent::Update(u) => s == RelayStep::Deliver(u),
            SourceEvent::Lagged => s == RelayStep::<U>::Skip,
            SourceEvent::Closed => s == RelayStep::<U>::Stop,
        },
{
    match ev {
        SourceEvent::Update(u) => RelayStep::Deliver(u),
        SourceEvent::Lagged => RelayStep::Skip,
        SourceEvent::Closed => RelayStep::Stop,
    }
}

/// The port through which the bridge reaches the remote consumer. `send`
/// either delivers the event (appending it to `delivered`) or rejects it,
/// and rejection means the consumer is gone: a closed sink never accepts
/// again. An open sink may still reject, since the consumer can disconnect
/// at any instant.
pub trait EventSink<T>: Sized {
    /// The events accepted so far, in acceptance order.
    spec fn delivered(&self) -> Seq<T>;

    /// Whether the consumer is still attached.
    spec fn open(&self) -> bool;

    /// Pushes one event to the consumer.
    fn send(&mut self, item: T) -> (ok: bool)
        ensures
            ok ==> old(self).open() && final(self).delivered() == old(self).delivered().push(
                item,
            ),
            !ok ==> final(self).delivered() == old(self).delivered() && !final(self).open(),
            !old(self).open() ==> !ok,
    ;
}

/// Relays the updates of a snapshot-free feed until the source closes or
/// the sink rejects an event. The delivered sequence grows by a prefix of
/// the forwarded updates: nothing is reordered, fabricated, or surfaced as
/// an error; a sink that stays attached receives every forwarded update.
pub fn relay_updates<U, S: EventSink<U>>(events: Vec<SourceEvent<U>>, sink: &mut S)
    ensures
        final(sink).open() ==> final(sink).delivered() == old(sink).delivered()
            + forwarded_updates(events@),
        exists|n: int|
            0 <= n <= forwarded_updates(events@).len() && final(sink).delivered() == old(
                sink,
            ).delivered() + forwarded_updates(events@).take(n),
        !old(sink).open() ==> final(sink).delivered() == old(sink).delivered(),
{
    let ghost all = events@;
    let ghost dold = sink.delivered();
    let ghost init_open = sink.open();
    let mut events = events;
    let ghost mut done: Seq<U> = Seq::empty();
    proof {
        assert(dold + done =~= dold);
    }
    loop
        invariant_except_break
            forwarded_updates(all) == done + forwarded_updates(events@),
        invariant
            sink.delivered() == dold + done,
            !init_open ==> !sink.open() && done == Seq::<U>::empty(),
        ensures
            sink.delivered() == dold + done,
            sink.open() ==> done == forwarded_updates(all),
            done == forwarded_updates(all).take(done.len() as int),
            done.len() <= forwarded_updates(all).len(),
            !init_open ==> done == Seq::<U>::empty(),
        decreases events@.len(),
    {
        proof {
            lemma_prefix_of_forwarded(all, done, events@);
        }
        if events.len() == 0 {
            proof {
                assert(done + forwarded_updates(events@) =~= done);
            }
            break ;
        }
        let ghost pre = events@;
        let ev = events.remove(0);
        proof {
            assert(pre.remove(0) =~= pre.drop_first());
        }
        match ev {
            SourceEvent::Update(u) => {
                let ghost gu = u;
                let ok = sink.send(u);
                if ok {
                    proof {
                        assert(dold + done.push(gu) =~= (dold + done).push(gu));
                        assert(done + (seq![gu] + forwarded_updates(events@)) =~= done.push(gu)
                            + forwarded_updates(events@));
                        done = done.push(gu);
                    }
                } else {
                    break ;
                }
            },
            SourceEvent::Lagged => {},
            SourceEvent::Closed => {
                proof {
                    assert(done + Seq::<U>::empty() =~= done);
                }
                break ;
            },
        }
    }
    proof {
        assert(forwarded_updates(all).take(forwarded_updates(all).len() as int)
            =~= forwarded_updates(all));
    }
}

/// Whenever the remainder of the source accounts for the rest of the full
/// forwarded sequence, the part already done is a prefix of it.
proof fn lemma_prefix_of_forwarded<U>(
    all: Seq<SourceEvent<U>>,
    done: Seq<U>,
    rest: Seq<SourceEvent<U>>,
)
    requires
        forwarded_updates(all) == done + forwarded_updates(rest),
    ensures
        done == forwarded_updates(all).take(done.len() as int),
        done.len() <= forwarded_updates(all).len(),
{
    assert(forwarded_updates(all).take(done.len() as int) =~= done);
}

/// Relays a two-phase feed: one snapshot event, then the forwarded updates,
/// until the source closes or the sink rejects an event.
///
/// The delivered sequence grows by a prefix of [`two_phase_stream`]: the
/// snapshot always comes first, updates keep their emission order, nothing
/// is fabricated. A sink that is closed before the first event receives
/// nothing, not even the snapshot, and no error arises. A sink that stays
/// attached receives the whole stream.
pub fn relay_two_phase<I, U, S: EventSink<StreamEvent<I, U>>>(
    snapshot: Vec<I>,
    events: Vec<SourceEvent<U>>,
    sink: &mut S,
)
    ensures
        final(sink).open() ==> final(sink).delivered() == old(sink).delivered()
            + two_phase_stream(snapshot, events@),
        exists|n: int|
            0 <= n <= two_phase_stream(snapshot, events@).len() && final(sink).delivered() == old(
                sink,
            ).delivered() + two_phase_stream(snapshot, events@).take(n),
        !old(sink).open() ==> final(sink).delivered() == old(sink).delivered(),
{
    let ghost all = events@;
    let ghost dold = sink.delivered();
    let ghost full = two_phase_stream::<I, U>(snapshot, all);
    let ghost snap_ev = StreamEvent::<I, U>::Snapshot(snapshot);
    let ok = sink.send(StreamEvent::Snapshot(snapshot));
    if !ok {
        proof {
            assert(full.take(0) =~= Seq::<StreamEvent<I, U>>::empty());
            assert(dold + full.take(0) =~= dold);
            assert(final(sink).delivered() == old(sink).delivered() + full.take(0));
        }
        return ;
    }
    let mut events = events;
    let ghost mut done: Seq<U> = Seq::empty();
    proof {
        assert(update_events::<I, U>(done) =~= Seq::<StreamEvent<I, U>>::empty());
        assert(dold.push(snap_ev) + update_events::<I, U>(done) =~= dold.push(snap_ev));
    }
    loop
        invariant_except_break
            forwarded_updates(all) == done + forwarded_updates(events@),
        invariant
            sink.delivered() == dold.push(snap_ev) + update_events::<I, U>(done),
            snap_ev == StreamEvent::<I, U>::Snapshot(snapshot),
        ensures
            sink.delivered() == dold.push(snap_ev) + update_events::<I, U>(done),
            sink.open() ==> done == forwarded_updates(all),
            done == forwarded_updates(all).take(done.len() as int),
            done.len() <= forwarded_updates(all).len(),
        decreases events@.len(),
    {
        proof {
            lemma_prefix_of_forwarded(all, done, events@);
        }
        if events.len() == 0 {
            proof {
                assert(done + forwarded_updates(events@) =~= done);
            }
            break ;
        }
        let ghost pre = events@;
        let ev = events.remove(0);
        proof {
            assert(pre.remove(0) =~= pre.drop_first());
        }
        match ev {
            SourceEvent::Update(u) => {
                let ghost gu = u;
                let ok = sink.send(StreamEvent::Update(u));
                if ok {
                    proof {
                        assert(update_events::<I, U>(done.push(gu)) =~= update_events::<I, U>(
                            done,
                        ).push(StreamEvent::Update(gu)));
                        assert(dold.push(snap_ev) + update_events::<I, U>(done).push(
                            StreamEvent::Update(gu),
                        ) =~= (dold.push(snap_ev) + update_events::<I, U>(done)).push(
                            StreamEvent::Update(gu),
                        ));
                        assert(done + (seq![gu] + forwarded_updates(events@)) =~= done.push(gu)
                            + forwarded_updates(events@));
                        done = done.push(gu);
                    }
                } else {
                    break ;
                }
            },
            SourceEvent::Lagged => {},
            SourceEvent::Closed => {
                proof {
                    assert(done + Seq::<U>::empty() =~= done);
                }
                break ;
            },
        }
    }
    proof {
        let n = done.len() as int;
        assert(full.take(n + 1) =~= seq![snap_ev] + update_events::<I, U>(done)) by {
            assert(forwarded_updates(all).take(n) == done);
        }
        assert(dold.push(snap_ev) + update_events::<I, U>(done) =~= dold + (seq![snap_ev]
            + update_events::<I, U>(done)));
        assert(final(sink).delivered() == old(sink).delivered() + full.take(n + 1));
        if sink.open() {
            assert(full.take(n + 1) =~= full);
        }
    }
}

/// Law: when the source closes immediately after the snapshot is taken, the
/// whole stream is exactly one snapshot event and zero update events.
pub proof fn lemma_source_closed_after_snapshot<I, U>(
    snapshot: Vec<I>,
    events: Seq<SourceEvent<U>>,
)
    requires
        events.len() > 0,
        events[0] is Closed,
    ensures
        two_phase_stream::<I, U>(snapshot, events) == seq![
            StreamEvent::<I, U>::Snapshot(snapshot),
        ],
{
    assert(two_phase_stream::<I, U>(snapshot, events) =~= seq![
        StreamEvent::<I, U>::Snapshot(snapshot),
    ]);
}

/// A sink whose consumer never disconnects: every event is accepted and
/// collected. Relaying into it delivers the whole two-phase stream, since
/// the relay's completeness clause applies to any sink that stays open.
pub struct OpenVecSink<T> {
    /// The events accepted so far.
    pub items: Vec<T>,
}

impl<T> OpenVecSink<T> {
    /// An empty sink.
    pub fn new() -> (s: Self)
        ensures
            s.items@ == Seq::<T>::empty(),
    {
        OpenVecSink { items: Vec::new() }
    }
}

impl<T> EventSink<T> for OpenVecSink<T> {
    open spec fn delivered(&self) -> Seq<T> {
        self.items@
    }

    open spec fn open(&self) -> bool {
        true
    }

    fn send(&mut self, item: T) -> (ok: bool) {
        self.items.push(item);
        true
    }
}

/// A sink backed by a vector, accepting a bounded number of events before
/// it disconnects: the in-memory stand-in for a remote consumer. A budget
/// at least the stream length models a consumer that never disconnects.
pub struct VecSink<T> {
    /// The events accepted so far.
    pub items: Vec<T>,
    /// How many more events the consumer will accept.
    pub budget: usize,
}

impl<T> VecSink<T> {
    /// An empty sink that will accept `budget` events.
    pub fn new(budget: usize) -> (s: Self)
        ensures
            s.items@ == Seq::<T>::empty(),
            s.budget == budget,
    {
        VecSink { items: Vec::new(), budget }
    }
}

impl<T> EventSink<T> for VecSink<T> {
    open spec fn delivered(&self) -> Seq<T> {
        self.items@
    }

    open spec fn open(&self) -> bool {
        self.budget > 0
    }

    fn send(&mut self, item: T) -> (ok: bool) {
        if self.budget > 0 {
            self.items.push(item);
            self.budget = self.budget - 1;
            true
        } else {
            false
        }
    }
}

} // verus!
