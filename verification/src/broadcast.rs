use vstd::prelude::*;

use crate::audio::Sample;
use crate::shutdown::ShutdownSignal;

verus! {

/// What the capture/broadcast loop should do at its next iteration boundary.
#[derive(Clone, Copy, PartialEq, Eq, Structural, Debug)]
pub enum BroadcastStep {
    /// A sample is available: fan it out to every consumer.
    Deliver,
    /// Nothing is available: sleep one short bounded interval instead of
    /// busy-spinning.
    Sleep,
    /// Shutdown was requested: leave the loop.
    Stop,
}

/// The mathematical state of one fan-out channel: what its consumer has
/// already taken out, what still sits in the channel, the channel's bound,
/// and whether the consumer is still reachable.
pub ghost struct PortModel {
    pub capacity: int,
    pub queue: Seq<Sample>,
    pub taken: Seq<Sample>,
    pub live: bool,
}

impl PortModel {
    /// Every sample ever delivered to this consumer, in delivery order,
    /// whether or not it has taken it out yet.
    pub open spec fn delivered(self) -> Seq<Sample> {
        self.taken + self.queue
    }

    /// The channel never holds more than its bound.
    pub open spec fn wf(self) -> bool {
        self.queue.len() <= self.capacity
    }
}

/// One sample offered to one channel: an abandoned consumer is skipped, a
/// full channel drops the sample — for this consumer only — and otherwise
/// the sample is enqueued.
pub open spec fn spec_offer(m: PortModel, s: Sample) -> PortModel {
    if !m.live {
        m
    } else if m.queue.len() >= m.capacity {
        m
    } else {
        PortModel { queue: m.queue.push(s), ..m }
    }
}

/// A whole run of samples offered to one channel, first sample first.
pub open spec fn spec_offer_all(m: PortModel, ss: Seq<Sample>) -> PortModel
    decreases ss.len(),
{
    if ss.len() == 0 {
        m
    } else {
        spec_offer_all(spec_offer(m, ss[0]), ss.skip(1))
    }
}

/// Offering a run and then one more sample is the same as offering the run
/// extended by that sample.
pub proof fn lemma_offer_all_push(m: PortModel, ss: Seq<Sample>, s: Sample)
    ensures
        spec_offer_all(m, ss.push(s)) == spec_offer(spec_offer_all(m, ss), s),
    decreases ss.len(),
{
    if ss.len() == 0 {
        assert(ss.push(s)[0] == s);
        assert(ss.push(s).skip(1) =~= Seq::<Sample>::empty());
        assert(spec_offer_all(m, ss.push(s)) == spec_offer_all(
            spec_offer(m, s),
            Seq::<Sample>::empty(),
        ));
        assert(spec_offer_all(spec_offer(m, s), Seq::<Sample>::empty()) == spec_offer(m, s));
        assert(spec_offer_all(m, ss) == m);
    } else {
        assert(ss.push(s)[0] == ss[0]);
        assert(ss.push(s).skip(1) =~= ss.skip(1).push(s));
        assert(spec_offer_all(m, ss.push(s)) == spec_offer_all(
            spec_offer(m, ss[0]),
            ss.skip(1).push(s),
        ));
        lemma_offer_all_push(spec_offer(m, ss[0]), ss.skip(1), s);
        assert(spec_offer_all(m, ss) == spec_offer_all(spec_offer(m, ss[0]), ss.skip(1)));
    }
}

/// Law: a consumer that stays reachable and whose channel has room for the
/// whole run receives every sample exactly once, in order — the channel ends
/// up holding exactly the old contents followed by the run.
pub proof fn lemma_live_consumer_receives_all(m: PortModel, ss: Seq<Sample>)
    requires
        m.live,
        m.queue.len() + ss.len() <= m.capacity,
    ensures
        spec_offer_all(m, ss) == (PortModel { queue: m.queue + ss, ..m }),
        spec_offer_all(m, ss).delivered() == m.delivered() + ss,
    decreases ss.len(),
{
    if ss.len() == 0 {
        assert(m.queue + ss =~= m.queue);
        assert(spec_offer_all(m, ss) == (PortModel { queue: m.queue + ss, ..m }));
    } else {
        let m1 = spec_offer(m, ss[0]);
        lemma_live_consumer_receives_all(m1, ss.skip(1));
        assert(m.queue.push(ss[0]) + ss.skip(1) =~= m.queue + ss);
    }
    assert(m.taken + (m.queue + ss) =~= (m.taken + m.queue) + ss);
}

/// Law: an abandoned consumer is never touched again, however much is
/// offered to the others.
pub proof fn lemma_abandoned_consumer_unchanged(m: PortModel, ss: Seq<Sample>)
    requires
        !m.live,
    ensures
        spec_offer_all(m, ss) == m,
    decreases ss.len(),
{
    if ss.len() > 0 {
        lemma_abandoned_consumer_unchanged(m, ss.skip(1));
    }
}

/// One registered downstream channel of the fan-out, together with the
/// record of what its consumer has taken from it.
pub struct ConsumerPort {
    capacity: usize,
    queue: Vec<Sample>,
    taken: Ghost<Seq<Sample>>,
    live: bool,
}

impl View for ConsumerPort {
    type V = PortModel;

    closed spec fn view(&self) -> PortModel {
        PortModel {
            capacity: self.capacity as int,
            queue: self.queue@,
            taken: self.taken@,
            live: self.live,
        }
    }
}

impl ConsumerPort {
    /// A fresh channel with the given bound: empty, nothing taken, reachable.
    pub fn new(capacity: usize) -> (r: ConsumerPort)
        ensures
            r@ == (PortModel {
                capacity: capacity as int,
                queue: Seq::<Sample>::empty(),
                taken: Seq::<Sample>::empty(),
                live: true,
            }),
    {
        ConsumerPort { capacity, queue: Vec::new(), taken: Ghost(Seq::empty()), live: true }
    }

    /// Offers one sample to this channel alone; the outcome is exactly the
    /// one-step transition of the model.
    pub fn offer(&mut self, s: Sample)
        requires
            old(self)@.wf(),
        ensures
            final(self)@ == spec_offer(old(self)@, s),
            final(self)@.wf(),
    {
        if self.live && self.queue.len() < self.capacity {
            self.queue.push(s);
        }
    }

    /// The consumer takes the oldest sample out of the channel, if one is
    /// there. What has been delivered does not change — it only moves from
    /// the channel to the consumer.
    pub fn take_one(&mut self) -> (r: Option<Sample>)
        ensures
            old(self)@.queue.len() == 0 ==> r is None && *final(self) == *old(self),
            old(self)@.queue.len() > 0 ==> {
                &&& r matches Some(s) && s == old(self)@.queue[0]
                &&& final(self)@ == (PortModel {
                    queue: old(self)@.queue.skip(1),
                    taken: old(self)@.taken.push(old(self)@.queue[0]),
                    ..old(self)@
                })
            },
            final(self)@.delivered() == old(self)@.delivered(),
    {
        if self.queue.len() == 0 {
            None
        } else {
            let s = self.queue.remove(0);
            proof {
                self.taken@ = self.taken@.push(s);
                assert(final(self)@.queue =~= old(self)@.queue.skip(1));
                assert(final(self)@.delivered() =~= old(self)@.delivered());
            }
            Some(s)
        }
    }

    /// The consumer has gone away (its end of the channel is closed): this
    /// path is abandoned and never delivered to again.
    pub fn close(&mut self)
        ensures
            final(self)@ == (PortModel { live: false, ..old(self)@ }),
    {
        self.live = false;
    }
}

/// The fan-out stage (§ sample broadcasting): it drains the capture ring
/// buffer and forwards each sample to every registered consumer channel
/// independently, so that a failure or a full channel on one path never
/// affects a sibling.
pub struct Broadcaster {
    consumers: Vec<ConsumerPort>,
}

impl View for Broadcaster {
    type V = Seq<PortModel>;

    closed spec fn view(&self) -> Seq<PortModel> {
        self.consumers@.map_values(|c: ConsumerPort| c@)
    }
}

impl Broadcaster {
    /// Every channel within its bound.
    pub open spec fn wf(&self) -> bool {
        forall|i: int| 0 <= i < self@.len() ==> (#[trigger] self@[i]).wf()
    }

    /// A broadcaster with no consumers yet.
    pub fn new() -> (r: Broadcaster)
        ensures
            r@ == Seq::<PortModel>::empty(),
            r.wf(),
    {
        let b = Broadcaster { consumers: Vec::new() };
        proof {
            assert(b@ =~= Seq::<PortModel>::empty());
        }
        b
    }

    /// Registers one more consumer channel with the given bound.
    pub fn add_consumer(&mut self, capacity: usize)
        ensures
            final(self)@ == old(self)@.push(
                PortModel {
                    capacity: capacity as int,
                    queue: Seq::<Sample>::empty(),
                    taken: Seq::<Sample>::empty(),
                    live: true,
                },
            ),
            old(self).wf() ==> final(self).wf(),
    {
        self.consumers.push(ConsumerPort::new(capacity));
        proof {
            assert(final(self)@ =~= old(self)@.push(
                PortModel {
                    capacity: capacity as int,
                    queue: Seq::<Sample>::empty(),
                    taken: Seq::<Sample>::empty(),
                    live: true,
                },
            ));
        }
    }

    /// How many consumer channels are registered.
    pub fn consumer_count(&self) -> (n: usize)
        ensures
            n == self@.len(),
    {
        self.consumers.len()
    }

    /// How many samples sit undelivered in the channel at `index`.
    pub fn queued_len(&self, index: usize) -> (n: usize)
        requires
            index < self@.len(),
        ensures
            n == self@[index as int].queue.len(),
    {
        proof {
            assert(self@[index as int] == self.consumers@[index as int]@);
        }
        self.consumers[index].queue.len()
    }

    /// Fans one sample out: every channel sees exactly the one-step offer
    /// transition, each independently of all its siblings.
    pub fn broadcast_sample(&mut self, s: Sample)
        requires
            old(self).wf(),
        ensures
            final(self)@.len() == old(self)@.len(),
            forall|i: int|
                0 <= i < old(self)@.len() ==> final(self)@[i] == spec_offer(
                    #[trigger] old(self)@[i],
                    s,
                ),
            final(self).wf(),
    {
        let ghost orig = self@;
        let n = self.consumers.len();
        let mut j: usize = 0;
        while j < n
            invariant
                j <= n,
                n == self.consumers@.len(),
                self@.len() == orig.len(),
                forall|k: int| 0 <= k < j ==> self@[k] == spec_offer(#[trigger] orig[k], s),
                forall|k: int| j <= k < n ==> #[trigger] self@[k] == orig[k],
                forall|k: int| 0 <= k < n ==> (#[trigger] orig[k]).wf(),
            decreases n - j,
        {
            proof {
                assert(self@[j as int] == self.consumers@[j as int]@);
                assert(self@[j as int].wf());
            }
            let ghost pre = self.consumers@;
            let ghost prev = self@;
            self.consumers[j].offer(s);
            proof {
                assert forall|k: int| 0 <= k < j + 1 implies self@[k] == spec_offer(
                    #[trigger] orig[k],
                    s,
                ) by {
                    assert(self@[k] == self.consumers@[k]@);
                    if k < j {
                        assert(self.consumers@[k] == pre[k]);
                        assert(prev[k] == pre[k]@);
                    }
                }
                assert forall|k: int| j + 1 <= k < n implies #[trigger] self@[k] == orig[k] by {
                    assert(self@[k] == self.consumers@[k]@);
                    assert(self.consumers@[k] == pre[k]);
                    assert(prev[k] == pre[k]@);
                }
            }
            j = j + 1;
        }
        proof {
            assert forall|i: int| 0 <= i < self@.len() implies (#[trigger] self@[i]).wf() by {
                assert(self@[i] == spec_offer(orig[i], s));
                assert(orig[i].wf());
            }
        }
    }

    /// Fans a whole run of samples out, one at a time, first sample first:
    /// every channel sees exactly the whole-run offer transition. A live
    /// channel with room for the run therefore receives every sample exactly
    /// once, in order, whatever happens on any sibling.
    pub fn broadcast_all(&mut self, samples: &Vec<Sample>)
        requires
            old(self).wf(),
        ensures
            final(self)@.len() == old(self)@.len(),
            forall|i: int|
                0 <= i < old(self)@.len() ==> final(self)@[i] == spec_offer_all(
                    #[trigger] old(self)@[i],
                    samples@,
                ),
            final(self).wf(),
    {
        let ghost orig = self@;
        let mut i: usize = 0;
        while i < samples.len()
            invariant
                i <= samples@.len(),
                self@.len() == orig.len(),
                self.wf(),
                forall|k: int|
                    0 <= k < orig.len() ==> self@[k] == spec_offer_all(
                        #[trigger] orig[k],
                        samples@.take(i as int),
                    ),
            decreases samples@.len() - i,
        {
            self.broadcast_sample(samples[i]);
            proof {
                assert(samples@.take(i + 1) =~= samples@.take(i as int).push(samples@[i as int]));
                assert forall|k: int| 0 <= k < orig.len() implies self@[k] == spec_offer_all(
                    #[trigger] orig[k],
                    samples@.take(i + 1),
                ) by {
                    lemma_offer_all_push(orig[k], samples@.take(i as int), samples@[i as int]);
                }
            }
            i = i + 1;
        }
        proof {
            assert(samples@.take(samples@.len() as int) =~= samples@);
        }
    }

    /// The consumer at `index` takes the oldest sample out of its channel.
    pub fn take_one(&mut self, index: usize) -> (r: Option<Sample>)
        requires
            index < old(self)@.len(),
        ensures
            final(self)@.len() == old(self)@.len(),
            forall|k: int|
                0 <= k < old(self)@.len() && k != index ==> final(self)@[k] == #[trigger] old(
                    self,
                )@[k],
            old(self)@[index as int].queue.len() == 0 ==> r is None && final(self)@[index as int]
                == old(self)@[index as int],
            old(self)@[index as int].queue.len() > 0 ==> {
                &&& r matches Some(s) && s == old(self)@[index as int].queue[0]
                &&& final(self)@[index as int] == (PortModel {
                    queue: old(self)@[index as int].queue.skip(1),
                    taken: old(self)@[index as int].taken.push(old(self)@[index as int].queue[0]),
                    ..old(self)@[index as int]
                })
            },
            final(self)@[index as int].delivered() == old(self)@[index as int].delivered(),
            old(self).wf() ==> final(self).wf(),
    {
        proof {
            assert(self@[index as int] == self.consumers@[index as int]@);
        }
        let ghost pre = self.consumers@;
        let r = self.consumers[index].take_one();
        proof {
            assert forall|k: int| 0 <= k < self@.len() && k != index implies final(self)@[k]
                == #[trigger] old(self)@[k] by {
                assert(self@[k] == self.consumers@[k]@);
                assert(self.consumers@[k] == pre[k]);
            }
            assert(final(self)@[index as int] == self.consumers@[index as int]@);
            if old(self).wf() {
                assert forall|i: int| 0 <= i < self@.len() implies (#[trigger] self@[i]).wf() by {
                    assert(old(self)@[i].wf());
                }
            }
        }
        r
    }

    /// Abandons the consumer at `index`: its channel is closed and this path
    /// is never delivered to again; every sibling is untouched.
    pub fn close_consumer(&mut self, index: usize)
        requires
            index < old(self)@.len(),
        ensures
            final(self)@.len() == old(self)@.len(),
            forall|k: int|
                0 <= k < old(self)@.len() && k != index ==> final(self)@[k] == #[trigger] old(
                    self,
                )@[k],
            final(self)@[index as int] == (PortModel { live: false, ..old(self)@[index as int] }),
            old(self).wf() ==> final(self).wf(),
    {
        proof {
            assert(self@[index as int] == self.consumers@[index as int]@);
        }
        let ghost pre = self.consumers@;
        self.consumers[index].close();
        proof {
            assert forall|k: int| 0 <= k < self@.len() && k != index implies final(self)@[k]
                == #[trigger] old(self)@[k] by {
                assert(self@[k] == self.consumers@[k]@);
                assert(self.consumers@[k] == pre[k]);
            }
            assert(final(self)@[index as int] == self.consumers@[index as int]@);
            if old(self).wf() {
                assert forall|i: int| 0 <= i < self@.len() implies (#[trigger] self@[i]).wf() by {
                    assert(old(self)@[i].wf());
                }
            }
        }
    }

    /// The loop decision at an iteration boundary: stop once shutdown is
    /// requested; otherwise deliver the available sample, or sleep one short
    /// bounded interval when the ring buffer is empty.
    pub fn poll(&self, sig: &ShutdownSignal, sample_ready: bool) -> (r: BroadcastStep)
        ensures
            r == spec_broadcaster_poll(*sig, sample_ready),
    {
        if sig.is_set() {
            BroadcastStep::Stop
        } else if sample_ready {
            BroadcastStep::Deliver
        } else {
            BroadcastStep::Sleep
        }
    }
}

/// The broadcast loop's decision as a function of its inputs: it stops
/// exactly when shutdown has been requested, and never blocks — with no
/// sample ready it sleeps a bounded interval and polls again.
pub open spec fn spec_broadcaster_poll(sig: ShutdownSignal, sample_ready: bool) -> BroadcastStep {
    if sig.is_fired() {
        BroadcastStep::Stop
    } else if sample_ready {
        BroadcastStep::Deliver
    } else {
        BroadcastStep::Sleep
    }
}

} // verus!
