//! The pulse-rate estimator: from tachometer edges to an averaged fan speed.
//!
//! Time is counted in nanoseconds from a start that the caller chooses, fan
//! speed in thousandths of a revolution per minute.
//!
//! A speed is measured between two edges. An estimator that has seen no edge
//! yet has nothing to measure its first edge from: that edge starts the clock
//! and gives no sample.

use vstd::prelude::*;

verus! {

/// Edges that follow the last accepted one by less than this are contact bounce: 5 ms.
pub const DEBOUNCE_NANOS: u64 = 5_000_000;

/// One revolution per minute, in thousandths, times one minute, in nanoseconds.
pub const SPEED_NUMERATOR: u64 = 60_000_000_000_000;

/// No sample is larger: the speed at one pulse per revolution and a 5 ms interval.
pub const MAX_SAMPLE: u64 = 12_000_000;

/// The pulses per revolution of the usual tachometer.
pub const STANDARD_PULSES_PER_REVOLUTION: u32 = 2;

/// What an estimator holds, as mathematical values.
pub struct EstimatorModel {
    /// The time of the last accepted edge; `None` before the first edge.
    pub last_edge: Option<nat>,
    /// The speeds computed since the last drain, oldest first.
    pub samples: Seq<nat>,
    /// How many pulses the tachometer gives per revolution.
    pub pulses_per_revolution: nat,
}

/// The speed at which pulses are `interval` nanoseconds apart: the pulses
/// per second, by the pulses per revolution, times sixty; in thousandths of
/// a revolution per minute, rounded down.
pub open spec fn speed_of_interval(interval: int, pulses_per_revolution: int) -> nat {
    (SPEED_NUMERATOR as int / (interval * pulses_per_revolution)) as nat
}

/// The largest sample that an estimator of so many pulses per revolution can
/// hold: the speed at which pulses are 5 ms apart.
pub open spec fn largest_sample(pulses_per_revolution: int) -> nat {
    speed_of_interval(DEBOUNCE_NANOS as int, pulses_per_revolution)
}

/// An edge at `now` is taken for a pulse and sampled: there is an edge
/// before it, and that one is 5 ms or more back.
pub open spec fn accepts(m: EstimatorModel, now: nat) -> bool {
    m.last_edge matches Some(last) && now - last >= DEBOUNCE_NANOS
}

/// The estimator after an edge at `now`. The first edge starts the clock and
/// gives no sample. An edge that is accepted gives the speed of its interval
/// and becomes the last edge. Any other edge changes nothing.
pub open spec fn after_edge(m: EstimatorModel, now: nat) -> EstimatorModel {
    match m.last_edge {
        None => EstimatorModel {
            last_edge: Some(now),
            samples: m.samples,
            pulses_per_revolution: m.pulses_per_revolution,
        },
        Some(last) => if now - last >= DEBOUNCE_NANOS {
            EstimatorModel {
                last_edge: Some(now),
                samples: m.samples.push(
                    speed_of_interval(now - last, m.pulses_per_revolution as int),
                ),
                pulses_per_revolution: m.pulses_per_revolution,
            }
        } else {
            m
        },
    }
}

/// The estimator after the edges of `edges`, in their order.
pub open spec fn after_edges(m: EstimatorModel, edges: Seq<nat>) -> EstimatorModel
    decreases edges.len(),
{
    if edges.len() == 0 {
        m
    } else {
        after_edge(after_edges(m, edges.drop_last()), edges.last())
    }
}

/// How many of the edges of `edges` are taken for pulses.
pub open spec fn accepted_count(m: EstimatorModel, edges: Seq<nat>) -> nat
    decreases edges.len(),
{
    if edges.len() == 0 {
        0
    } else {
        accepted_count(m, edges.drop_last()) + if accepts(
            after_edges(m, edges.drop_last()),
            edges.last(),
        ) {
            1nat
        } else {
            0nat
        }
    }
}

/// The estimator after a drain.
pub open spec fn drained(m: EstimatorModel) -> EstimatorModel {
    EstimatorModel {
        last_edge: m.last_edge,
        samples: Seq::empty(),
        pulses_per_revolution: m.pulses_per_revolution,
    }
}

/// The sum of `samples`.
pub open spec fn total(samples: Seq<nat>) -> nat
    decreases samples.len(),
{
    if samples.len() == 0 {
        0
    } else {
        total(samples.drop_last()) + samples.last()
    }
}

/// The arithmetic mean of `samples`, rounded down; zero where there is none.
pub open spec fn mean(samples: Seq<nat>) -> nat {
    if samples.len() == 0 {
        0
    } else {
        total(samples) / samples.len()
    }
}

/// The samples of a vector as mathematical values.
pub open spec fn samples_of(v: Seq<u64>) -> Seq<nat> {
    v.map_values(|s: u64| s as nat)
}

/// Edge times as mathematical values.
pub open spec fn times_of(v: Seq<u64>) -> Seq<nat> {
    v.map_values(|t: u64| t as nat)
}

/// `count` samples, all of them `speed`.
pub open spec fn uniform_samples(count: nat, speed: nat) -> Seq<nat> {
    Seq::new(count, |i: int| speed)
}

/// An interval of 5 ms or more gives a speed of at most the largest sample
/// for its pulses per revolution, which is at most `MAX_SAMPLE`.
pub proof fn lemma_speed_bound(interval: int, pulses: int)
    requires
        interval >= DEBOUNCE_NANOS,
        pulses >= 1,
    ensures
        speed_of_interval(interval, pulses) <= largest_sample(pulses) <= MAX_SAMPLE,
{
    let least = DEBOUNCE_NANOS as int * pulses;
    let d = interval * pulses;
    assert(5_000_000 <= least <= d) by (nonlinear_arith)
        requires
            least == 5_000_000 * pulses,
            d == interval * pulses,
            interval >= 5_000_000,
            pulses >= 1,
    ;
    vstd::arithmetic::div_mod::lemma_div_is_ordered_by_denominator(
        SPEED_NUMERATOR as int,
        least,
        d,
    );
    assert(60_000_000_000_000int / least <= 12_000_000) by (nonlinear_arith)
        requires
            least >= 5_000_000,
    ;
    assert(60_000_000_000_000int / d >= 0) by (nonlinear_arith)
        requires
            d >= 5_000_000,
    ;
}

/// Edges that each come less than 5 ms after the last accepted edge are all
/// discarded: the estimator stays as it was, and so does its mean.
pub proof fn lemma_bounce_is_discarded(m: EstimatorModel, edges: Seq<nat>)
    requires
        m.last_edge is Some,
        forall|i: int|
            0 <= i < edges.len() ==> edges[i] - m.last_edge.unwrap() < DEBOUNCE_NANOS,
    ensures
        after_edges(m, edges) == m,
        mean(after_edges(m, edges).samples) == mean(m.samples),
    decreases edges.len(),
{
    if edges.len() > 0 {
        lemma_bounce_is_discarded(m, edges.drop_last());
    }
}

/// No edge is lost and none is counted twice: after any edges the estimator
/// holds one sample more for each edge that was accepted, and the samples
/// that it held before are still there, in their places.
pub proof fn lemma_every_accepted_edge_is_sampled(m: EstimatorModel, edges: Seq<nat>)
    ensures
        after_edges(m, edges).samples.len() == m.samples.len() + accepted_count(m, edges),
        after_edges(m, edges).samples.subrange(0, m.samples.len() as int) == m.samples,
        after_edges(m, edges).pulses_per_revolution == m.pulses_per_revolution,
        m.last_edge matches Some(before) ==> after_edges(m, edges).last_edge matches Some(after)
            && after >= before,
    decreases edges.len(),
{
    if edges.len() == 0 {
        assert(m.samples.subrange(0, m.samples.len() as int) =~= m.samples);
    } else {
        lemma_every_accepted_edge_is_sampled(m, edges.drop_last());
        let before = after_edges(m, edges.drop_last());
        let after = after_edges(m, edges);
        assert(after.samples.subrange(0, m.samples.len() as int) =~= before.samples.subrange(
            0,
            m.samples.len() as int,
        ));
    }
}

proof fn lemma_uniform_run(m: EstimatorModel, interval: nat, edges: Seq<nat>)
    requires
        m.last_edge is Some,
        interval >= DEBOUNCE_NANOS,
        forall|i: int|
            0 <= i < edges.len() ==> edges[i] == m.last_edge.unwrap() + (i + 1) * interval,
    ensures
        after_edges(m, edges) == (EstimatorModel {
            last_edge: Some((m.last_edge.unwrap() + edges.len() * interval) as nat),
            samples: m.samples + uniform_samples(
                edges.len(),
                speed_of_interval(interval as int, m.pulses_per_revolution as int),
            ),
            pulses_per_revolution: m.pulses_per_revolution,
        }),
    decreases edges.len(),
{
    let speed = speed_of_interval(interval as int, m.pulses_per_revolution as int);
    if edges.len() == 0 {
        assert(m.samples + uniform_samples(0, speed) =~= m.samples);
        assert(edges.len() * interval == 0);
    } else {
        let earlier = edges.drop_last();
        let n = earlier.len();
        lemma_uniform_run(m, interval, earlier);
        let before = after_edges(m, earlier);
        assert((n + 1) * interval == n * interval + interval) by (nonlinear_arith);
        assert(edges.last() == m.last_edge.unwrap() + (n + 1) * interval);
        assert(edges.last() - before.last_edge.unwrap() == interval);
        assert((m.samples + uniform_samples(n, speed)).push(speed) =~= m.samples
            + uniform_samples(n + 1, speed));
    }
}

proof fn lemma_uniform_total(count: nat, speed: nat)
    ensures
        total(uniform_samples(count, speed)) == count * speed,
    decreases count,
{
    if count == 0 {
        assert(count * speed == 0);
    } else {
        lemma_uniform_total((count - 1) as nat, speed);
        assert(uniform_samples(count, speed).drop_last() =~= uniform_samples(
            (count - 1) as nat,
            speed,
        ));
        assert((count - 1) * speed + speed == count * speed) by (nonlinear_arith);
    }
}

/// An estimator without samples that takes `count` edges after its last
/// edge, one every `interval` nanoseconds with `interval` at least 5 ms,
/// holds `count` samples whose mean is the speed of that interval; once
/// drained, its mean is zero.
pub proof fn lemma_uniform_edges(m: EstimatorModel, interval: nat, count: nat, edges: Seq<nat>)
    requires
        m.last_edge is Some,
        m.samples.len() == 0,
        interval >= DEBOUNCE_NANOS,
        count >= 1,
        edges.len() == count,
        forall|i: int|
            0 <= i < count ==> edges[i] == m.last_edge.unwrap() + (i + 1) * interval,
    ensures
        after_edges(m, edges).samples.len() == count,
        mean(after_edges(m, edges).samples) == speed_of_interval(
            interval as int,
            m.pulses_per_revolution as int,
        ),
        mean(drained(after_edges(m, edges)).samples) == 0,
{
    let speed = speed_of_interval(interval as int, m.pulses_per_revolution as int);
    lemma_uniform_run(m, interval, edges);
    lemma_uniform_total(count, speed);
    assert(m.samples + uniform_samples(count, speed) =~= uniform_samples(count, speed));
    assert((count * speed) / count == speed) by (nonlinear_arith)
        requires
            count >= 1,
    ;
}

/// What one call does to the estimator: it reports an edge, or it drains.
pub enum Operation {
    Edge(nat),
    Drain,
}

/// The estimator after one call.
pub open spec fn after_operation(m: EstimatorModel, operation: Operation) -> EstimatorModel {
    match operation {
        Operation::Edge(now) => after_edge(m, now),
        Operation::Drain => drained(m),
    }
}

/// The estimator after the calls of `operations`, in their order.
pub open spec fn after_operations(m: EstimatorModel, operations: Seq<Operation>) -> EstimatorModel
    decreases operations.len(),
{
    if operations.len() == 0 {
        m
    } else {
        after_operation(after_operations(m, operations.drop_last()), operations.last())
    }
}

/// How many samples the drains among `operations` took away.
pub open spec fn drained_count(m: EstimatorModel, operations: Seq<Operation>) -> nat
    decreases operations.len(),
{
    if operations.len() == 0 {
        0
    } else {
        drained_count(m, operations.drop_last()) + match operations.last() {
            Operation::Drain => after_operations(m, operations.drop_last()).samples.len(),
            Operation::Edge(_) => 0,
        }
    }
}

/// How many of the edges among `operations` were accepted.
pub open spec fn accepted_among(m: EstimatorModel, operations: Seq<Operation>) -> nat
    decreases operations.len(),
{
    if operations.len() == 0 {
        0
    } else {
        accepted_among(m, operations.drop_last()) + match operations.last() {
            Operation::Edge(now) => if accepts(
                after_operations(m, operations.drop_last()),
                now,
            ) {
                1nat
            } else {
                0nat
            },
            Operation::Drain => 0,
        }
    }
}

/// In whatever order edges and drains take effect, no accepted edge is lost
/// and none is counted twice: the samples that the drains took away and the
/// samples that are still held are, together, the samples held at the start
/// and one for each accepted edge.
pub proof fn lemma_no_edge_is_lost(m: EstimatorModel, operations: Seq<Operation>)
    ensures
        drained_count(m, operations) + after_operations(m, operations).samples.len()
            == m.samples.len() + accepted_among(m, operations),
        after_operations(m, operations).pulses_per_revolution == m.pulses_per_revolution,
    decreases operations.len(),
{
    if operations.len() > 0 {
        lemma_no_edge_is_lost(m, operations.drop_last());
    }
}

proof fn lemma_first_edge_then_rest(m: EstimatorModel, edges: Seq<nat>)
    requires
        edges.len() > 0,
    ensures
        after_edges(m, edges) == after_edges(after_edge(m, edges[0]), edges.skip(1)),
    decreases edges.len(),
{
    if edges.len() == 1 {
        assert(edges.drop_last() =~= Seq::<nat>::empty());
        assert(edges.skip(1) =~= Seq::<nat>::empty());
    } else {
        lemma_first_edge_then_rest(m, edges.drop_last());
        assert(edges.drop_last().skip(1) =~= edges.skip(1).drop_last());
    }
}

/// An estimator that has seen no edge and holds no sample, and then takes
/// `count` edges, two or more, one every `interval` nanoseconds with
/// `interval` at least 5 ms: the first edge starts the clock, each of the
/// others gives a sample, and the mean is the speed of that interval; once
/// drained, its mean is zero.
pub proof fn lemma_uniform_edges_from_idle(
    m: EstimatorModel,
    first: nat,
    interval: nat,
    count: nat,
    edges: Seq<nat>,
)
    requires
        m.last_edge is None,
        m.samples.len() == 0,
        interval >= DEBOUNCE_NANOS,
        count >= 2,
        edges.len() == count,
        forall|i: int| 0 <= i < count ==> edges[i] == first + i * interval,
    ensures
        after_edges(m, edges).samples.len() == count - 1,
        mean(after_edges(m, edges).samples) == speed_of_interval(
            interval as int,
            m.pulses_per_revolution as int,
        ),
        mean(drained(after_edges(m, edges)).samples) == 0,
{
    lemma_first_edge_then_rest(m, edges);
    let started = after_edge(m, edges[0]);
    let rest = edges.skip(1);
    assert(edges[0] == first + 0 * interval);
    assert forall|i: int| 0 <= i < count - 1 implies rest[i] == started.last_edge.unwrap() + (i
        + 1) * interval by {
        assert(rest[i] == edges[i + 1]);
    }
    lemma_uniform_edges(started, interval, (count - 1) as nat, rest);
}

/// The pulse-rate estimator.
#[derive(Debug)]
pub struct Estimator {
    last_edge: Option<u64>,
    samples: Vec<u64>,
    pulses_per_revolution: u32,
}

impl View for Estimator {
    type V = EstimatorModel;

    closed spec fn view(&self) -> EstimatorModel {
        EstimatorModel {
            last_edge: match self.last_edge {
                Some(last) => Some(last as nat),
                None => None,
            },
            samples: samples_of(self.samples@),
            pulses_per_revolution: self.pulses_per_revolution as nat,
        }
    }
}

impl Estimator {
    #[verifier::type_invariant]
    spec fn well_formed(self) -> bool {
        &&& self.pulses_per_revolution >= 1
        &&& forall|i: int|
            0 <= i < self.samples@.len() ==> #[trigger] self.samples@[i] <= largest_sample(
                self.pulses_per_revolution as int,
            )
    }

    /// An estimator that has seen no edge yet and holds no sample, for a
    /// tachometer of `pulses_per_revolution` pulses per revolution, which
    /// must not be zero. Its first edge starts the clock and gives no sample.
    pub fn idle(pulses_per_revolution: u32) -> (estimator: Option<Estimator>)
        ensures
            estimator is Some <==> pulses_per_revolution != 0,
            estimator is Some ==> estimator.unwrap()@ == (EstimatorModel {
                last_edge: None,
                samples: Seq::empty(),
                pulses_per_revolution: pulses_per_revolution as nat,
            }),
    {
        if pulses_per_revolution == 0 {
            None
        } else {
            let estimator = Estimator { last_edge: None, samples: Vec::new(), pulses_per_revolution };
            assert(samples_of(estimator.samples@) =~= Seq::empty());
            Some(estimator)
        }
    }

    /// An estimator without samples whose last edge was at `start`, for a
    /// tachometer of `pulses_per_revolution` pulses per revolution, which
    /// must not be zero: an idle estimator after an edge at `start`.
    pub fn new(start: u64, pulses_per_revolution: u32) -> (estimator: Option<Estimator>)
        ensures
            estimator is Some <==> pulses_per_revolution != 0,
            estimator is Some ==> estimator.unwrap()@ == (EstimatorModel {
                last_edge: Some(start as nat),
                samples: Seq::empty(),
                pulses_per_revolution: pulses_per_revolution as nat,
            }),
    {
        if pulses_per_revolution == 0 {
            None
        } else {
            let estimator = Estimator {
                last_edge: Some(start),
                samples: Vec::new(),
                pulses_per_revolution,
            };
            assert(samples_of(estimator.samples@) =~= Seq::empty());
            Some(estimator)
        }
    }

    /// Takes note of an edge at `now`, and says whether it was sampled. The
    /// first edge starts the clock and gives no sample. After that, an edge
    /// less than 5 ms after the last accepted one changes nothing; any other
    /// adds the speed that its interval gives and becomes the last accepted
    /// edge.
    pub fn on_edge(&mut self, now: u64) -> (accepted: bool)
        ensures
            accepted == accepts(old(self)@, now as nat),
            final(self)@ == after_edge(old(self)@, now as nat),
            !accepted && old(self)@.last_edge is Some ==> final(self)@ == old(self)@,
            !accepted ==> final(self)@.samples == old(self)@.samples,
            final(self)@.samples.len() == old(self)@.samples.len() + if accepted {
                1nat
            } else {
                0nat
            },
    {
        proof {
            use_type_invariant(&*self);
        }
        let last = match self.last_edge {
            Some(last) => last,
            None => {
                self.last_edge = Some(now);
                return false;
            },
        };
        if now < last || now - last < DEBOUNCE_NANOS {
            return false;
        }
        let interval: u64 = now - last;
        let pulses: u64 = self.pulses_per_revolution as u64;
        proof {
            lemma_speed_bound(interval as int, pulses as int);
            assert(1 <= interval * pulses <= 0xffff_ffff_ffff_ffff * 0xffff_ffff) by (nonlinear_arith)
                requires
                    5_000_000 <= interval <= 0xffff_ffff_ffff_ffff,
                    1 <= pulses <= 0xffff_ffff,
            ;
        }
        let divisor: u128 = interval as u128 * pulses as u128;
        let sample: u64 = (SPEED_NUMERATOR as u128 / divisor) as u64;
        let ghost before = self.samples@;
        let mut samples: Vec<u64> = Vec::new();
        std::mem::swap(&mut samples, &mut self.samples);
        samples.push(sample);
        self.samples = samples;
        self.last_edge = Some(now);
        proof {
            assert(samples_of(self.samples@) =~= samples_of(before).push(sample as nat));
        }
        true
    }

    /// Takes note of the edges of `edges`, in their order, and says how many
    /// were accepted.
    pub fn record_edges(&mut self, edges: &[u64]) -> (accepted: usize)
        ensures
            final(self)@ == after_edges(old(self)@, times_of(edges@)),
            accepted == accepted_count(old(self)@, times_of(edges@)),
            final(self)@.samples.len() == old(self)@.samples.len() + accepted,
    {
        let mut accepted: usize = 0;
        let mut i: usize = 0;
        assert(times_of(edges@).subrange(0, 0) =~= Seq::empty());
        while i < edges.len()
            invariant
                i <= edges@.len(),
                accepted <= i,
                self@ == after_edges(old(self)@, times_of(edges@).subrange(0, i as int)),
                accepted == accepted_count(old(self)@, times_of(edges@).subrange(0, i as int)),
                self@.samples.len() == old(self)@.samples.len() + accepted,
            decreases edges@.len() - i,
        {
            proof {
                let next = times_of(edges@).subrange(0, i + 1);
                assert(next.drop_last() =~= times_of(edges@).subrange(0, i as int));
                assert(next.last() == edges@[i as int] as nat);
            }
            if self.on_edge(edges[i]) {
                accepted += 1;
            }
            i += 1;
        }
        assert(times_of(edges@).subrange(0, i as int) =~= times_of(edges@));
        accepted
    }

    /// The mean of the samples, which stay.
    pub fn average(&self) -> (speed: u64)
        ensures
            speed == mean(self@.samples),
            speed <= largest_sample(self@.pulses_per_revolution as int) <= MAX_SAMPLE,
    {
        let ghost bound = largest_sample(self.pulses_per_revolution as int);
        proof {
            use_type_invariant(self);
            lemma_speed_bound(DEBOUNCE_NANOS as int, self.pulses_per_revolution as int);
        }
        let count = self.samples.len();
        if count == 0 {
            return 0;
        }
        let ghost all = samples_of(self.samples@);
        let mut sum: u128 = 0;
        let mut i: usize = 0;
        while i < count
            invariant
                i <= count == self.samples@.len(),
                all == samples_of(self.samples@),
                bound <= MAX_SAMPLE,
                forall|k: int| 0 <= k < self.samples@.len() ==> #[trigger] self.samples@[k] <= bound,
                sum == total(all.subrange(0, i as int)),
                sum <= i * bound,
            decreases count - i,
        {
            proof {
                let next = all.subrange(0, i + 1);
                assert(next.drop_last() =~= all.subrange(0, i as int));
                assert(next.last() == self.samples@[i as int]);
                assert(i * bound + bound == (i + 1) * bound <= 0x1_0000_0000_0000_0000
                    * 12_000_000) by (nonlinear_arith)
                    requires
                        i < 0x1_0000_0000_0000_0000,
                        bound <= 12_000_000,
                ;
            }
            sum = sum + self.samples[i] as u128;
            i += 1;
        }
        proof {
            assert(all.subrange(0, count as int) =~= all);
            assert(sum / (count as u128) <= bound) by (nonlinear_arith)
                requires
                    sum <= count * bound,
                    count > 0,
            ;
        }
        (sum / count as u128) as u64
    }

    /// The mean of the samples, which are then dropped. Without samples the mean is zero.
    pub fn drain(&mut self) -> (speed: u64)
        ensures
            speed == mean(old(self)@.samples),
            speed <= largest_sample(old(self)@.pulses_per_revolution as int) <= MAX_SAMPLE,
            final(self)@ == drained(old(self)@),
            old(self)@.samples.len() == 0 ==> speed == 0,
    {
        proof {
            use_type_invariant(&*self);
        }
        let speed = self.average();
        self.samples = Vec::new();
        proof {
            assert(samples_of(self.samples@) =~= Seq::empty());
        }
        speed
    }

    /// The time of the last accepted edge, if there was an edge.
    pub fn last_edge(&self) -> (time: Option<u64>)
        ensures
            time is Some <==> self@.last_edge is Some,
            time is Some ==> time.unwrap() == self@.last_edge.unwrap(),
    {
        self.last_edge
    }

    /// How many pulses the tachometer gives per revolution.
    pub fn pulses_per_revolution(&self) -> (pulses: u32)
        ensures
            pulses == self@.pulses_per_revolution,
            pulses >= 1,
    {
        proof {
            use_type_invariant(self);
        }
        self.pulses_per_revolution
    }

    /// How many samples have come since the last drain.
    pub fn sample_count(&self) -> (count: usize)
        ensures
            count == self@.samples.len(),
    {
        self.samples.len()
    }
}

} // verus!
