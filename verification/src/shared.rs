//! An estimator that the edge callback and the control loop share.

use vstd::prelude::*;
use vstd::rwlock::{RwLock, RwLockPredicate};
use crate::estimator::{largest_sample, Estimator, DEBOUNCE_NANOS, MAX_SAMPLE};

verus! {

/// What the lock keeps true of the estimator inside it: its pulses per
/// revolution never change, and its last edge is never before its start,
/// which is zero for an estimator that has seen no edge.
pub struct Kept {
    pub pulses_per_revolution: nat,
    pub start: nat,
}

impl RwLockPredicate<Estimator> for Kept {
    open spec fn inv(self, estimator: Estimator) -> bool {
        &&& estimator@.pulses_per_revolution == self.pulses_per_revolution
        &&& match estimator@.last_edge {
            Some(last) => last >= self.start,
            None => self.start == 0,
        }
    }
}

/// An estimator behind a lock. One lock guards the time of the last edge and
/// the samples together, so an edge and a drain never overlap: the calls of
/// all contexts take effect one after another, each on the estimator as the
/// one before left it. What holds of every such order is stated on the
/// estimator itself, in `lemma_no_edge_is_lost`.
///
/// To a caller, what a call finds behind the lock is whatever the other
/// contexts left there. So the contracts here state what holds of every
/// estimator that the lock can hold; what a call does to the one that it
/// finds is stated, exactly, on `Estimator`.
pub struct SharedEstimator {
    lock: RwLock<Estimator, Kept>,
}

impl SharedEstimator {
    /// The pulses per revolution that the estimator was made with.
    pub closed spec fn pulses_per_revolution(&self) -> nat {
        self.lock.pred().pulses_per_revolution
    }

    /// The time that the estimator was made with; zero for one made idle.
    pub closed spec fn start(&self) -> nat {
        self.lock.pred().start
    }

    /// A shared estimator that has seen no edge yet and holds no sample;
    /// `pulses_per_revolution` must not be zero. Its first edge starts the
    /// clock and gives no sample.
    pub fn idle(pulses_per_revolution: u32) -> (shared: Option<SharedEstimator>)
        ensures
            shared is Some <==> pulses_per_revolution != 0,
            shared is Some ==> shared.unwrap().pulses_per_revolution() == pulses_per_revolution,
            shared is Some ==> shared.unwrap().start() == 0,
    {
        match Estimator::idle(pulses_per_revolution) {
            Some(estimator) => {
                let ghost kept = Kept {
                    pulses_per_revolution: pulses_per_revolution as nat,
                    start: 0,
                };
                Some(SharedEstimator { lock: RwLock::new(estimator, Ghost(kept)) })
            },
            None => None,
        }
    }

    /// A shared estimator without samples whose last edge was at `start`;
    /// `pulses_per_revolution` must not be zero.
    pub fn new(start: u64, pulses_per_revolution: u32) -> (shared: Option<SharedEstimator>)
        ensures
            shared is Some <==> pulses_per_revolution != 0,
            shared is Some ==> shared.unwrap().pulses_per_revolution() == pulses_per_revolution,
            shared is Some ==> shared.unwrap().start() == start,
    {
        match Estimator::new(start, pulses_per_revolution) {
            Some(estimator) => {
                let ghost kept = Kept {
                    pulses_per_revolution: pulses_per_revolution as nat,
                    start: start as nat,
                };
                Some(SharedEstimator { lock: RwLock::new(estimator, Ghost(kept)) })
            },
            None => None,
        }
    }

    /// Takes note of an edge at `now`, as `Estimator::on_edge` does, on the
    /// estimator as it stands when the lock is taken. Whatever edges came
    /// before, none is accepted within 5 ms of the start.
    pub fn on_edge(&self, now: u64) -> (accepted: bool)
        ensures
            accepted ==> now - self.start() >= DEBOUNCE_NANOS,
    {
        let (mut estimator, handle) = self.lock.acquire_write();
        let accepted = estimator.on_edge(now);
        handle.release_write(estimator);
        accepted
    }

    /// How many samples the estimator holds when the lock is taken.
    pub fn sample_count(&self) -> (count: usize) {
        let handle = self.lock.acquire_read();
        let count = handle.borrow().sample_count();
        handle.release_read();
        count
    }

    /// Drains the estimator as it stands when the lock is taken, as
    /// `Estimator::drain` does: the speed is the mean of the samples that
    /// came since the last drain, and no mean exceeds the largest sample.
    pub fn drain(&self) -> (speed: u64)
        ensures
            speed <= largest_sample(self.pulses_per_revolution() as int) <= MAX_SAMPLE,
    {
        let (mut estimator, handle) = self.lock.acquire_write();
        let speed = estimator.drain();
        handle.release_write(estimator);
        speed
    }
}

} // verus!
