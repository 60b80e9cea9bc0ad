//! Round-trip latency of the link, measured between a reset and the
//! completion of a ping, and smoothed over the samples.
//!
//! Times are whole nanoseconds. The tracker reads a monotonic clock of its
//! own; every operation that reads it has a twin that takes the time as an
//! argument and is exact.

use crate::ema::{lemma_smoothed_between, smooth, smoothed, WEIGHT_ONE};
use std::time::{Duration, Instant};
use vstd::prelude::*;

verus! {

/// `std::time::Instant`, a reading of the monotonic clock. Nothing is known
/// of a value of it.
#[verifier::external_type_specification]
#[verifier::external_body]
pub struct ExInstant(Instant);

/// `Instant::now` reads the clock. Nothing is claimed of the reading.
pub assume_specification[ Instant::now ]() -> Instant;

/// `Instant::elapsed` gives the time since the reading was made. Nothing is
/// claimed of it.
pub assume_specification[ Instant::elapsed ](origin: &Instant) -> Duration;

/// `Duration::as_nanos` gives a duration in whole nanoseconds. Nothing is
/// claimed of the number.
pub assume_specification[ Duration::as_nanos ](duration: &Duration) -> u128;

/// The latency tracker as a mathematical value.
pub ghost struct PingModel {
    /// Time of the last reset.
    pub ping_instant: nat,
    /// Last round-trip sample.
    pub ping_time: nat,
    /// Smoothing weight, in billionths.
    pub alpha: nat,
    /// Smoothed round-trip estimate.
    pub ping_time_ema: nat,
}

/// What can happen to a tracker, with the time at which it happens.
pub ghost enum PingEvent {
    /// A ping leaves: the timer restarts.
    Reset(nat),
    /// A ping has completed, or is given up: sample, smooth, restart.
    Update(nat),
}

impl PingModel {
    pub open spec fn wf(self) -> bool {
        self.alpha <= WEIGHT_ONE
    }

    /// A tracker whose clock has just started.
    pub open spec fn start(alpha: nat) -> PingModel {
        PingModel {
            ping_instant: 0,
            ping_time: 0,
            alpha: if alpha <= WEIGHT_ONE {
                alpha
            } else {
                WEIGHT_ONE as nat
            },
            ping_time_ema: 0,
        }
    }

    /// The time from the last reset to `now`; zero where `now` lies before
    /// the reset.
    pub open spec fn elapsed(self, now: nat) -> nat {
        if now >= self.ping_instant {
            (now - self.ping_instant) as nat
        } else {
            0
        }
    }

    /// The timer restarts at `now`; the sample and the estimate stay.
    pub open spec fn reset_at(self, now: nat) -> PingModel {
        PingModel { ping_instant: now, ..self }
    }

    /// The time since the last reset becomes the sample, the estimate is
    /// smoothed with it, and the timer restarts at `now`.
    pub open spec fn update_at(self, now: nat) -> PingModel {
        PingModel {
            ping_instant: now,
            ping_time: self.elapsed(now),
            alpha: self.alpha,
            ping_time_ema: smoothed(self.alpha, self.elapsed(now), self.ping_time_ema),
        }
    }

    pub open spec fn apply(self, event: PingEvent) -> PingModel {
        match event {
            PingEvent::Reset(now) => self.reset_at(now),
            PingEvent::Update(now) => self.update_at(now),
        }
    }

    /// The tracker after a sequence of events, taken in order.
    pub open spec fn run(self, events: Seq<PingEvent>) -> PingModel
        decreases events.len(),
    {
        if events.len() == 0 {
            self
        } else {
            self.run(events.drop_last()).apply(events.last())
        }
    }
}

/// A reset that is followed by an update gives the time between the two as
/// the sample, and the estimate smoothed with that sample: `alpha` times the
/// sample plus one minus `alpha` times the estimate before.
pub proof fn lemma_reset_then_update(m: PingModel, reset: nat, update: nat)
    requires
        reset <= update,
    ensures
        m.reset_at(reset).update_at(update).ping_time == update - reset,
        m.reset_at(reset).update_at(update).ping_time_ema == smoothed(
            m.alpha,
            (update - reset) as nat,
            m.ping_time_ema,
        ),
        m.reset_at(reset).update_at(reset).ping_time == 0,
{
}

/// No event changes the weight.
pub proof fn lemma_run_keeps_weight(m: PingModel, events: Seq<PingEvent>)
    ensures
        m.run(events).alpha == m.alpha,
    decreases events.len(),
{
    if events.len() > 0 {
        lemma_run_keeps_weight(m, events.drop_last());
    }
}

/// With weight zero the estimate never moves, whatever happens and
/// whenever.
pub proof fn lemma_zero_weight_keeps_estimate(m: PingModel, events: Seq<PingEvent>)
    requires
        m.alpha == 0,
    ensures
        m.run(events).ping_time_ema == m.ping_time_ema,
    decreases events.len(),
{
    if events.len() > 0 {
        let before = m.run(events.drop_last());
        lemma_zero_weight_keeps_estimate(m, events.drop_last());
        lemma_run_keeps_weight(m, events.drop_last());
        match events.last() {
            PingEvent::Reset(_) => {},
            PingEvent::Update(now) => {
                crate::ema::lemma_smoothed_zero_weight(before.elapsed(now), before.ping_time_ema);
            },
        }
    }
}

/// With weight one the estimate is the most recent sample: after every
/// update, and from then on.
pub proof fn lemma_full_weight_follows_sample(m: PingModel, events: Seq<PingEvent>)
    requires
        m.alpha == WEIGHT_ONE,
        exists|i: int| 0 <= i < events.len() && events[i] is Update,
    ensures
        m.run(events).ping_time_ema == m.run(events).ping_time,
    decreases events.len(),
{
    let before = m.run(events.drop_last());
    lemma_run_keeps_weight(m, events.drop_last());
    match events.last() {
        PingEvent::Reset(_) => {
            let i = choose|i: int| 0 <= i < events.len() && events[i] is Update;
            assert(events.drop_last()[i] is Update);
            lemma_full_weight_follows_sample(m, events.drop_last());
        },
        PingEvent::Update(now) => {
            crate::ema::lemma_smoothed_full_weight(before.elapsed(now), before.ping_time_ema);
        },
    }
}

/// The estimate never leaves the range that the estimate before and the
/// new sample span.
pub proof fn lemma_update_between(m: PingModel, now: nat)
    requires
        m.wf(),
    ensures
        m.elapsed(now) <= m.ping_time_ema ==> m.elapsed(now) <= m.update_at(now).ping_time_ema
            <= m.ping_time_ema,
        m.ping_time_ema <= m.elapsed(now) ==> m.ping_time_ema <= m.update_at(now).ping_time_ema
            <= m.elapsed(now),
{
    lemma_smoothed_between(m.alpha, m.elapsed(now), m.ping_time_ema);
}

/// Round-trip time of the pings on a link.
pub struct LinkIvyPing {
    /// Where the tracker's clock starts.
    origin: Instant,
    /// Time of the last reset, since the origin.
    ping_instant: u64,
    /// Last round-trip sample.
    ping_time: u64,
    /// Smoothing weight, in billionths.
    alpha: u32,
    /// Smoothed round-trip estimate.
    ping_time_ema: u64,
}

impl View for LinkIvyPing {
    type V = PingModel;

    closed spec fn view(&self) -> PingModel {
        PingModel {
            ping_instant: self.ping_instant as nat,
            ping_time: self.ping_time as nat,
            alpha: self.alpha as nat,
            ping_time_ema: self.ping_time_ema as nat,
        }
    }
}

impl LinkIvyPing {
    #[verifier::type_invariant]
    spec fn inv(&self) -> bool {
        self.alpha <= WEIGHT_ONE
    }

    /// A tracker with smoothing weight `alpha`, in billionths; a weight
    /// above one counts as one. Its clock starts now, and so does its timer.
    pub fn new(alpha: u32) -> (ping: LinkIvyPing)
        ensures
            ping@ == PingModel::start(alpha as nat),
            ping@.wf(),
    {
        LinkIvyPing {
            origin: Instant::now(),
            ping_instant: 0,
            ping_time: 0,
            alpha: if alpha <= WEIGHT_ONE {
                alpha
            } else {
                WEIGHT_ONE
            },
            ping_time_ema: 0,
        }
    }

    /// The time on the tracker's clock; it stops at the largest value that
    /// fits.
    fn now(&self) -> u64 {
        nanos_on_clock(self.origin.elapsed().as_nanos())
    }

    /// Last round-trip sample, in nanoseconds.
    pub fn ping_time(&self) -> (sample: u64)
        ensures
            sample == self@.ping_time,
    {
        self.ping_time
    }

    /// Smoothing weight, in billionths.
    pub fn alpha(&self) -> (alpha: u32)
        ensures
            alpha == self@.alpha,
            alpha <= WEIGHT_ONE,
    {
        proof {
            use_type_invariant(self);
        }
        self.alpha
    }

    /// Smoothed round-trip estimate, in nanoseconds.
    pub fn ping_time_ema(&self) -> (estimate: u64)
        ensures
            estimate == self@.ping_time_ema,
    {
        self.ping_time_ema
    }

    /// Restarts the timer at `now`, a time on any clock that the caller
    /// keeps to.
    pub fn reset_at(&mut self, now: u64)
        ensures
            final(self)@ == old(self)@.reset_at(now as nat),
    {
        proof {
            use_type_invariant(&*self);
        }
        self.ping_instant = now;
    }

    /// Takes the time from the last reset to `now` as the sample, smooths
    /// the estimate with it, and restarts the timer at `now`.
    pub fn update_at(&mut self, now: u64)
        ensures
            final(self)@ == old(self)@.update_at(now as nat),
    {
        proof {
            use_type_invariant(&*self);
        }
        let sample = if now >= self.ping_instant {
            now - self.ping_instant
        } else {
            0
        };
        self.ping_time = sample;
        self.ping_time_ema = smooth(self.alpha, sample, self.ping_time_ema);
        self.ping_instant = now;
    }

    /// Restarts the timer: a ping leaves now.
    pub fn reset(&mut self)
        ensures
            exists|now: nat| final(self)@ == old(self)@.reset_at(now),
    {
        let now = self.now();
        self.reset_at(now);
    }

    /// Records a round trip that ends now, or a ping that is given up now:
    /// the time since the last reset is the sample, the estimate is smoothed
    /// with it, and the timer restarts.
    pub fn update(&mut self)
        ensures
            exists|now: nat| final(self)@ == old(self)@.update_at(now),
    {
        let now = self.now();
        self.update_at(now);
    }

    /// Records the round trip that the bus reports as completed. The
    /// arguments of the message are not looked at; the tracker does what
    /// `update` does.
    pub fn callback_ping(&mut self, _args: Vec<String>)
        ensures
            exists|now: nat| final(self)@ == old(self)@.update_at(now),
    {
        self.update();
    }
}

/// A time of `elapsed` nanoseconds as the tracker counts it: the same
/// number, or the largest that a time can hold where `elapsed` is beyond it.
pub open spec fn clock_time(elapsed: u128) -> u64 {
    if elapsed > u64::MAX {
        u64::MAX
    } else {
        elapsed as u64
    }
}

/// The time on a tracker's clock when `elapsed` nanoseconds have passed
/// since its origin. The clock stops at the largest value that fits, some
/// five hundred and eighty years on.
pub fn nanos_on_clock(elapsed: u128) -> (now: u64)
    ensures
        now == clock_time(elapsed),
{
    if elapsed > u64::MAX as u128 {
        u64::MAX
    } else {
        elapsed as u64
    }
}

} // verus!
