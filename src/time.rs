//! Everything that is related to time.
//!
//! Durations and timestamps are counted in nanoseconds. A timestamp is the
//! number of nanoseconds since an origin that the caller picks (usually the
//! start of the program).
use vstd::prelude::*;

verus! {

/// Nanoseconds in one millisecond.
pub const NANOS_PER_MILLI: u64 = 1_000_000;

/// Nanoseconds in one second.
pub const NANOS_PER_SECOND: u64 = 1_000_000_000;

/// A non-negative speed factor, kept as an exact ratio `numerator / denominator`.
#[derive(Debug, Clone, Copy)]
pub struct Speed {
    numerator: u32,
    denominator: u32,
}

impl Speed {
    #[verifier::type_invariant]
    spec fn inv(self) -> bool {
        self.denominator > 0
    }

    /// The numerator of the ratio.
    pub closed spec fn num(self) -> nat {
        self.numerator as nat
    }

    /// The denominator of the ratio (never zero).
    pub closed spec fn den(self) -> nat {
        self.denominator as nat
    }

    /// Whether the speed is exactly normal speed.
    pub open spec fn is_normal(self) -> bool {
        self.num() == self.den()
    }

    /// Whether the speed is at most normal speed.
    pub open spec fn at_most_normal(self) -> bool {
        self.num() <= self.den()
    }

    /// Builds the speed `numerator / denominator`; a zero denominator is refused.
    pub fn new(numerator: u32, denominator: u32) -> (r: Option<Speed>)
        ensures
            r is None <==> denominator == 0,
            r matches Some(s) ==> s.num() == numerator && s.den() == denominator,
    {
        if denominator == 0 {
            None
        } else {
            Some(Speed { numerator, denominator })
        }
    }

    /// Normal speed.
    pub fn one() -> (r: Speed)
        ensures
            r.num() == 1 && r.den() == 1,
    {
        Speed { numerator: 1, denominator: 1 }
    }

    /// A stopped clock.
    pub fn zero() -> (r: Speed)
        ensures
            r.num() == 0 && r.den() == 1,
    {
        Speed { numerator: 0, denominator: 1 }
    }

    pub fn numerator(&self) -> (r: u32)
        ensures
            r == self.num(),
    {
        self.numerator
    }

    pub fn denominator(&self) -> (r: u32)
        ensures
            r == self.den(),
    {
        self.denominator
    }
}


/// A clock: the duration of the last step, and a context that says what kind
/// of clock it is (`()` for the generic one, [`Virtual`] or [`Real`]).
#[derive(Debug, Clone, Copy)]
pub struct Time<T = ()> {
    context: T,
    wrap_period: u64,
    delta: u64,
}

/// One hour: the period after which elapsed time may wrap around.
pub const DEFAULT_WRAP_PERIOD: u64 = 3600 * NANOS_PER_SECOND;

impl<T> Time<T> {
    pub closed spec fn spec_context(self) -> T {
        self.context
    }

    pub closed spec fn spec_wrap_period(self) -> u64 {
        self.wrap_period
    }

    pub closed spec fn spec_delta(self) -> u64 {
        self.delta
    }

    /// Creates a new clock from a specific context, starting from zero.
    pub fn new_with(context: T) -> (r: Self)
        ensures
            r.spec_context() == context,
            r.spec_delta() == 0,
            r.spec_wrap_period() == DEFAULT_WRAP_PERIOD,
    {
        Time { context, wrap_period: DEFAULT_WRAP_PERIOD, delta: 0 }
    }

    pub fn context(&self) -> (r: &T)
        ensures
            *r == self.spec_context(),
    {
        &self.context
    }

    pub fn context_mut(&mut self) -> (r: &mut T)
        ensures
            *r == old(self).spec_context(),
            final(self).spec_context() == *final(r),
            final(self).spec_delta() == old(self).spec_delta(),
            final(self).spec_wrap_period() == old(self).spec_wrap_period(),
    {
        &mut self.context
    }

    /// The duration of the last step, in nanoseconds.
    pub fn delta(&self) -> (r: u64)
        ensures
            r == self.spec_delta(),
    {
        self.delta
    }

    /// The period after which elapsed time may wrap around, in nanoseconds.
    pub fn wrap_period(&self) -> (r: u64)
        ensures
            r == self.spec_wrap_period(),
    {
        self.wrap_period
    }

    /// A context-free copy of this clock.
    pub fn as_generic(&self) -> (r: Time<()>)
        ensures
            r.spec_delta() == self.spec_delta(),
            r.spec_wrap_period() == self.spec_wrap_period(),
    {
        Time { context: (), wrap_period: self.wrap_period, delta: self.delta }
    }

    /// Records `delta` as the duration of the last step.
    pub fn advance_by(&mut self, delta: u64)
        ensures
            final(self).spec_delta() == delta,
            final(self).spec_context() == old(self).spec_context(),
            final(self).spec_wrap_period() == old(self).spec_wrap_period(),
    {
        self.delta = delta;
    }
}


/// The largest step that a virtual clock takes by default: 250 milliseconds.
pub const DEFAULT_MAX_DELTA: u64 = 250 * NANOS_PER_MILLI;

/// The context of the virtual clock: the application-facing time, derived
/// from the real clock with pausing, speed scaling and a bound on each step.
#[derive(Debug, Clone, Copy)]
pub struct Virtual {
    max_delta: u64,
    paused: bool,
    relative_speed: Speed,
    effective_speed: Speed,
}

impl Virtual {
    pub closed spec fn spec_max_delta(self) -> u64 {
        self.max_delta
    }

    pub closed spec fn spec_paused(self) -> bool {
        self.paused
    }

    pub closed spec fn spec_relative_speed(self) -> Speed {
        self.relative_speed
    }

    pub closed spec fn spec_effective_speed(self) -> Speed {
        self.effective_speed
    }

    /// This context with `paused` changed.
    pub closed spec fn with_paused(self, paused: bool) -> Virtual {
        Virtual { paused, ..self }
    }

    /// This context with the relative speed changed.
    pub closed spec fn with_relative_speed(self, speed: Speed) -> Virtual {
        Virtual { relative_speed: speed, ..self }
    }

    /// This context with the bound on steps changed.
    pub closed spec fn with_bound(self, max_delta: u64) -> Virtual {
        Virtual { max_delta, ..self }
    }

    /// A running virtual clock at normal speed whose steps are at most `max_delta`.
    pub fn with_max_delta(max_delta: u64) -> (r: Virtual)
        ensures
            r.spec_max_delta() == max_delta,
            !r.spec_paused(),
            r.spec_relative_speed().num() == 1 && r.spec_relative_speed().den() == 1,
            r.spec_effective_speed().num() == 1 && r.spec_effective_speed().den() == 1,
    {
        Virtual {
            max_delta,
            paused: false,
            relative_speed: Speed::one(),
            effective_speed: Speed::one(),
        }
    }
}

impl Default for Virtual {
    fn default() -> (r: Virtual)
        ensures
            r.spec_max_delta() == DEFAULT_MAX_DELTA,
            !r.spec_paused(),
            r.spec_relative_speed().num() == 1 && r.spec_relative_speed().den() == 1,
            r.spec_effective_speed().num() == 1 && r.spec_effective_speed().den() == 1,
    {
        Virtual::with_max_delta(DEFAULT_MAX_DELTA)
    }
}

/// A raw step bounded by `max_delta`: the excess is dropped.
pub open spec fn clamp_step(raw: u64, max_delta: u64) -> u64 {
    if raw > max_delta {
        max_delta
    } else {
        raw
    }
}

/// A step scaled by `speed`, rounded down and saturated at `u64::MAX`; at
/// exactly normal speed the step is left as it is.
pub open spec fn scale_step(step: u64, speed: Speed) -> u64 {
    if speed.is_normal() {
        step
    } else {
        let q: int = (step as int * speed.num()) / (speed.den() as int);
        if q > u64::MAX {
            u64::MAX
        } else {
            q as u64
        }
    }
}

/// The speed at which a virtual clock runs: zero while paused.
pub open spec fn effective_speed_of(v: Virtual) -> Speed {
    if v.spec_paused() {
        Speed::spec_zero()
    } else {
        v.spec_relative_speed()
    }
}

impl Speed {
    pub closed spec fn spec_zero() -> Speed {
        Speed { numerator: 0, denominator: 1 }
    }

    /// Scales `step` by this speed (see [`scale_step`]).
    pub fn scale(&self, step: u64) -> (r: u64)
        ensures
            r == scale_step(step, *self),
    {
        proof {
            use_type_invariant(self);
        }
        if self.numerator == self.denominator {
            step
        } else {
            let n = self.numerator as u128;
            let d = self.denominator as u128;
            let s = step as u128;
            assert(s * n <= 0xffff_ffff_ffff_ffffu128 * 0xffff_ffffu128) by (nonlinear_arith)
                requires
                    s <= 0xffff_ffff_ffff_ffffu128,
                    n <= 0xffff_ffffu128,
            ;
            let q = (s * n) / d;
            if q > u64::MAX as u128 {
                u64::MAX
            } else {
                q as u64
            }
        }
    }
}

impl Time<Virtual> {
    /// The clock after one step of `raw_delta` nanoseconds of real time.
    pub closed spec fn advanced(self, raw_delta: u64) -> Time<Virtual> {
        let speed = effective_speed_of(self.context);
        Time {
            context: Virtual { effective_speed: speed, ..self.context },
            wrap_period: self.wrap_period,
            delta: scale_step(clamp_step(raw_delta, self.context.max_delta), speed),
        }
    }

    /// Takes one step of the virtual clock from `raw_delta` nanoseconds of
    /// real time: the step is bounded by `max_delta`, then scaled by the
    /// effective speed (zero while paused, the relative speed otherwise).
    pub fn advance_with_raw_delta(&mut self, raw_delta: u64)
        ensures
            *final(self) == old(self).advanced(raw_delta),
            final(self).spec_delta() == scale_step(
                clamp_step(raw_delta, old(self).spec_context().spec_max_delta()),
                effective_speed_of(old(self).spec_context()),
            ),
            final(self).spec_context().spec_effective_speed() == effective_speed_of(
                old(self).spec_context(),
            ),
            final(self).spec_context().spec_max_delta() == old(self).spec_context().spec_max_delta(),
            final(self).spec_context().spec_paused() == old(self).spec_context().spec_paused(),
            final(self).spec_context().spec_relative_speed() == old(
                self,
            ).spec_context().spec_relative_speed(),
            final(self).spec_wrap_period() == old(self).spec_wrap_period(),
    {
        let max_delta = self.context().max_delta;
        let clamped_delta = if raw_delta > max_delta {
            max_delta
        } else {
            raw_delta
        };
        let effective_speed = if self.context().paused {
            Speed::zero()
        } else {
            self.context().relative_speed
        };
        let delta = effective_speed.scale(clamped_delta);
        self.context_mut().effective_speed = effective_speed;
        self.advance_by(delta);
    }
}


impl Time<Virtual> {
    /// Whether the virtual clock is paused.
    pub fn is_paused(&self) -> (r: bool)
        ensures
            r == self.spec_context().spec_paused(),
    {
        self.context.paused
    }

    /// Pauses (`true`) or resumes (`false`) the virtual clock from the next step on.
    pub fn set_paused(&mut self, paused: bool)
        ensures
            final(self).spec_context() == old(self).spec_context().with_paused(paused),
            final(self).spec_delta() == old(self).spec_delta(),
            final(self).spec_wrap_period() == old(self).spec_wrap_period(),
    {
        self.context.paused = paused;
    }

    /// The speed set by the user.
    pub fn relative_speed(&self) -> (r: Speed)
        ensures
            r == self.spec_context().spec_relative_speed(),
    {
        self.context.relative_speed
    }

    /// Sets the speed of the virtual clock relative to real time, from the next step on.
    pub fn set_relative_speed(&mut self, speed: Speed)
        ensures
            final(self).spec_context() == old(self).spec_context().with_relative_speed(speed),
            final(self).spec_delta() == old(self).spec_delta(),
            final(self).spec_wrap_period() == old(self).spec_wrap_period(),
    {
        self.context.relative_speed = speed;
    }

    /// The speed that the last step was taken at.
    pub fn effective_speed(&self) -> (r: Speed)
        ensures
            r == self.spec_context().spec_effective_speed(),
    {
        self.context.effective_speed
    }

    /// The largest step that the virtual clock takes, in nanoseconds.
    pub fn max_delta(&self) -> (r: u64)
        ensures
            r == self.spec_context().spec_max_delta(),
    {
        self.context.max_delta
    }

    /// Sets the largest step that the virtual clock takes, from the next step on.
    pub fn set_max_delta(&mut self, max_delta: u64)
        ensures
            final(self).spec_context() == old(self).spec_context().with_bound(max_delta),
            final(self).spec_delta() == old(self).spec_delta(),
            final(self).spec_wrap_period() == old(self).spec_wrap_period(),
    {
        self.context.max_delta = max_delta;
    }
}

/// A step of the virtual clock is never longer than its bound when the clock
/// runs at most at normal speed, and it is zero while the clock is paused,
/// whatever its speed.
pub proof fn lemma_step_bounded(t: Time<Virtual>, raw_delta: u64)
    requires
        t.spec_context().spec_paused() || t.spec_context().spec_relative_speed().at_most_normal(),
    ensures
        t.advanced(raw_delta).spec_delta() <= t.spec_context().spec_max_delta(),
        t.spec_context().spec_paused() ==> t.advanced(raw_delta).spec_delta() == 0,
{
    let speed = effective_speed_of(t.spec_context());
    let c = clamp_step(raw_delta, t.spec_context().spec_max_delta());
    if !speed.is_normal() {
        let n = speed.num() as int;
        let d = speed.den() as int;
        assert((c as int * n) / d <= c as int) by (nonlinear_arith)
            requires
                0 <= n <= d,
                d > 0,
                c >= 0,
        {
            assert(c as int * n <= c as int * d);
            vstd::arithmetic::div_mod::lemma_div_is_ordered(c as int * n, c as int * d, d);
            vstd::arithmetic::div_mod::lemma_div_by_multiple(c as int, d);
        }
    }
}

/// At exactly normal speed, and not paused, a step of the virtual clock is the
/// bounded real step, unscaled.
pub proof fn lemma_step_normal_speed(t: Time<Virtual>, raw_delta: u64)
    requires
        !t.spec_context().spec_paused(),
        t.spec_context().spec_relative_speed().is_normal(),
    ensures
        t.advanced(raw_delta).spec_delta() == clamp_step(
            raw_delta,
            t.spec_context().spec_max_delta(),
        ),
{
}

/// The context of the real clock: the instants of its first and last update.
#[derive(Debug, Clone, Copy)]
pub struct Real {
    startup: u64,
    first_update: Option<u64>,
    last_update: Option<u64>,
}

impl Real {
    pub closed spec fn spec_startup(self) -> u64 {
        self.startup
    }

    pub closed spec fn spec_first_update(self) -> Option<u64> {
        self.first_update
    }

    pub closed spec fn spec_last_update(self) -> Option<u64> {
        self.last_update
    }

    /// The instant that the clock was started at.
    pub fn startup(&self) -> (r: u64)
        ensures
            r == self.spec_startup(),
    {
        self.startup
    }

    /// The instant of the first update, if there was one.
    pub fn first_update(&self) -> (r: Option<u64>)
        ensures
            r == self.spec_first_update(),
    {
        self.first_update
    }

    /// The instant of the last update, if there was one.
    pub fn last_update(&self) -> (r: Option<u64>)
        ensures
            r == self.spec_last_update(),
    {
        self.last_update
    }
}

impl Default for Real {
    fn default() -> (r: Real)
        ensures
            r.spec_startup() == 0,
            r.spec_first_update() is None,
            r.spec_last_update() is None,
    {
        Real { startup: 0, first_update: None, last_update: None }
    }
}

/// The time elapsed from `last` to `now`; zero if the clock went backwards.
pub open spec fn elapsed(last: u64, now: u64) -> u64 {
    if now >= last {
        (now - last) as u64
    } else {
        0
    }
}

impl Time<Real> {
    /// A real clock started at `startup` that has not been updated yet.
    pub fn new(startup: u64) -> (r: Self)
        ensures
            r.spec_context().spec_startup() == startup,
            r.spec_context().spec_first_update() is None,
            r.spec_context().spec_last_update() is None,
            r.spec_delta() == 0,
            r.spec_wrap_period() == DEFAULT_WRAP_PERIOD,
    {
        Self::new_with(Real { startup, first_update: None, last_update: None })
    }

    /// The clock after an update at `instant`.
    pub closed spec fn ticked(self, instant: u64) -> Time<Real> {
        match self.context.last_update {
            None => Time {
                context: Real {
                    first_update: Some(instant),
                    last_update: Some(instant),
                    ..self.context
                },
                delta: 0,
                ..self
            },
            Some(last) => Time {
                context: Real { last_update: Some(instant), ..self.context },
                delta: elapsed(last, instant),
                ..self
            },
        }
    }

    /// Updates the real clock at `instant`. The first update records the
    /// instant and gives a zero step; each later one gives the time elapsed
    /// since the previous update (zero if the clock went backwards).
    pub fn update_with_instant(&mut self, instant: u64)
        ensures
            *final(self) == old(self).ticked(instant),
            final(self).spec_delta() == match old(self).spec_context().spec_last_update() {
                None => 0,
                Some(last) => elapsed(last, instant),
            },
            final(self).spec_context().spec_last_update() == Some(instant),
            final(self).spec_context().spec_first_update() == if old(
                self,
            ).spec_context().spec_last_update() is None {
                Some(instant)
            } else {
                old(self).spec_context().spec_first_update()
            },
            final(self).spec_context().spec_startup() == old(self).spec_context().spec_startup(),
            final(self).spec_wrap_period() == old(self).spec_wrap_period(),
    {
        match self.context.last_update {
            None => {
                let context = self.context_mut();
                context.first_update = Some(instant);
                context.last_update = Some(instant);
                self.advance_by(0);
            },
            Some(last_update) => {
                let delta = if instant >= last_update {
                    instant - last_update
                } else {
                    0
                };
                self.advance_by(delta);
                self.context_mut().last_update = Some(instant);
            },
        }
    }
}

/// Three updates of a fresh real clock at increasing instants give a zero
/// step, then the time between the first two instants, then the time between
/// the last two.
pub proof fn lemma_real_steps(clock: Time<Real>, t0: u64, t1: u64, t2: u64)
    requires
        clock.spec_context().spec_last_update() is None,
        t0 < t1 < t2,
    ensures
        clock.ticked(t0).spec_delta() == 0,
        clock.ticked(t0).ticked(t1).spec_delta() == t1 - t0,
        clock.ticked(t0).ticked(t1).ticked(t2).spec_delta() == t2 - t1,
{
}

/// Advances the virtual clock by the last step of the real clock, and copies
/// the result into the generic clock.
pub fn update_time(current: &mut Time, virt: &mut Time<Virtual>, real_time: &Time<Real>)
    ensures
        *final(virt) == old(virt).advanced(real_time.spec_delta()),
        final(current).spec_delta() == final(virt).spec_delta(),
        final(current).spec_wrap_period() == final(virt).spec_wrap_period(),
{
    let raw_delta = real_time.delta();
    virt.advance_with_raw_delta(raw_delta);
    *current = virt.as_generic();
}

impl Default for Time<()> {
    fn default() -> (r: Time<()>)
        ensures
            r.spec_delta() == 0,
            r.spec_wrap_period() == DEFAULT_WRAP_PERIOD,
    {
        Time::new_with(())
    }
}

impl Default for Time<Virtual> {
    fn default() -> (r: Time<Virtual>)
        ensures
            r.spec_delta() == 0,
            r.spec_wrap_period() == DEFAULT_WRAP_PERIOD,
            r.spec_context().spec_max_delta() == DEFAULT_MAX_DELTA,
            !r.spec_context().spec_paused(),
            r.spec_context().spec_relative_speed().is_normal(),
    {
        Time::new_with(Virtual::default())
    }
}

impl Default for Time<Real> {
    fn default() -> (r: Time<Real>)
        ensures
            r.spec_delta() == 0,
            r.spec_context().spec_startup() == 0,
            r.spec_context().spec_last_update() is None,
    {
        Time::new(0)
    }
}

} // verus!
