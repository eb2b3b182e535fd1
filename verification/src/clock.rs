//! Frame timing from a monotonic counter that runs at a fixed frequency.

use vstd::prelude::*;

verus! {

/// A number given as numerator over denominator. It stands for no number
/// when the denominator is zero.
#[derive(Clone, Copy, Debug, PartialEq, Eq, Structural)]
pub struct Fraction {
    pub numerator: u64,
    pub denominator: u64,
}

impl Fraction {
    /// Whether the fraction stands for a number.
    pub open spec fn is_defined(self) -> bool {
        self.denominator != 0
    }

    /// The number the fraction stands for.
    pub open spec fn value(self) -> real
        recommends
            self.is_defined(),
    {
        self.numerator as real / self.denominator as real
    }

    /// One over the fraction. Zero has no reciprocal: for it the answer is
    /// `None`, and nothing is divided.
    pub fn reciprocal(&self) -> (flipped: Option<Fraction>)
        ensures
            self.numerator == 0 <==> flipped is None,
            flipped matches Some(f) ==> {
                &&& f.numerator == self.denominator
                &&& f.denominator == self.numerator
                &&& f.is_defined()
                &&& self.is_defined() ==> f.value() * self.value() == 1real
            },
    {
        if self.numerator == 0 {
            None
        } else {
            proof {
                if self.denominator != 0 {
                    lemma_reciprocal(self.numerator as int, self.denominator as int);
                }
            }
            Some(Fraction { numerator: self.denominator, denominator: self.numerator })
        }
    }
}

/// A fraction of two numbers other than zero, times the fraction turned
/// over, is one.
pub proof fn lemma_reciprocal(a: int, b: int)
    requires
        a != 0,
        b != 0,
    ensures
        (b as real / a as real) * (a as real / b as real) == 1real,
{
    let x = a as real;
    let y = b as real;
    assert((y / x) * (x / y) == 1real) by (nonlinear_arith)
        requires
            x != 0real,
            y != 0real,
    ;
}

/// A clock as a mathematical value: the counts that make one second, and
/// the counter as it stood at the last tick.
pub struct ClockReading {
    pub frequency: int,
    pub last: int,
}

impl ClockReading {
    /// The frequency is above zero, and both numbers are such as a counter
    /// gives.
    pub open spec fn wf(self) -> bool {
        0 < self.frequency <= i64::MAX && i64::MIN <= self.last <= i64::MAX
    }

    /// Counts from the last tick to `counter`. The counter does not run
    /// backwards; a reading below the last one counts as no time at all.
    pub open spec fn counts_until(self, counter: int) -> int {
        if counter >= self.last {
            counter - self.last
        } else {
            0
        }
    }

    /// The time from the last tick to `counter`, in seconds.
    pub open spec fn elapsed(self, counter: i64) -> Fraction {
        Fraction {
            numerator: self.counts_until(counter as int) as u64,
            denominator: self.frequency as u64,
        }
    }

    /// The clock after a tick at `counter`.
    pub open spec fn ticked(self, counter: i64) -> ClockReading {
        ClockReading { last: counter as int, ..self }
    }
}

/// No time is lost between ticks: as long as the counter does not run
/// backwards, the times of two ticks in a row add up to the time from the
/// tick before them to the second.
pub proof fn ticks_add_up(clock: ClockReading, first: i64, second: i64)
    requires
        clock.wf(),
        clock.last <= first <= second,
    ensures
        clock.elapsed(first).value() + clock.ticked(first).elapsed(second).value()
            == clock.elapsed(second).value(),
{
    let a = (first - clock.last) as real;
    let b = (second - first) as real;
    let c = (second - clock.last) as real;
    let f = clock.frequency as real;
    assert(a / f + b / f == c / f) by (nonlinear_arith)
        requires
            a + b == c,
            f != 0real,
    ;
}

/// Measures the time between ticks.
#[derive(Debug)]
pub struct FrameClock {
    frequency: u64,
    last: i64,
}

impl View for FrameClock {
    type V = ClockReading;

    closed spec fn view(&self) -> ClockReading {
        ClockReading { frequency: self.frequency as int, last: self.last as int }
    }
}

impl FrameClock {
    /// Every clock counts at a frequency above zero.
    #[verifier::type_invariant]
    pub open spec fn well_formed(self) -> bool {
        self@.wf()
    }

    /// A clock whose counter makes `frequency` counts a second and stands at
    /// `counter` now. There is no clock without a frequency above zero.
    pub fn new(frequency: i64, counter: i64) -> (clock: Option<FrameClock>)
        ensures
            frequency > 0 <==> clock is Some,
            clock matches Some(c) ==> c@ == (ClockReading {
                frequency: frequency as int,
                last: counter as int,
            }) && c@.wf(),
    {
        if frequency > 0 {
            Some(FrameClock { frequency: frequency as u64, last: counter })
        } else {
            None
        }
    }

    /// Counts that make one second.
    pub fn frequency(&self) -> (frequency: u64)
        ensures
            frequency == self@.frequency,
            frequency > 0,
    {
        proof {
            use_type_invariant(self);
        }
        self.frequency
    }

    /// The time since the last tick, in seconds; the next tick measures from
    /// `counter`.
    pub fn tick(&mut self, counter: i64) -> (elapsed: Fraction)
        ensures
            elapsed == old(self)@.elapsed(counter),
            elapsed.numerator == old(self)@.counts_until(counter as int),
            elapsed.denominator == old(self)@.frequency,
            elapsed.is_defined(),
            final(self)@ == old(self)@.ticked(counter),
            final(self)@.wf(),
    {
        proof {
            use_type_invariant(&*self);
        }
        let counts: u64 = if counter >= self.last {
            (counter as i128 - self.last as i128) as u64
        } else {
            0
        };
        self.last = counter;
        Fraction { numerator: counts, denominator: self.frequency }
    }
}

} // verus!
