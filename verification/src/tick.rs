//! Ticks: the clock of the media framework, in microseconds.

use vstd::prelude::*;
use crate::text::{decimal, push_char, push_decimal};

verus! {

/// The clock frequency: ticks per second.
pub const CLOCK_FREQ: u64 = 1_000_000u64;

/// A date or a time interval with microsecond precision.
#[derive(PartialEq, Eq, PartialOrd, Ord, Copy, Clone, Debug, Structural)]
pub struct Tick(pub i64);

/// A number of milliseconds, already scaled to ticks.
#[derive(Debug, Copy, Clone, PartialEq, Eq, PartialOrd, Ord, Structural)]
pub struct Miliseconds(pub i64);

impl Miliseconds {
    /// The ticks that `a` milliseconds last.
    pub open spec fn spec_from_u32(a: u32) -> Miliseconds {
        Miliseconds((1000 * a) as i64)
    }

    /// Converts a count of milliseconds.
    pub fn from_u32(a: u32) -> (m: Miliseconds)
        ensures
            m == Self::spec_from_u32(a),
            m.0 == 1000 * a,
    {
        let a64: i64 = a as i64;
        Miliseconds(1000 * a64)
    }
}

/// The value that an unsigned 64-bit integer has when its bits are read as a
/// signed one.
pub open spec fn wrap_i64(v: int) -> int {
    if v <= i64::MAX {
        v
    } else {
        v - 0x1_0000_0000_0000_0000
    }
}

/// Reads the bits of an unsigned integer as a signed one.
pub fn u64_to_i64(v: u64) -> (r: i64)
    ensures
        r == wrap_i64(v as int),
{
    if v <= 0x7fff_ffff_ffff_ffff {
        v as i64
    } else {
        let low: u64 = v - 0x8000_0000_0000_0000;
        (low as i64) + i64::MIN
    }
}

/// Samples to ticks, for callers that hold ticks as plain integers.
pub fn tick_from_samples(samples: u64, samp_rate: u64) -> (t: i64)
    requires
        samp_rate != 0,
        CLOCK_FREQ * samples <= u64::MAX,
    ensures
        t == wrap_i64(Tick::spec_from_samples(samples, samp_rate)),
{
    Tick::from_samples(samples, samp_rate).0
}

impl Tick {
    /// The origin of the clock.
    pub open spec fn spec_zero() -> Tick {
        Tick(1)
    }

    /// The origin of the clock (the framework reserves 0 for "invalid").
    pub fn zero() -> (t: Tick)
        ensures
            t == Self::spec_zero(),
    {
        Tick(1)
    }

    /// The tick that stands for "no date".
    pub fn invalid() -> (t: Tick)
        ensures
            t.0 == 0,
    {
        Tick(0)
    }

    /// The largest tick.
    pub fn max() -> (t: Tick)
        ensures
            t.0 == i64::MAX,
    {
        Tick(i64::MAX)
    }

    /// Milliseconds to ticks.
    pub fn from_miliseconds(ms: Miliseconds) -> (t: Tick)
        ensures
            t.0 == ms.0,
    {
        Tick(ms.0)
    }

    /// The later of two ticks.
    pub open spec fn spec_later(self, other: Tick) -> Tick {
        if self.0 >= other.0 {
            self
        } else {
            other
        }
    }

    /// The later of two ticks.
    pub fn later(self, other: Tick) -> (t: Tick)
        ensures
            t == self.spec_later(other),
    {
        if self.0 >= other.0 {
            self
        } else {
            other
        }
    }

    /// The ticks that `samples` samples last at `rate` samples per second,
    /// rounded down.
    pub open spec fn spec_from_samples(samples: u64, rate: u64) -> int {
        (CLOCK_FREQ * samples) / (rate as int)
    }

    /// Samples to ticks. A quotient beyond `i64::MAX` wraps around, as the
    /// conversion of an unsigned to a signed 64-bit integer does.
    pub fn from_samples(samples: u64, rate: u64) -> (t: Tick)
        requires
            rate != 0,
            CLOCK_FREQ * samples <= u64::MAX,
        ensures
            t.0 == wrap_i64(Self::spec_from_samples(samples, rate)),
    {
        let product: u64 = CLOCK_FREQ * samples;
        let q: u64 = product / rate;
        Tick(u64_to_i64(q))
    }
}

/// A number below a hundred in two digits.
pub open spec fn two_digits(n: nat) -> Seq<char> {
    if n < 10 {
        seq!['0'] + decimal(n)
    } else {
        decimal(n)
    }
}

/// The magnitude of a tick count.
pub open spec fn magnitude(v: int) -> nat {
    if v < 0 {
        (-v) as nat
    } else {
        v as nat
    }
}

impl Tick {
    /// The tick as a duration in text: `-` for a negative one, then
    /// `h:mm:ss` where there are hours, else `mm:ss`. Parts of a second are
    /// dropped.
    pub open spec fn spec_to_string(self) -> Seq<char> {
        let total_seconds = magnitude(self.0 as int) / (CLOCK_FREQ as nat);
        let seconds = total_seconds % 60;
        let minutes = (total_seconds / 60) % 60;
        let total_hours = total_seconds / 3600;
        let sign = if self.0 < 0 {
            seq!['-']
        } else {
            Seq::empty()
        };
        let clock = two_digits(minutes) + seq![':'] + two_digits(seconds);
        if total_hours > 0 {
            sign + decimal(total_hours) + seq![':'] + clock
        } else {
            sign + clock
        }
    }

    /// Writes the tick as a duration.
    pub fn to_string(&self) -> (s: String)
        ensures
            s@ == self.spec_to_string(),
    {
        let ticks: u64 = if self.0 < 0 {
            if self.0 == i64::MIN {
                0x8000_0000_0000_0000
            } else {
                (-self.0) as u64
            }
        } else {
            self.0 as u64
        };
        let total_seconds: u64 = ticks / CLOCK_FREQ;
        let seconds: u64 = total_seconds % 60;
        let total_minutes: u64 = total_seconds / 60;
        let minutes: u64 = total_minutes % 60;
        let total_hours: u64 = total_minutes / 60;
        assert(total_hours == total_seconds / 3600);
        let mut s: String = String::new();
        if self.0 < 0 {
            push_char(&mut s, '-');
        }
        let ghost sign: Seq<char> = s@;
        assert(sign =~= if self.0 < 0 {
            seq!['-']
        } else {
            Seq::empty()
        });
        if total_hours > 0 {
            push_decimal(&mut s, total_hours);
            push_char(&mut s, ':');
        }
        let ghost head: Seq<char> = s@;
        if minutes < 10 {
            push_char(&mut s, '0');
        }
        push_decimal(&mut s, minutes);
        push_char(&mut s, ':');
        if seconds < 10 {
            push_char(&mut s, '0');
        }
        push_decimal(&mut s, seconds);
        proof {
            let clock = two_digits(minutes as nat) + seq![':'] + two_digits(seconds as nat);
            assert(s@ =~= head + clock);
            if total_hours > 0 {
                assert(head =~= sign + decimal(total_hours as nat) + seq![':']);
                assert(head + clock =~= sign + decimal(total_hours as nat) + seq![':'] + clock);
            } else {
                assert(head =~= sign);
            }
        }
        s
    }
}

/// A date that advances by a fraction of a second at a time.
#[derive(Debug, Copy, Clone, PartialEq, Eq, Structural)]
pub struct Date {
    pub date: Tick,
    pub i_divider_num: u32,
    pub i_divider_den: u32,
    pub i_remainder: u32,
}

impl Date {
    /// Creates a date at tick zero with the rate `num / den`.
    pub fn new(num: u32, den: u32) -> (d: Date)
        ensures
            d == (Date { date: Tick(0), i_divider_num: num, i_divider_den: den, i_remainder: 0 }),
    {
        Date { date: Tick(0), i_divider_num: num, i_divider_den: den, i_remainder: 0 }
    }

    /// Changes the rate. What is left over of the last step is scaled to the
    /// new numerator.
    pub fn change(&mut self, num: u32, den: u32)
        requires
            old(self).i_divider_num != 0,
            old(self).i_remainder * num <= u32::MAX,
        ensures
            *final(self) == (Date {
                i_remainder: ((old(self).i_remainder * num) / (old(
                    self,
                ).i_divider_num as int)) as u32,
                i_divider_num: num,
                i_divider_den: den,
                ..*old(self)
            }),
    {
        let scaled: u32 = self.i_remainder * num;
        self.i_remainder = scaled / self.i_divider_num;
        self.i_divider_num = num;
        self.i_divider_den = den;
    }

    /// Sets the date to a tick and drops what was left over.
    pub fn set(&mut self, tick: Tick)
        ensures
            *final(self) == (Date { date: tick, i_remainder: 0, ..*old(self) }),
    {
        self.i_remainder = 0;
        self.date = tick;
    }

    /// The tick of the date.
    pub fn get(&self) -> (t: Tick)
        ensures
            t == self.date,
    {
        self.date
    }
}

} // verus!
