//! The tone generator's state: sample rate, sample clock, frequency, play
//! flag, and the simulated per-batch delay, together with the batch step that
//! feeds synthesized frames into the queue.
//!
//! The frequency is kept exactly. Every change multiplies it by 101/100, so
//! after `steps` changes it is 440 · (101/100)^`steps` Hz, and the state only
//! stores the step count; the exact numerator and denominator follow from it,
//! so no rounding ever accumulates. Turning an amplitude out of the oscillator
//! involves a sine over this ratio, which is the device-side caller's job; the
//! state here determines the phase (the sample clock) and whether frames are
//! emitted at all.

use vstd::arithmetic::power::{
    lemma_pow0, lemma_pow1, lemma_pow_adds, lemma_pow_increases, lemma_pow_positive, pow,
};
use vstd::prelude::*;

use crate::stream::{
    force_pushed_all, lemma_force_pushed_all_snoc, SampleQueue, StereoSample,
};

verus! {

/// The frequency every fresh synthesizer starts at, in Hz.
pub const BASE_FREQUENCY_HZ: u64 = 440;

/// The tone's frequency: 440 · (101/100)^`steps` Hz, held exactly as the
/// number of times it has been raised.
#[derive(Clone, Copy, Debug, PartialEq, Eq, Structural)]
pub struct Frequency {
    pub steps: u64,
}

impl Frequency {
    /// The exact numerator of the frequency in Hz: 440 · 101^steps.
    pub open spec fn numerator(self) -> int {
        440 * pow(101, self.steps as nat)
    }

    /// The exact denominator of the frequency in Hz: 100^steps.
    pub open spec fn denominator(self) -> int {
        pow(100, self.steps as nat)
    }

    /// One frequency change: the step count grows by one, which multiplies
    /// the frequency by 101/100. The count saturates at its type's maximum —
    /// a clamp this prototype accepts in place of unbounded growth.
    pub open spec fn stepped(self) -> Frequency {
        if self.steps < u64::MAX {
            (Frequency { steps: (self.steps + 1) as u64 })
        } else {
            self
        }
    }

    /// `k` frequency changes in a row.
    pub open spec fn stepped_times(self, k: nat) -> Frequency
        decreases k,
    {
        if k == 0 {
            self
        } else {
            self.stepped_times((k - 1) as nat).stepped()
        }
    }

    /// The starting frequency: 440 Hz, no changes applied yet.
    pub fn new() -> (f: Self)
        ensures
            f.steps == 0,
            f.numerator() == 440,
            f.denominator() == 1,
    {
        proof {
            lemma_pow0(101);
            lemma_pow0(100);
        }
        Frequency { steps: 0 }
    }

    /// The frequency stays strictly positive, however often it is changed.
    pub proof fn lemma_positive(self)
        ensures
            self.numerator() > 0,
            self.denominator() > 0,
    {
        lemma_pow_positive(101, self.steps as nat);
        lemma_pow_positive(100, self.steps as nat);
    }

    /// One change multiplies the frequency by exactly 101/100: the changed
    /// and unchanged values satisfy the cross-multiplied identity, and the
    /// changed value is strictly larger.
    pub proof fn lemma_step_ratio(self)
        requires
            self.steps < u64::MAX,
        ensures
            self.stepped().numerator() * self.denominator() * 100 == self.numerator()
                * self.stepped().denominator() * 101,
            self.stepped().numerator() * self.denominator() > self.numerator()
                * self.stepped().denominator(),
    {
        let k = self.steps as nat;
        lemma_pow_adds(101, k, 1);
        lemma_pow_adds(100, k, 1);
        lemma_pow1(101);
        lemma_pow1(100);
        lemma_pow_positive(101, k);
        lemma_pow_positive(100, k);
        let p101 = pow(101, k);
        let p100 = pow(100, k);
        assert(self.stepped().numerator() == 440 * (p101 * 101));
        assert(self.stepped().denominator() == p100 * 100);
        assert((440 * (p101 * 101)) * p100 * 100 == (440 * p101) * (p100 * 100) * 101)
            by (nonlinear_arith);
        assert((440 * (p101 * 101)) * p100 > (440 * p101) * (p100 * 100)) by (nonlinear_arith)
            requires
                p101 > 0,
                p100 > 0,
        ;
    }

    /// `k` repeated changes multiply the frequency by exactly (101/100)^k:
    /// starting from 440 Hz they yield exactly 440 · 101^k / 100^k Hz.
    pub proof fn lemma_repeated_steps_exact(self, k: nat)
        requires
            self.steps + k <= u64::MAX,
        ensures
            self.stepped_times(k).steps == self.steps + k,
            self.stepped_times(k).numerator() == self.numerator() * pow(101, k),
            self.stepped_times(k).denominator() == self.denominator() * pow(100, k),
        decreases k,
    {
        if k == 0 {
            lemma_pow0(101);
            lemma_pow0(100);
        } else {
            let k1 = (k - 1) as nat;
            self.lemma_repeated_steps_exact(k1);
            let prior = self.stepped_times(k1);
            assert(prior.steps < u64::MAX);
            assert(prior.stepped().steps == prior.steps + 1);
            lemma_pow1(101);
            lemma_pow1(100);
            lemma_pow_adds(101, prior.steps as nat, 1);
            lemma_pow_adds(100, prior.steps as nat, 1);
            lemma_pow_adds(101, self.steps as nat, k1);
            lemma_pow_adds(100, self.steps as nat, k1);
            lemma_pow_adds(101, k1, 1);
            lemma_pow_adds(100, k1, 1);
            let s101 = pow(101, self.steps as nat);
            let s100 = pow(100, self.steps as nat);
            let q101 = pow(101, k1);
            let q100 = pow(100, k1);
            assert(prior.stepped().numerator() == 440 * ((s101 * q101) * 101));
            assert(440 * ((s101 * q101) * 101) == (440 * s101) * (q101 * 101))
                by (nonlinear_arith);
            assert(prior.stepped().denominator() == (s100 * q100) * 100);
            assert((s100 * q100) * 100 == s100 * (q100 * 100)) by (nonlinear_arith);
        }
    }

    /// Returns the exact numerator and denominator of the frequency in Hz,
    /// or nothing when the numerator has outgrown the widest machine integer.
    pub fn parts(&self) -> (r: Option<(u128, u128)>)
        ensures
            r matches Some(p) ==> p.0 == self.numerator() && p.1 == self.denominator(),
            self.numerator() <= u128::MAX ==> r is Some,
    {
        let mut n: u128 = 440;
        let mut d: u128 = 1;
        let mut i: u64 = 0;
        proof {
            lemma_pow0(101);
            lemma_pow0(100);
        }
        while i < self.steps
            invariant
                i <= self.steps,
                n == 440 * pow(101, i as nat),
                d == pow(100, i as nat),
                d <= n,
            decreases self.steps - i,
        {
            proof {
                lemma_pow_adds(101, i as nat, 1);
                lemma_pow_adds(100, i as nat, 1);
                lemma_pow1(101);
                lemma_pow1(100);
                lemma_pow_positive(101, i as nat);
                lemma_pow_positive(100, i as nat);
            }
            let next_n = n.checked_mul(101);
            let next_d = d.checked_mul(100);
            if next_n.is_none() || next_d.is_none() {
                proof {
                    self.lemma_overflow_means_no_parts(i as nat, n as int, d as int);
                }
                return None;
            }
            n = next_n.unwrap();
            d = next_d.unwrap();
            proof {
                assert(d <= n) by (nonlinear_arith)
                    requires
                        d == (pow(100, i as nat) * 100),
                        n == (440 * pow(101, i as nat)) * 101,
                        pow(100, i as nat) <= 440 * pow(101, i as nat),
                        pow(100, i as nat) > 0,
                ;
            }
            i = i + 1;
        }
        Some((n, d))
    }

    /// When multiplying the running numerator or denominator out of range at
    /// step `i`, the full numerator is out of range too.
    proof fn lemma_overflow_means_no_parts(self, i: nat, n: int, d: int)
        requires
            i < self.steps,
            n == 440 * pow(101, i),
            d == pow(100, i),
            d <= n,
            n * 101 > u128::MAX || d * 100 > u128::MAX,
        ensures
            self.numerator() > u128::MAX,
    {
        lemma_pow_positive(101, i);
        lemma_pow_positive(100, i);
        assert(d * 100 <= n * 101) by (nonlinear_arith)
            requires
                0 < d <= n,
        ;
        assert(n * 101 > u128::MAX);
        lemma_pow_adds(101, i, 1);
        lemma_pow1(101);
        lemma_pow_increases(101, i + 1, self.steps as nat);
        assert(self.numerator() == 440 * pow(101, self.steps as nat));
        assert(n * 101 == 440 * pow(101, i + 1)) by (nonlinear_arith)
            requires
                n == 440 * pow(101, i),
                pow(101, i + 1) == pow(101, i) * pow(101, 1),
                pow(101, 1) == 101,
        ;
        assert(440 * pow(101, i + 1) <= 440 * pow(101, self.steps as nat)) by (nonlinear_arith)
            requires
                pow(101, i + 1) <= pow(101, self.steps as nat),
        ;
    }
}

/// The sample generator's whole state. The sample clock counts every frame
/// ever synthesized and is the phase reference; pausing stops frame emission
/// but never stops the clock, so phase stays continuous across a resume.
pub struct Synthesizer {
    pub sample_rate: usize,
    pub sample_clock: usize,
    pub frequency: Frequency,
    pub is_playing: bool,
    pub fake_delay: u64,
}

/// The frames a run of mono amplitudes turns into: each amplitude duplicated
/// onto both channels and packed.
pub open spec fn mono_frames(samples: Seq<u32>) -> Seq<u64> {
    samples.map_values(|a: u32| StereoSample::spec_from_mono(a).packed())
}

impl Synthesizer {
    /// Everything that `play` and `pause` must leave alone.
    pub open spec fn agrees_except_playing(self, other: Synthesizer) -> bool {
        &&& self.sample_rate == other.sample_rate
        &&& self.sample_clock == other.sample_clock
        &&& self.frequency == other.frequency
        &&& self.fake_delay == other.fake_delay
    }

    /// A fresh synthesizer: clock at zero, 440 Hz, playing, with one
    /// microsecond of simulated delay.
    pub fn new_with(sample_rate: usize) -> (s: Self)
        requires
            sample_rate >= 1,
        ensures
            s.sample_rate == sample_rate,
            s.sample_clock == 0,
            s.frequency.steps == 0,
            s.is_playing,
            s.fake_delay == 1,
    {
        Synthesizer {
            sample_rate,
            sample_clock: 0,
            frequency: Frequency::new(),
            is_playing: true,
            fake_delay: 1,
        }
    }

    /// Starts emission; clock and frequency are untouched.
    pub fn play(&mut self)
        ensures
            final(self).is_playing,
            final(self).agrees_except_playing(*old(self)),
    {
        self.is_playing = true;
    }

    /// Stops emission; clock and frequency are untouched.
    pub fn pause(&mut self)
        ensures
            !final(self).is_playing,
            final(self).agrees_except_playing(*old(self)),
    {
        self.is_playing = false;
    }

    /// Raises the frequency by one step, multiplying it by 101/100.
    pub fn change_frequency(&mut self)
        ensures
            final(self).frequency == old(self).frequency.stepped(),
            final(self).sample_rate == old(self).sample_rate,
            final(self).sample_clock == old(self).sample_clock,
            final(self).is_playing == old(self).is_playing,
            final(self).fake_delay == old(self).fake_delay,
    {
        if self.frequency.steps < u64::MAX {
            self.frequency = Frequency { steps: self.frequency.steps + 1 };
        }
    }

    /// Returns the current frequency.
    pub fn frequency(&self) -> (f: Frequency)
        ensures
            f == self.frequency,
    {
        self.frequency
    }

    /// Advances the sample clock by one frame.
    fn tick(&mut self)
        requires
            old(self).sample_clock < usize::MAX,
        ensures
            final(self).sample_clock == old(self).sample_clock + 1,
            final(self).sample_rate == old(self).sample_rate,
            final(self).frequency == old(self).frequency,
            final(self).is_playing == old(self).is_playing,
            final(self).fake_delay == old(self).fake_delay,
    {
        self.sample_clock = self.sample_clock + 1;
    }

    /// Feeds one batch of synthesized amplitudes into the queue. Each
    /// amplitude becomes a stereo frame with both channels alike, force-pushed
    /// when playing and discarded when paused, and the sample clock advances
    /// by one per amplitude either way, so synthesis time passes at the same
    /// rate whether or not the tone is audible.
    pub fn generate_audio(&mut self, samples: &Vec<u32>, queue: &mut SampleQueue)
        requires
            old(self).sample_clock + samples@.len() <= usize::MAX,
            old(queue).wf(),
        ensures
            final(self).sample_clock == old(self).sample_clock + samples@.len(),
            final(self).sample_rate == old(self).sample_rate,
            final(self).frequency == old(self).frequency,
            final(self).is_playing == old(self).is_playing,
            final(self).fake_delay == old(self).fake_delay,
            final(queue).wf(),
            final(queue).cap() == old(queue).cap(),
            old(self).is_playing ==> final(queue).contents() == force_pushed_all(
                old(queue).contents(),
                old(queue).cap(),
                mono_frames(samples@),
            ),
            !old(self).is_playing ==> final(queue).contents() == old(queue).contents(),
    {
        let count = samples.len();
        let mut i: usize = 0;
        while i < count
            invariant
                i <= count,
                count == samples@.len(),
                old(self).sample_clock + count <= usize::MAX,
                self.sample_clock == old(self).sample_clock + i,
                self.sample_rate == old(self).sample_rate,
                self.frequency == old(self).frequency,
                self.is_playing == old(self).is_playing,
                self.fake_delay == old(self).fake_delay,
                queue.wf(),
                queue.cap() == old(queue).cap(),
                self.is_playing ==> queue.contents() == force_pushed_all(
                    old(queue).contents(),
                    old(queue).cap(),
                    mono_frames(samples@.take(i as int)),
                ),
                !self.is_playing ==> queue.contents() == old(queue).contents(),
            decreases count - i,
        {
            if self.is_playing {
                let frame = StereoSample::from_mono(samples[i]);
                queue.push_or_evict(frame);
                proof {
                    lemma_force_pushed_all_snoc(
                        old(queue).contents(),
                        old(queue).cap(),
                        mono_frames(samples@.take(i as int)),
                        frame.packed(),
                    );
                    assert(mono_frames(samples@.take(i + 1)) =~= mono_frames(
                        samples@.take(i as int),
                    ).push(frame.packed()));
                }
            }
            self.tick();
            i = i + 1;
        }
        proof {
            assert(samples@.take(count as int) =~= samples@);
        }
    }

    /// Returns the simulated per-batch delay in microseconds.
    pub fn fake_delay(&self) -> (d: u64)
        ensures
            d == self.fake_delay,
    {
        self.fake_delay
    }

    /// Sets the simulated per-batch delay.
    pub fn set_fake_delay(&mut self, fake_delay: u64)
        ensures
            final(self).fake_delay == fake_delay,
            final(self).sample_rate == old(self).sample_rate,
            final(self).sample_clock == old(self).sample_clock,
            final(self).frequency == old(self).frequency,
            final(self).is_playing == old(self).is_playing,
    {
        self.fake_delay = fake_delay;
    }

    /// The delay after one increase: a zero delay becomes one microsecond,
    /// any other doubles. Doubling stops at the top of the range — a clamp
    /// this prototype accepts in place of wrapping.
    pub open spec fn increased_delay(d: u64) -> u64 {
        if d == 0 {
            1u64
        } else if d <= u64::MAX / 2 {
            (d * 2) as u64
        } else {
            d
        }
    }

    /// Doubles the simulated delay, starting from one microsecond when it
    /// was zero.
    pub fn increase_fake_delay(&mut self)
        ensures
            final(self).fake_delay == Synthesizer::increased_delay(old(self).fake_delay),
            final(self).sample_rate == old(self).sample_rate,
            final(self).sample_clock == old(self).sample_clock,
            final(self).frequency == old(self).frequency,
            final(self).is_playing == old(self).is_playing,
    {
        if self.fake_delay == 0 {
            self.fake_delay = 1;
        } else if self.fake_delay <= u64::MAX / 2 {
            self.fake_delay = self.fake_delay * 2;
        }
    }

    /// Halves the simulated delay, flooring at zero.
    pub fn decrease_fake_delay(&mut self)
        ensures
            final(self).fake_delay == old(self).fake_delay / 2,
            final(self).sample_rate == old(self).sample_rate,
            final(self).sample_clock == old(self).sample_clock,
            final(self).frequency == old(self).frequency,
            final(self).is_playing == old(self).is_playing,
    {
        self.fake_delay = self.fake_delay / 2;
    }
}

} // verus!
