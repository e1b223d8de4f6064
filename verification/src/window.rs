//! Fixed-length windows with overlap.
//!
//! A [`WindowAccumulator`] collects the mono samples of one source. Once it holds a
//! whole window it hands the window out and keeps the tail of what it held, so that
//! consecutive windows share part of their audio.

use vstd::prelude::*;

verus! {

/// Numerator of the fraction of a window that is kept as overlap.
pub const OVERLAP_NUMERATOR: usize = 3;

/// Denominator of the fraction of a window that is kept as overlap.
pub const OVERLAP_DENOMINATOR: usize = 10;

/// Number of samples in a window of `seconds` seconds at `rate` samples per second.
pub open spec fn window_len(rate: u32, seconds: u32) -> nat {
    (rate as nat) * (seconds as nat)
}

/// Number of samples that survive a window of `target` samples: three tenths of it,
/// rounded down.
pub open spec fn overlap_len(target: nat) -> nat {
    (target * 3) / 10
}

/// Computes [`window_len`].
pub fn target_samples(rate: u32, seconds: u32) -> (n: u64)
    ensures
        n == window_len(rate, seconds),
{
    assert((rate as nat) * (seconds as nat) <= 0xffff_ffff * 0xffff_ffff) by (nonlinear_arith)
        requires
            rate <= 0xffff_ffff,
            seconds <= 0xffff_ffff,
    ;
    let r: u64 = rate as u64;
    let s: u64 = seconds as u64;
    r * s
}

/// Computes [`overlap_len`] without overflow.
pub fn overlap_samples(target: usize) -> (n: usize)
    ensures
        n == overlap_len(target as nat),
        n <= target,
{
    let q: usize = target / OVERLAP_DENOMINATOR;
    let r: usize = target % OVERLAP_DENOMINATOR;
    assert((target * 3) / 10 == q * 3 + (r * 3) / 10) by (nonlinear_arith)
        requires
            target == q * 10 + r,
            0 <= r < 10,
            0 <= q,
    ;
    q * OVERLAP_NUMERATOR + (r * OVERLAP_NUMERATOR) / OVERLAP_DENOMINATOR
}

/// The rolling sample buffer of one source.
pub struct WindowAccumulator<T: Copy> {
    buffer: Vec<T>,
    target: usize,
}

impl<T: Copy> WindowAccumulator<T> {
    /// The samples that are buffered, oldest first.
    pub closed spec fn buffered(&self) -> Seq<T> {
        self.buffer@
    }

    /// The length of a window.
    pub closed spec fn target(&self) -> nat {
        self.target as nat
    }

    /// Whether a whole window is buffered.
    pub open spec fn is_full(&self) -> bool {
        self.buffered().len() >= self.target()
    }

    /// An empty accumulator for windows of `target` samples.
    pub fn new(target: usize) -> (acc: Self)
        ensures
            acc.buffered() == Seq::<T>::empty(),
            acc.target() == target,
    {
        WindowAccumulator { buffer: Vec::new(), target }
    }

    /// The length of a window.
    pub fn target_samples(&self) -> (n: usize)
        ensures
            n == self.target(),
    {
        self.target
    }

    /// The number of samples that are buffered.
    pub fn len(&self) -> (n: usize)
        ensures
            n == self.buffered().len(),
    {
        self.buffer.len()
    }

    /// Appends `samples` to the buffer.
    pub fn push(&mut self, samples: Vec<T>)
        ensures
            final(self).buffered() == old(self).buffered() + samples@,
            final(self).target() == old(self).target(),
    {
        let mut samples = samples;
        self.buffer.append(&mut samples);
    }

    /// Takes a window if one is buffered.
    ///
    /// With fewer than `target` samples buffered nothing happens. Otherwise the first
    /// `target` samples are returned and the buffer keeps only its last
    /// `overlap_len(target)` samples.
    pub fn try_take_window(&mut self) -> (window: Option<Vec<T>>)
        ensures
            final(self).target() == old(self).target(),
            !old(self).is_full() ==> window is None && final(self).buffered() == old(
                self,
            ).buffered(),
            old(self).is_full() ==> window is Some && window->0@ == old(self).buffered().subrange(
                0,
                old(self).target() as int,
            ) && final(self).buffered() == old(self).buffered().subrange(
                old(self).buffered().len() - overlap_len(old(self).target()),
                old(self).buffered().len() as int,
            ),
    {
        let len: usize = self.buffer.len();
        if len < self.target {
            return None;
        }
        let mut window: Vec<T> = Vec::new();
        let mut i: usize = 0;
        while i < self.target
            invariant
                i <= self.target <= self.buffer.len(),
                window@ == self.buffer@.subrange(0, i as int),
            decreases self.target - i,
        {
            window.push(self.buffer[i]);
            i += 1;
            assert(window@ =~= self.buffer@.subrange(0, i as int));
        }
        let keep: usize = overlap_samples(self.target);
        let tail = self.buffer.split_off(len - keep);
        self.buffer = tail;
        Some(window)
    }
}

/// A taken window leaves the buffer with three tenths of a window, to within one
/// sample: ten times the kept length is at most three times the window length and
/// misses it by less than ten.
pub proof fn lemma_overlap_is_three_tenths(target: nat)
    ensures
        10 * overlap_len(target) <= 3 * target < 10 * overlap_len(target) + 10,
        overlap_len(target) <= target,
{
}

/// A window that is taken the moment it fills shares its end with the next one: what
/// stays buffered is the last three tenths of the window itself.
pub proof fn lemma_kept_is_end_of_window<T>(buffered: Seq<T>, target: nat)
    requires
        buffered.len() == target,
    ensures
        buffered.subrange(buffered.len() - overlap_len(target), buffered.len() as int)
            == buffered.subrange(0, target as int).subrange(
            target - overlap_len(target),
            target as int,
        ),
{
    lemma_overlap_is_three_tenths(target);
    assert(buffered.subrange(0, target as int) =~= buffered);
}

} // verus!
