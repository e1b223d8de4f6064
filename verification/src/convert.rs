//! The index arithmetic of sample conversion.
//!
//! Downmixing and resampling are described here by where each output sample comes
//! from: how many samples come out, and which input samples, with which weight, make
//! one of them. The arithmetic on the sample values themselves is left to the caller.

use vstd::prelude::*;

verus! {

/// Number of mono samples in `len` interleaved samples of `channels` channels: one per
/// whole frame. A feed of at most one channel is mono already.
pub open spec fn mono_len_of(len: nat, channels: nat) -> nat {
    if channels > 1 {
        len / channels
    } else {
        len
    }
}

/// Computes [`mono_len_of`].
pub fn mono_len(len: usize, channels: u16) -> (n: usize)
    ensures
        n == mono_len_of(len as nat, channels as nat),
{
    if channels > 1 {
        len / (channels as usize)
    } else {
        len
    }
}

/// `len * to / from`, rounded to the nearest integer, halves upwards.
pub open spec fn resampled_len_of(len: nat, from: nat, to: nat) -> nat
    recommends
        from > 0,
{
    (2 * len * to + from) / (2 * from)
}

/// The rounded length is the integer nearest to `len * to / from`: it misses that
/// ratio by at most a half, and where two integers are as near it is the larger.
pub proof fn lemma_resampled_len_is_nearest(len: nat, from: nat, to: nat)
    requires
        from > 0,
    ensures
        2 * from * resampled_len_of(len, from, to) <= 2 * len * to + from,
        2 * len * to + from < 2 * from * (resampled_len_of(len, from, to) + 1),
{
    let total = 2 * len * to + from;
    let twice = 2 * from;
    assert(twice * (total / twice) <= total < twice * (total / twice + 1)) by (nonlinear_arith)
        requires
            twice > 0,
            total >= 0,
    ;
}

/// No other integer is as near to `len * to / from` in that way.
pub proof fn lemma_resampled_len_is_unique(len: nat, from: nat, to: nat, n: int)
    requires
        from > 0,
        2 * from * n <= 2 * len * to + from < 2 * from * (n + 1),
    ensures
        n == resampled_len_of(len, from, to),
{
    lemma_resampled_len_is_nearest(len, from, to);
    let r = resampled_len_of(len, from, to) as int;
    assert(n == r) by (nonlinear_arith)
        requires
            2 * from * n <= 2 * len * to + from < 2 * from * (n + 1),
            2 * from * r <= 2 * len * to + from < 2 * from * (r + 1),
            from > 0,
    ;
}

/// Number of samples that `len` samples at `from` samples per second become at `to`
/// samples per second.
///
/// There is none for a source rate of zero, nor where the number does not fit in
/// `usize`.
pub fn resampled_len(len: usize, from: u32, to: u32) -> (n: Option<usize>)
    ensures
        n is Some <==> from > 0 && resampled_len_of(len as nat, from as nat, to as nat)
            <= usize::MAX,
        n is Some ==> n->0 == resampled_len_of(len as nat, from as nat, to as nat),
        // The same without a division.
        n is Some <==> from > 0 && 2 * len * to + from < 2 * from * (usize::MAX + 1),
        n is Some ==> 2 * from * n->0 <= 2 * len * to + from < 2 * from * (n->0 + 1),
{
    if from == 0 {
        return None;
    }
    proof {
        lemma_resampled_len_is_nearest(len as nat, from as nat, to as nat);
        let r = resampled_len_of(len as nat, from as nat, to as nat) as int;
        let top = usize::MAX as int;
        assert(r <= top <==> 2 * len * to + from < 2 * from * (top + 1)) by (nonlinear_arith)
            requires
                2 * from * r <= 2 * len * to + from < 2 * from * (r + 1),
                from > 0,
        ;
    }
    let l: u128 = len as u128;
    let f: u128 = from as u128;
    let t: u128 = to as u128;
    assert(2 * l * t <= 2 * 0xffff_ffff_ffff_ffff * 0xffff_ffff) by (nonlinear_arith)
        requires
            0 <= l <= 0xffff_ffff_ffff_ffff,
            0 <= t <= 0xffff_ffff,
    ;
    let twice: u128 = 2 * l * t + f;
    let n: u128 = twice / (2 * f);
    if n > usize::MAX as u128 {
        None
    } else {
        Some(n as usize)
    }
}

/// Where one resampled value comes from: it lies between the input samples `left` and
/// `right`, `weight / scale` of the way from the first to the second.
#[derive(Clone, Copy, Debug, PartialEq, Eq, Structural)]
pub struct Tap {
    pub left: usize,
    pub right: usize,
    pub weight: u32,
    pub scale: u32,
}

/// The tap of output sample `j` by linear interpolation: its position in the input is
/// `j * from / to`, and past the last input sample the last one is repeated.
pub open spec fn tap_of(j: nat, len: nat, from: nat, to: nat) -> Tap
    recommends
        to > 0,
{
    let left = (j * from) / to;
    Tap {
        left: left as usize,
        right: (if left + 1 < len {
            left + 1
        } else {
            left
        }) as usize,
        weight: ((j * from) % to) as u32,
        scale: to as u32,
    }
}

/// Whether output sample `j` exists when `len` samples go from rate `from` to `to`.
pub open spec fn tap_exists(j: nat, len: nat, from: nat, to: nat) -> bool {
    from > 0 && to > 0 && j < resampled_len_of(len, from, to)
}

/// Every output sample starts before the end of the input.
pub proof fn lemma_tap_in_bounds(j: nat, len: nat, from: nat, to: nat)
    requires
        tap_exists(j, len, from, to),
    ensures
        (j * from) / to < len,
        (j * from) % to < to,
{
    let r = resampled_len_of(len, from, to);
    assert(2 * from * r <= 2 * len * to + from) by (nonlinear_arith)
        requires
            r == (2 * len * to + from) / (2 * from),
            from > 0,
    ;
    assert(2 * from * (j + 1) <= 2 * from * r) by (nonlinear_arith)
        requires
            j + 1 <= r,
            from > 0,
    ;
    assert(j * from < len * to) by (nonlinear_arith)
        requires
            2 * from * (j + 1) <= 2 * len * to + from,
            from > 0,
    ;
    assert((j * from) / to < len) by (nonlinear_arith)
        requires
            j * from < len * to,
            to > 0,
    ;
    assert((j * from) % to < to) by (nonlinear_arith)
        requires
            to > 0,
    ;
}

/// Computes [`tap_of`] for an output sample that exists.
pub fn resample_tap(j: usize, len: usize, from: u32, to: u32) -> (tap: Option<Tap>)
    ensures
        tap is Some <==> tap_exists(j as nat, len as nat, from as nat, to as nat),
        tap is Some ==> tap->0 == tap_of(j as nat, len as nat, from as nat, to as nat)
            && tap->0.left < len && tap->0.right < len && tap->0.weight < tap->0.scale,
        // The same without a division.
        tap is Some <==> from > 0 && to > 0 && 2 * from * (j + 1) <= 2 * len * to + from,
        tap is Some ==> to * tap->0.left + tap->0.weight == j * from,
{
    if from == 0 || to == 0 {
        return None;
    }
    proof {
        lemma_resampled_len_is_nearest(len as nat, from as nat, to as nat);
        let r = resampled_len_of(len as nat, from as nat, to as nat) as int;
        assert(j < r <==> 2 * from * (j + 1) <= 2 * len * to + from) by (nonlinear_arith)
            requires
                2 * from * r <= 2 * len * to + from < 2 * from * (r + 1),
                from > 0,
        ;
        assert(to * ((j * from) / (to as int)) + (j * from) % (to as int) == j * from)
            by (nonlinear_arith)
            requires
                to > 0,
        ;
    }
    let l: u128 = len as u128;
    let f: u128 = from as u128;
    let t: u128 = to as u128;
    let jj: u128 = j as u128;
    assert(2 * l * t <= 2 * 0xffff_ffff_ffff_ffff * 0xffff_ffff) by (nonlinear_arith)
        requires
            0 <= l <= 0xffff_ffff_ffff_ffff,
            0 <= t <= 0xffff_ffff,
    ;
    assert(jj * f <= 0xffff_ffff_ffff_ffff * 0xffff_ffff) by (nonlinear_arith)
        requires
            0 <= jj <= 0xffff_ffff_ffff_ffff,
            0 <= f <= 0xffff_ffff,
    ;
    let count: u128 = (2 * l * t + f) / (2 * f);
    if jj >= count {
        return None;
    }
    proof {
        lemma_tap_in_bounds(j as nat, len as nat, from as nat, to as nat);
    }
    let position: u128 = jj * f;
    let left: usize = (position / t) as usize;
    let weight: u32 = (position % t) as u32;
    let right: usize = if left + 1 < len {
        left + 1
    } else {
        left
    };
    Some(Tap { left, right, weight, scale: to })
}

/// Between equal rates nothing changes: as many samples come out as went in, and the
/// tap of output sample `j` is input sample `j` itself, with no weight on its neighbour.
pub proof fn lemma_same_rate_is_identity(j: nat, len: nat, rate: nat)
    requires
        rate > 0,
        j < len,
        len <= usize::MAX,
        rate <= u32::MAX,
    ensures
        resampled_len_of(len, rate, rate) == len,
        tap_exists(j, len, rate, rate),
        tap_of(j, len, rate, rate).left == j,
        tap_of(j, len, rate, rate).weight == 0,
{
    assert((2 * len * rate + rate) / (2 * rate) == len) by (nonlinear_arith)
        requires
            rate > 0,
    ;
    assert((j * rate) / rate == j && (j * rate) % rate == 0) by (nonlinear_arith)
        requires
            rate > 0,
    ;
}

/// The signed 16-bit value whose little-endian bytes are `low`, `high`.
pub open spec fn s16_of(low: u8, high: u8) -> int {
    if high >= 128 {
        low + 256 * high - 65536
    } else {
        low + 256 * high
    }
}

/// The samples that a stream of little-endian signed 16-bit PCM holds: one for each
/// whole pair of bytes. A last odd byte holds none.
pub open spec fn s16le_samples(bytes: Seq<u8>) -> Seq<i16> {
    Seq::new(bytes.len() / 2, |i: int| s16_of(bytes[2 * i], bytes[2 * i + 1]) as i16)
}

/// Decodes little-endian signed 16-bit PCM.
pub fn decode_s16le(bytes: &[u8]) -> (samples: Vec<i16>)
    ensures
        samples@ == s16le_samples(bytes@),
{
    let n: usize = bytes.len() / 2;
    let mut samples: Vec<i16> = Vec::new();
    let mut i: usize = 0;
    while i < n
        invariant
            n == bytes.len() / 2,
            i <= n,
            samples.len() == i,
            forall|k: int| 0 <= k < i ==> samples[k] == s16le_samples(bytes@)[k],
        decreases n - i,
    {
        let low: u8 = bytes[2 * i];
        let high: u8 = bytes[2 * i + 1];
        let wide: i32 = low as i32 + 256 * (high as i32);
        let sample: i16 = if wide >= 32768 {
            (wide - 65536) as i16
        } else {
            wide as i16
        };
        samples.push(sample);
        i += 1;
    }
    assert(samples@ =~= s16le_samples(bytes@));
    samples
}

} // verus!
