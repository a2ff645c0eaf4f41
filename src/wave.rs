//! The waveform generator: a periodic tone written as interleaved stereo
//! 16-bit samples, with the same value on both channels.
//!
//! One period of the tone's samples is handed in as a table; the generator
//! steps the phase through it, wraps at the end of the period and copies
//! each sample to both channels.

use vstd::prelude::*;

verus! {

/// Peak amplitude of the generated tone.
pub const AMPLITUDE: i16 = 2000;

/// Longest half period whose full period still fits the `i32` phase counter.
pub const MAX_HALF_LEN: i32 = 0x3fff_ffff;

/// Position of phase `t` within one period of `2 * half` samples.
pub open spec fn spec_period_pos(t: int, half: int) -> int {
    t % (2 * half)
}

/// Phase after one more stereo sample pair: it counts up and restarts at zero
/// once it reaches a full period.
pub open spec fn spec_next_phase(t: int, half: int) -> int {
    if t + 1 >= 2 * half {
        0
    } else {
        t + 1
    }
}

/// Phase after `n` sample pairs, starting from `t`.
pub open spec fn phase_after(t: int, half: int, n: nat) -> int
    decreases n,
{
    if n == 0 {
        t
    } else {
        spec_next_phase(phase_after(t, half, (n - 1) as nat), half)
    }
}

/// A usable period table: a whole number of half periods, at least two
/// samples, short enough for the phase counter, and within the amplitude.
pub open spec fn valid_period(period: Seq<i16>) -> bool {
    &&& period.len() % 2 == 0
    &&& 2 <= period.len() <= 2 * MAX_HALF_LEN
    &&& forall|i: int| 0 <= i < period.len() ==> -AMPLITUDE <= #[trigger] period[i] <= AMPLITUDE
}

/// From a phase inside the period, the phase after `n` pairs is the start
/// plus `n`, modulo the period.
pub proof fn lemma_phase_after(t: int, half: int, n: nat)
    requires
        half >= 1,
        0 <= t < 2 * half,
    ensures
        phase_after(t, half, n) == (t + n) % (2 * half),
    decreases n,
{
    if n == 0 {
        vstd::arithmetic::div_mod::lemma_small_mod(t as nat, (2 * half) as nat);
    } else {
        lemma_phase_after(t, half, (n - 1) as nat);
        let prev = (t + n - 1) % (2 * half);
        vstd::arithmetic::div_mod::lemma_add_mod_noop_right(1, t + n - 1, 2 * half);
        vstd::arithmetic::div_mod::lemma_small_mod(1, (2 * half) as nat);
        if prev + 1 >= 2 * half {
            vstd::arithmetic::div_mod::lemma_mod_self_0(2 * half);
        } else {
            vstd::arithmetic::div_mod::lemma_small_mod((prev + 1) as nat, (2 * half) as nat);
        }
    }
}

/// Generating one full period of sample pairs brings the phase back to where
/// it started.
pub proof fn lemma_full_period_round_trip(t: int, half: int)
    requires
        half >= 1,
        0 <= t < 2 * half,
    ensures
        phase_after(t, half, (2 * half) as nat) == t,
{
    lemma_phase_after(t, half, (2 * half) as nat);
    vstd::arithmetic::div_mod::lemma_add_mod_noop_right(t, 2 * half, 2 * half);
    vstd::arithmetic::div_mod::lemma_mod_self_0(2 * half);
    vstd::arithmetic::div_mod::lemma_small_mod(t as nat, (2 * half) as nat);
}

fn period_pos(t: i32, period_len: usize) -> (r: usize)
    requires
        2 <= period_len <= 2 * MAX_HALF_LEN,
    ensures
        r == (t as int) % (period_len as int),
        r < period_len,
{
    let period: u128 = period_len as u128;
    let pos: u128 = if t >= 0 {
        (t as u128) % period
    } else {
        let back: u128 = ((-(t as i64)) as u128) % period;
        (period - back) % period
    };
    proof {
        let ti = t as int;
        let pi = period as int;
        if t < 0 {
            let back = (-ti) % pi;
            vstd::arithmetic::div_mod::lemma_fundamental_div_mod(-ti, pi);
            vstd::arithmetic::div_mod::lemma_mod_bound(-ti, pi);
            let q = (-ti) / pi;
            assert(ti == pi * (-q) - back) by (nonlinear_arith)
                requires
                    -ti == pi * q + back,
            ;
            assert(ti == (pi - back) + pi * (-q - 1)) by (nonlinear_arith)
                requires
                    ti == pi * (-q) - back,
            ;
            vstd::arithmetic::div_mod::lemma_mod_multiples_vanish(-q - 1, pi - back, pi);
            assert(ti % pi == (pi - back) % pi);
        }
    }
    pos as usize
}

/// Fills `buf` with interleaved stereo pairs of the tone whose period is
/// `period`, one pair per phase step starting at `*t_sine`, and leaves
/// `*t_sine` at the phase that follows the last pair.
pub fn render_audio(buf: &mut Vec<i16>, period: &Vec<i16>, t_sine: &mut i32)
    requires
        old(buf)@.len() % 2 == 0,
        valid_period(period@),
    ensures
        final(buf)@.len() == old(buf)@.len(),
        forall|k: int|
            0 <= k < old(buf)@.len() / 2 ==> {
                &&& #[trigger] final(buf)@[2 * k] == period@[spec_period_pos(
                    phase_after(*old(t_sine) as int, period@.len() as int / 2, k as nat),
                    period@.len() as int / 2,
                )]
                &&& final(buf)@[2 * k + 1] == final(buf)@[2 * k]
            },
        forall|i: int|
            0 <= i < old(buf)@.len() ==> -AMPLITUDE <= #[trigger] final(buf)@[i] <= AMPLITUDE,
        *final(t_sine) == phase_after(
            *old(t_sine) as int,
            period@.len() as int / 2,
            (old(buf)@.len() / 2) as nat,
        ),
{
    let len: usize = buf.len();
    let period_len: usize = period.len();
    let ghost t0: int = *t_sine as int;
    let ghost h: int = period@.len() as int / 2;
    let last_phase: i64 = period_len as i64 - 1;
    let mut i: usize = 0;
    while i < len
        invariant
            len == buf@.len(),
            len == old(buf)@.len(),
            len % 2 == 0,
            i % 2 == 0,
            0 <= i <= len,
            period_len == period@.len(),
            valid_period(period@),
            h == period_len / 2,
            period_len == 2 * h,
            t0 == *old(t_sine),
            last_phase == 2 * h - 1,
            *t_sine == phase_after(t0, h, (i / 2) as nat),
            forall|k: int|
                0 <= k < i / 2 ==> {
                    &&& #[trigger] buf@[2 * k] == period@[spec_period_pos(
                        phase_after(t0, h, k as nat),
                        h,
                    )]
                    &&& buf@[2 * k + 1] == buf@[2 * k]
                },
            forall|j: int| 0 <= j < i ==> -AMPLITUDE <= #[trigger] buf@[j] <= AMPLITUDE,
        decreases len - i,
    {
        let pos: usize = period_pos(*t_sine, period_len);
        let sample: i16 = period[pos];
        buf.set(i, sample);
        buf.set(i + 1, sample);
        if *t_sine as i64 >= last_phase {
            *t_sine = 0;
        } else {
            *t_sine = *t_sine + 1;
        }
        proof {
            assert(((i + 2) / 2) as nat == (i / 2) as nat + 1);
            assert forall|k: int| 0 <= k < (i + 2) / 2 implies {
                &&& #[trigger] buf@[2 * k] == period@[spec_period_pos(phase_after(t0, h, k as nat), h)]
                &&& buf@[2 * k + 1] == buf@[2 * k]
            } by {
                if k == i / 2 {
                    assert(2 * k == i);
                }
            }
        }
        i = i + 2;
    }
}

/// Bytes of one interleaved stereo frame of 16-bit samples.
pub const BYTES_PER_STEREO_FRAME: u32 = 4;

/// Renders the audio for a write of `bytes_to_write` bytes: one stereo pair
/// for each whole frame, continuing from phase `*t_sine`.
pub fn render_audio_frame(bytes_to_write: u32, period: &Vec<i16>, t_sine: &mut i32) -> (r: Vec<
    i16,
>)
    requires
        valid_period(period@),
    ensures
        r@.len() == 2 * (bytes_to_write / BYTES_PER_STEREO_FRAME),
        forall|k: int|
            0 <= k < bytes_to_write / BYTES_PER_STEREO_FRAME ==> {
                &&& #[trigger] r@[2 * k] == period@[spec_period_pos(
                    phase_after(*old(t_sine) as int, period@.len() as int / 2, k as nat),
                    period@.len() as int / 2,
                )]
                &&& r@[2 * k + 1] == r@[2 * k]
            },
        forall|i: int| 0 <= i < r@.len() ==> -AMPLITUDE <= #[trigger] r@[i] <= AMPLITUDE,
        *final(t_sine) == phase_after(
            *old(t_sine) as int,
            period@.len() as int / 2,
            (bytes_to_write / BYTES_PER_STEREO_FRAME) as nat,
        ),
{
    let n: usize = (2 * (bytes_to_write / BYTES_PER_STEREO_FRAME)) as usize;
    let mut buf: Vec<i16> = Vec::new();
    let mut i: usize = 0;
    while i < n
        invariant
            0 <= i <= n,
            buf@.len() == i,
        decreases n - i,
    {
        buf.push(0);
        i = i + 1;
    }
    render_audio(&mut buf, period, t_sine);
    buf
}

} // verus!
