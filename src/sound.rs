//! Audio format parameters and the ring-buffer scheduler that decides, each
//! frame, where and how much to write into the circular hardware buffer.

use vstd::prelude::*;

verus! {

/// Format and size of the circular audio buffer.
#[derive(Clone, Copy, Debug, PartialEq, Eq)]
pub struct SoundParams {
    pub bits_per_sample: u16,
    pub n_channels: u16,
    pub n_samples_per_sec: u16,
    pub buf_size_seconds: u16,
}

impl SoundParams {
    /// Bytes taken by one sample frame (one value per channel).
    pub open spec fn spec_bytes_per_sample(self) -> int {
        (self.n_channels * self.bits_per_sample) / 8
    }

    /// Size of the whole ring buffer in bytes.
    pub open spec fn spec_buf_size_bytes(self) -> int {
        (self.n_channels * self.bits_per_sample * self.n_samples_per_sec * self.buf_size_seconds)
            / 8
    }

    /// Capacity of the ring buffer in sample frames.
    pub open spec fn spec_capacity(self) -> int {
        self.spec_buf_size_bytes() / self.spec_bytes_per_sample()
    }

    /// All fields positive, a sample frame is a whole number of bytes, and the
    /// buffer size fits a signed 32-bit byte offset.
    pub open spec fn wf(self) -> bool {
        &&& self.bits_per_sample > 0
        &&& self.n_channels > 0
        &&& self.n_samples_per_sec > 0
        &&& self.buf_size_seconds > 0
        &&& (self.n_channels * self.bits_per_sample) % 8 == 0
        &&& self.spec_buf_size_bytes() <= i32::MAX
    }

    proof fn lemma_products_fit(self)
        ensures
            0 <= self.n_channels * self.bits_per_sample <= u32::MAX,
            0 <= self.n_channels * self.bits_per_sample * self.n_samples_per_sec <= u64::MAX,
            0 <= self.n_channels * self.bits_per_sample * self.n_samples_per_sec
                * self.buf_size_seconds <= u64::MAX,
    {
        let c = self.n_channels as int;
        let b = self.bits_per_sample as int;
        let r = self.n_samples_per_sec as int;
        let t = self.buf_size_seconds as int;
        assert(0 <= c * b <= 0xffff * 0xffff) by (nonlinear_arith)
            requires
                0 <= c <= 0xffff,
                0 <= b <= 0xffff,
        ;
        assert(0 <= c * b * r <= 0xffff * 0xffff * 0xffff) by (nonlinear_arith)
            requires
                0 <= c * b <= 0xffff * 0xffff,
                0 <= r <= 0xffff,
        ;
        assert(0 <= c * b * r * t <= 0xffff * 0xffff * 0xffff * 0xffff) by (nonlinear_arith)
            requires
                0 <= c * b * r <= 0xffff * 0xffff * 0xffff,
                0 <= t <= 0xffff,
        ;
    }

    /// The bytes per sample frame are positive and divide the buffer size.
    pub proof fn lemma_frame_divides_buffer(self)
        requires
            self.wf(),
        ensures
            self.spec_bytes_per_sample() > 0,
            self.spec_buf_size_bytes() == self.spec_bytes_per_sample() * (self.n_samples_per_sec
                * self.buf_size_seconds),
            self.spec_capacity() == self.n_samples_per_sec * self.buf_size_seconds,
            self.spec_capacity() > 0,
    {
        let f = self.n_channels * self.bits_per_sample;
        let k = self.n_samples_per_sec * self.buf_size_seconds;
        let q = f / 8;
        assert(f == 8 * q);
        assert(f > 0) by (nonlinear_arith)
            requires
                self.n_channels > 0,
                self.bits_per_sample > 0,
                f == self.n_channels * self.bits_per_sample,
        ;
        assert(k > 0) by (nonlinear_arith)
            requires
                self.n_samples_per_sec > 0,
                self.buf_size_seconds > 0,
                k == self.n_samples_per_sec * self.buf_size_seconds,
        ;
        assert(self.n_channels * self.bits_per_sample * self.n_samples_per_sec
            * self.buf_size_seconds == 8 * (q * k)) by (nonlinear_arith)
            requires
                f == self.n_channels * self.bits_per_sample,
                k == self.n_samples_per_sec * self.buf_size_seconds,
                f == 8 * q,
        ;
        assert((8 * (q * k)) / 8 == q * k) by (nonlinear_arith);
        assert((q * k) / q == k) by (nonlinear_arith)
            requires
                q > 0,
        ;
    }

    pub fn is_valid(&self) -> (r: bool)
        ensures
            r == self.wf(),
    {
        proof {
            self.lemma_products_fit();
        }
        let frame_bits: u32 = self.n_channels as u32 * self.bits_per_sample as u32;
        let total_bits: u64 = frame_bits as u64 * self.n_samples_per_sec as u64
            * self.buf_size_seconds as u64;
        self.bits_per_sample > 0 && self.n_channels > 0 && self.n_samples_per_sec > 0
            && self.buf_size_seconds > 0 && frame_bits % 8 == 0 && total_bits / 8
            <= i32::MAX as u64
    }

    pub fn buf_size_bytes(&self) -> (r: u32)
        requires
            self.wf(),
        ensures
            r == self.spec_buf_size_bytes(),
    {
        proof {
            self.lemma_products_fit();
        }
        let total_bits: u64 = self.n_channels as u64 * self.bits_per_sample as u64
            * self.n_samples_per_sec as u64 * self.buf_size_seconds as u64;
        (total_bits / 8) as u32
    }

    pub fn bytes_per_sample(&self) -> (r: u32)
        requires
            self.wf(),
        ensures
            r == self.spec_bytes_per_sample(),
            r > 0,
    {
        proof {
            self.lemma_products_fit();
            self.lemma_frame_divides_buffer();
        }
        (self.n_channels as u32 * self.bits_per_sample as u32) / 8
    }
}

/// Format tag of uncompressed PCM audio.
pub const WAVE_FORMAT_PCM: u16 = 1;

/// Description of a PCM stream's layout, as handed to the sound device.
#[derive(Clone, Copy, Debug, PartialEq, Eq)]
pub struct WaveFormat {
    pub format_tag: u16,
    pub n_channels: u16,
    pub n_samples_per_sec: u32,
    pub bits_per_sample: u16,
    pub block_align: u16,
    pub avg_bytes_per_sec: u32,
}

impl WaveFormat {
    /// PCM layout for the given channel count, sample width and rate: a
    /// block holds one sample per channel, and the byte rate is one block per
    /// sample period.
    pub fn new_pcm(n_channels: u16, n_bits_p_sample: u16, n_samples_p_sec: u16) -> (r: WaveFormat)
        requires
            n_channels * n_bits_p_sample <= u16::MAX,
        ensures
            r.format_tag == WAVE_FORMAT_PCM,
            r.n_channels == n_channels,
            r.n_samples_per_sec == n_samples_p_sec,
            r.bits_per_sample == n_bits_p_sample,
            r.block_align == (n_channels * n_bits_p_sample) / 8,
            r.avg_bytes_per_sec == n_samples_p_sec * r.block_align,
    {
        let block_align: u16 = (n_channels * n_bits_p_sample) / 8;
        assert(n_samples_p_sec * block_align <= u16::MAX * u16::MAX) by (nonlinear_arith)
            requires
                0 <= n_samples_p_sec <= u16::MAX,
                0 <= block_align <= u16::MAX,
        ;
        WaveFormat {
            format_tag: WAVE_FORMAT_PCM,
            n_channels,
            n_samples_per_sec: n_samples_p_sec as u32,
            bits_per_sample: n_bits_p_sample,
            block_align,
            avg_bytes_per_sec: n_samples_p_sec as u32 * block_align as u32,
        }
    }
}

/// Signed distance from `a` to `b` on a ring of `size` bytes. When one
/// position lies in the last quarter of the ring and the other in the first
/// quarter, the gap is measured across the wrap-around point instead of
/// linearly. A ring too small for its quarter marks to differ (under 100
/// bytes) has no such quarters, and the plain difference is used.
pub open spec fn spec_circular_distance(a: int, b: int, size: int) -> int {
    let ending_block = size / 100 * 75;
    let starting_block = size / 100 * 25;
    if ending_block > starting_block && a >= ending_block && b <= starting_block {
        a - (b + size)
    } else if ending_block > starting_block && b >= ending_block && a <= starting_block {
        (a + size) - b
    } else {
        a - b
    }
}

pub fn circular_distance(a: u32, b: u32, circle_size: u32) -> (r: i32)
    requires
        a < circle_size,
        b < circle_size,
        circle_size <= i32::MAX,
    ensures
        r == spec_circular_distance(a as int, b as int, circle_size as int),
{
    let ending_block: u32 = circle_size / 100 * 75;
    let starting_block: u32 = circle_size / 100 * 25;
    let a64: i64 = a as i64;
    let b64: i64 = b as i64;
    let size64: i64 = circle_size as i64;
    if ending_block > starting_block {
        if a >= ending_block && b <= starting_block {
            return (a64 - (b64 + size64)) as i32;
        }
        if b >= ending_block && a <= starting_block {
            return ((a64 + size64) - b64) as i32;
        }
    }
    (a64 - b64) as i32
}

/// Swapping the two positions negates the distance.
pub proof fn lemma_circular_distance_antisymmetric(a: int, b: int, size: int)
    ensures
        spec_circular_distance(a, b, size) == -spec_circular_distance(b, a, size),
{
}

/// Every position is at distance zero from itself.
pub proof fn lemma_circular_distance_self(a: int, size: int)
    ensures
        spec_circular_distance(a, a, size) == 0,
{
}

/// Where the next write starts and how many bytes it covers.
#[derive(Clone, Copy, Debug, PartialEq, Eq)]
pub struct AudioWrite {
    pub byte_to_lock: u32,
    pub bytes_to_write: u32,
}

/// Byte offset in the ring at which the sample frame `sample_idx` is written.
pub open spec fn spec_byte_to_lock(p: SoundParams, sample_idx: int) -> int {
    (sample_idx * p.spec_bytes_per_sample()) % p.spec_buf_size_bytes()
}

/// Bytes that the buffer plays per millisecond.
pub open spec fn spec_bytes_per_milli(p: SoundParams) -> int {
    p.spec_buf_size_bytes() / (p.buf_size_seconds * 1000)
}

/// One percent of the buffer: the safety margin kept ahead of the hardware.
pub open spec fn spec_underrun_margin(p: SoundParams) -> int {
    p.spec_buf_size_bytes() / 100
}

/// Bytes to write after `elapsed_ms` milliseconds: the playback rate times the
/// elapsed time, plus the margin when the write position is within the margin
/// of the hardware write cursor, and never more than the whole buffer.
pub open spec fn spec_bytes_to_write(
    p: SoundParams,
    sample_idx: int,
    write_cur: int,
    elapsed_ms: int,
) -> int {
    let base = spec_bytes_per_milli(p) * elapsed_ms;
    let dist = spec_circular_distance(
        spec_byte_to_lock(p, sample_idx),
        write_cur,
        p.spec_buf_size_bytes(),
    );
    let wanted = if dist < spec_underrun_margin(p) {
        base + spec_underrun_margin(p)
    } else {
        base
    };
    if wanted > p.spec_buf_size_bytes() {
        p.spec_buf_size_bytes()
    } else {
        wanted
    }
}

/// The plan for one frame's audio write.
pub open spec fn spec_plan(
    p: SoundParams,
    sample_idx: int,
    write_cur: int,
    elapsed_ms: int,
) -> AudioWrite {
    AudioWrite {
        byte_to_lock: spec_byte_to_lock(p, sample_idx) as u32,
        bytes_to_write: spec_bytes_to_write(p, sample_idx, write_cur, elapsed_ms) as u32,
    }
}

proof fn lemma_capped_product(rate: int, elapsed: int, cap: int)
    requires
        rate >= 0,
        elapsed > cap,
        cap >= 0,
    ensures
        rate * elapsed >= rate * cap,
        rate > 0 ==> rate * elapsed > cap,
        rate > 0 ==> rate * cap >= cap,
        rate == 0 ==> rate * elapsed == 0 && rate * cap == 0,
{
    assert(rate * elapsed >= rate * cap) by (nonlinear_arith)
        requires
            rate >= 0,
            elapsed > cap,
    ;
    assert(rate > 0 ==> rate * elapsed > cap) by (nonlinear_arith)
        requires
            elapsed > cap,
            cap >= 0,
    ;
    assert(rate > 0 ==> rate * cap >= cap) by (nonlinear_arith)
        requires
            cap >= 0,
    ;
}

/// However long the frame took, a frame's write is never negative and never
/// more than the whole buffer.
pub proof fn lemma_bytes_to_write_bounded(
    p: SoundParams,
    sample_idx: int,
    write_cur: int,
    elapsed_ms: int,
)
    requires
        p.wf(),
        elapsed_ms >= 0,
    ensures
        0 <= spec_bytes_to_write(p, sample_idx, write_cur, elapsed_ms) <= p.spec_buf_size_bytes(),
{
    let rate = spec_bytes_per_milli(p);
    assert(rate >= 0) by (nonlinear_arith)
        requires
            rate == p.spec_buf_size_bytes() / (p.buf_size_seconds * 1000),
            p.spec_buf_size_bytes() >= 0,
            p.buf_size_seconds > 0,
    ;
    assert(rate * elapsed_ms >= 0) by (nonlinear_arith)
        requires
            rate >= 0,
            elapsed_ms >= 0,
    ;
}

/// Decides where the next block of audio goes in the ring buffer and how many
/// bytes it holds, from the running sample index, the hardware write cursor and
/// the time since the previous frame.
pub fn plan_audio_write(
    params: &SoundParams,
    sample_idx: u32,
    write_cur: u32,
    elapsed_ms: u128,
) -> (r: AudioWrite)
    requires
        params.wf(),
        write_cur < params.spec_buf_size_bytes(),
    ensures
        r == spec_plan(*params, sample_idx as int, write_cur as int, elapsed_ms as int),
        r.byte_to_lock < params.spec_buf_size_bytes(),
        0 <= r.bytes_to_write <= params.spec_buf_size_bytes(),
{
    let buf_size: u32 = params.buf_size_bytes();
    let bps: u32 = params.bytes_per_sample();
    proof {
        params.lemma_frame_divides_buffer();
        assert(sample_idx * bps <= u32::MAX * u32::MAX) by (nonlinear_arith)
            requires
                0 <= sample_idx <= u32::MAX,
                0 <= bps <= u32::MAX,
        ;
    }
    let byte_to_lock: u32 = ((sample_idx as u64 * bps as u64) % buf_size as u64) as u32;
    let millis_in_buf: u32 = params.buf_size_seconds as u32 * 1000;
    let rate: u32 = buf_size / millis_in_buf;
    assert(rate <= buf_size) by (nonlinear_arith)
        requires
            rate == buf_size as int / millis_in_buf as int,
            millis_in_buf > 0,
            buf_size >= 0,
    ;
    // Beyond a whole buffer's worth of time the result is clamped anyway.
    let capped_ms: u64 = if elapsed_ms > buf_size as u128 {
        buf_size as u64
    } else {
        elapsed_ms as u64
    };
    assert(rate * capped_ms <= 0x8000_0000u64 * 0x8000_0000u64) by (nonlinear_arith)
        requires
            buf_size <= 0x8000_0000u64,
            rate <= buf_size,
            capped_ms <= buf_size,
            rate >= 0,
            capped_ms >= 0,
    ;
    let base: u64 = rate as u64 * capped_ms;
    let margin: u32 = buf_size / 100;
    let dist: i32 = circular_distance(byte_to_lock, write_cur, buf_size);
    let mut bytes: u64 = if dist < margin as i32 {
        base + margin as u64
    } else {
        base
    };
    if bytes > buf_size as u64 {
        bytes = buf_size as u64;
    }
    proof {
        if elapsed_ms > buf_size {
            lemma_capped_product(rate as int, elapsed_ms as int, buf_size as int);
        }
    }
    AudioWrite { byte_to_lock, bytes_to_write: bytes as u32 }
}

/// Running sample index after writing `bytes_written` more bytes.
pub open spec fn spec_advance(p: SoundParams, sample_idx: int, bytes_written: int) -> int {
    (sample_idx + bytes_written / p.spec_bytes_per_sample()) % p.spec_capacity()
}

/// Moves the running sample index past `bytes_written` bytes, wrapping at the
/// ring's capacity in sample frames.
pub fn advance_sample_index(params: &SoundParams, sample_idx: u32, bytes_written: u32) -> (r: u32)
    requires
        params.wf(),
    ensures
        r == spec_advance(*params, sample_idx as int, bytes_written as int),
        r < params.spec_capacity(),
{
    let buf_size: u32 = params.buf_size_bytes();
    let bps: u32 = params.bytes_per_sample();
    proof {
        params.lemma_frame_divides_buffer();
    }
    let capacity: u32 = buf_size / bps;
    ((sample_idx as u64 + (bytes_written / bps) as u64) % capacity as u64) as u32
}

/// Index reached from `sample_idx` after a series of writes of the given sizes.
pub open spec fn index_after_writes(p: SoundParams, sample_idx: int, writes: Seq<u32>) -> int
    decreases writes.len(),
{
    if writes.len() == 0 {
        sample_idx
    } else {
        spec_advance(p, index_after_writes(p, sample_idx, writes.drop_last()), writes.last() as int)
    }
}

/// Sample frames covered by a series of writes, each counted in whole frames.
pub open spec fn frames_in_writes(p: SoundParams, writes: Seq<u32>) -> int
    decreases writes.len(),
{
    if writes.len() == 0 {
        0
    } else {
        frames_in_writes(p, writes.drop_last()) + writes.last() as int / p.spec_bytes_per_sample()
    }
}

/// After any series of writes the running index equals the start index plus
/// the frames written, reduced modulo the ring's capacity: it never leaves
/// the ring.
pub proof fn lemma_index_after_writes(p: SoundParams, sample_idx: int, writes: Seq<u32>)
    requires
        p.wf(),
        0 <= sample_idx < p.spec_capacity(),
    ensures
        index_after_writes(p, sample_idx, writes) == (sample_idx + frames_in_writes(p, writes))
            % p.spec_capacity(),
        0 <= index_after_writes(p, sample_idx, writes) < p.spec_capacity(),
    decreases writes.len(),
{
    p.lemma_frame_divides_buffer();
    let cap = p.spec_capacity();
    if writes.len() == 0 {
        vstd::arithmetic::div_mod::lemma_small_mod(sample_idx as nat, cap as nat);
    } else {
        let rest = writes.drop_last();
        lemma_index_after_writes(p, sample_idx, rest);
        let k: int = writes.last() as int / p.spec_bytes_per_sample();
        let f = sample_idx + frames_in_writes(p, rest);
        vstd::arithmetic::div_mod::lemma_add_mod_noop_right(k, f, cap);
        assert(index_after_writes(p, sample_idx, writes) == (f % cap + k) % cap);
        assert(f + k == sample_idx + frames_in_writes(p, writes));
        vstd::arithmetic::div_mod::lemma_mod_bound(sample_idx + frames_in_writes(p, writes), cap);
    }
}

/// Where a write of `bytes_to_write` bytes at `byte_to_lock` lands in the
/// ring: a first span from the lock offset up to at most the end of the
/// buffer, and a second span, possibly empty, from offset zero.
#[derive(Clone, Copy, Debug, PartialEq, Eq)]
pub struct LockRegions {
    pub first_offset: u32,
    pub first_len: u32,
    pub second_len: u32,
}

/// Splits a write that may cross the end of the ring into its two spans.
pub fn lock_regions(byte_to_lock: u32, bytes_to_write: u32, buf_size: u32) -> (r: LockRegions)
    requires
        byte_to_lock < buf_size,
        bytes_to_write <= buf_size,
    ensures
        r.first_offset == byte_to_lock,
        r.first_len + r.second_len == bytes_to_write,
        r.first_len == if byte_to_lock + bytes_to_write <= buf_size {
            bytes_to_write as int
        } else {
            buf_size - byte_to_lock
        },
        r.first_offset + r.first_len <= buf_size,
        r.second_len <= byte_to_lock,
{
    let room: u32 = buf_size - byte_to_lock;
    if bytes_to_write <= room {
        LockRegions { first_offset: byte_to_lock, first_len: bytes_to_write, second_len: 0 }
    } else {
        LockRegions {
            first_offset: byte_to_lock,
            first_len: room,
            second_len: bytes_to_write - room,
        }
    }
}

/// Copies generated samples into the two locked spans in order: the first
/// span takes the leading samples and the second continues where the first
/// stopped.
pub fn fill_regions(samples: &Vec<i16>, first: &mut [i16], second: &mut [i16])
    requires
        old(first)@.len() + old(second)@.len() <= samples@.len(),
    ensures
        final(first)@.len() == old(first)@.len(),
        final(second)@.len() == old(second)@.len(),
        final(first)@ == samples@.subrange(0, old(first)@.len() as int),
        final(second)@ == samples@.subrange(
            old(first)@.len() as int,
            (old(first)@.len() + old(second)@.len()) as int,
        ),
{
    let n1: usize = first.len();
    let n2: usize = second.len();
    let total: usize = samples.len();
    let mut i: usize = 0;
    while i < n1
        invariant
            n1 == old(first)@.len(),
            n1 + n2 <= samples@.len(),
            n2 == second@.len(),
            0 <= i <= n1,
            first@.len() == n1,
            second@ == old(second)@,
            forall|k: int| 0 <= k < i ==> first@[k] == samples@[k],
        decreases n1 - i,
    {
        first[i] = samples[i];
        i = i + 1;
    }
    let mut j: usize = 0;
    while j < n2
        invariant
            n1 == old(first)@.len(),
            n2 == old(second)@.len(),
            n1 + n2 <= samples@.len(),
            0 <= j <= n2,
            first@.len() == n1,
            second@.len() == n2,
            forall|k: int| 0 <= k < n1 ==> first@[k] == samples@[k],
            forall|k: int| 0 <= k < j ==> second@[k] == samples@[n1 + k],
            total == samples@.len(),
        decreases n2 - j,
    {
        second[j] = samples[n1 + j];
        j = j + 1;
    }
    assert(first@ =~= samples@.subrange(0, n1 as int));
    assert(second@ =~= samples@.subrange(n1 as int, (n1 + n2) as int));
}

/// The scheduler's state carried from frame to frame: the running sample
/// index into the ring and whether looped playback has been started.
#[derive(Clone, Copy, Debug, PartialEq, Eq)]
pub struct AudioState {
    pub sample_idx: u32,
    pub sound_playing: bool,
}

impl AudioState {
    pub open spec fn wf(self, p: SoundParams) -> bool {
        self.sample_idx < p.spec_capacity()
    }

    pub fn new() -> (r: AudioState)
        ensures
            r.sample_idx == 0,
            !r.sound_playing,
    {
        AudioState { sample_idx: 0, sound_playing: false }
    }

    /// Plans this frame's write from the running index.
    pub fn plan_write(&self, params: &SoundParams, write_cur: u32, elapsed_ms: u128) -> (r:
        AudioWrite)
        requires
            params.wf(),
            write_cur < params.spec_buf_size_bytes(),
        ensures
            r == spec_plan(*params, self.sample_idx as int, write_cur as int, elapsed_ms as int),
            r.byte_to_lock < params.spec_buf_size_bytes(),
            0 <= r.bytes_to_write <= params.spec_buf_size_bytes(),
    {
        plan_audio_write(params, self.sample_idx, write_cur, elapsed_ms)
    }

    /// Records a completed write of `bytes_written` bytes. Returns true exactly
    /// once, after the first write, when looped playback must be started.
    pub fn finish_write(&mut self, params: &SoundParams, bytes_written: u32) -> (start_playback:
        bool)
        requires
            params.wf(),
        ensures
            final(self).sample_idx == spec_advance(
                *params,
                old(self).sample_idx as int,
                bytes_written as int,
            ),
            final(self).sound_playing,
            start_playback == !old(self).sound_playing,
            final(self).wf(*params),
    {
        self.sample_idx = advance_sample_index(params, self.sample_idx, bytes_written);
        let start_playback = !self.sound_playing;
        self.sound_playing = true;
        start_playback
    }
}

} // verus!
