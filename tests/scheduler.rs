use rmh::sound::{
    advance_sample_index, circular_distance, fill_regions, lock_regions, plan_audio_write,
    AudioState, SoundParams, WaveFormat, WAVE_FORMAT_PCM,
};

fn one_second_stereo() -> SoundParams {
    SoundParams { bits_per_sample: 16, n_channels: 2, n_samples_per_sec: 48000, buf_size_seconds: 1 }
}

#[test]
fn sound_params_sizes() {
    let p = one_second_stereo();
    assert!(p.is_valid());
    assert_eq!(p.buf_size_bytes(), 192000);
    assert_eq!(p.bytes_per_sample(), 4);
    let two = SoundParams { buf_size_seconds: 2, ..p };
    assert_eq!(two.buf_size_bytes(), 384000);
}

#[test]
fn sound_params_rejects_partial_bytes_and_zero_fields() {
    let p = one_second_stereo();
    assert!(!SoundParams { bits_per_sample: 4, n_channels: 1, ..p }.is_valid());
    assert!(!SoundParams { n_channels: 0, ..p }.is_valid());
    assert!(!SoundParams { buf_size_seconds: 0, ..p }.is_valid());
    assert!(SoundParams { bits_per_sample: 4, n_channels: 2, ..p }.is_valid());
}

#[test]
fn sound_params_rejects_oversized_buffer() {
    let p = SoundParams {
        bits_per_sample: 64,
        n_channels: 8,
        n_samples_per_sec: 65535,
        buf_size_seconds: 65535,
    };
    assert!(!p.is_valid());
}

#[test]
fn wave_format_pcm() {
    let f = WaveFormat::new_pcm(2, 16, 48000);
    assert_eq!(f.format_tag, WAVE_FORMAT_PCM);
    assert_eq!(f.n_channels, 2);
    assert_eq!(f.bits_per_sample, 16);
    assert_eq!(f.n_samples_per_sec, 48000);
    assert_eq!(f.block_align, 4);
    assert_eq!(f.avg_bytes_per_sec, 192000);
}

#[test]
fn circular_distance_plain_difference() {
    assert_eq!(circular_distance(1000, 400, 192000), 600);
    assert_eq!(circular_distance(400, 1000, 192000), -600);
    assert_eq!(circular_distance(5000, 5000, 192000), 0);
}

#[test]
fn circular_distance_across_wrap() {
    // 191000 is in the last quarter, 500 in the first.
    assert_eq!(circular_distance(191000, 500, 192000), -1500);
    assert_eq!(circular_distance(500, 191000, 192000), 1500);
}

#[test]
fn circular_distance_antisymmetric_samples() {
    let size = 192000u32;
    let points = [0u32, 1, 47999, 48000, 48001, 95000, 143999, 144000, 144001, 191999];
    for &a in points.iter() {
        assert_eq!(circular_distance(a, a, size), 0);
        for &b in points.iter() {
            assert_eq!(circular_distance(a, b, size), -circular_distance(b, a, size));
        }
    }
}

#[test]
fn circular_distance_tiny_ring_plain_difference() {
    // A ring under 100 bytes has no distinct quarters.
    assert_eq!(circular_distance(0, 0, 50), 0);
    assert_eq!(circular_distance(10, 0, 50), 10);
    assert_eq!(circular_distance(0, 10, 50), -10);
    assert_eq!(circular_distance(49, 0, 50), 49);
}

#[test]
fn plan_sixteen_millis_near_cursor_adds_margin() {
    let p = one_second_stereo();
    let w = plan_audio_write(&p, 0, 0, 16);
    assert_eq!(w.byte_to_lock, 0);
    assert_eq!(w.bytes_to_write, 3072 + 1920);
}

#[test]
fn plan_sixteen_millis_ahead_of_cursor() {
    let p = one_second_stereo();
    // Lock offset 0 is 2000 bytes ahead of the cursor at 190000, across the wrap.
    let w = plan_audio_write(&p, 0, 190000, 16);
    assert_eq!(w.byte_to_lock, 0);
    assert_eq!(w.bytes_to_write, 3072);
}

#[test]
fn plan_zero_elapsed() {
    let p = one_second_stereo();
    let far = plan_audio_write(&p, 1000, 0, 0);
    assert_eq!(far.byte_to_lock, 4000);
    assert_eq!(far.bytes_to_write, 0);
    let near = plan_audio_write(&p, 1000, 3000, 0);
    assert_eq!(near.bytes_to_write, 1920);
}

#[test]
fn plan_clamps_to_buffer() {
    let p = one_second_stereo();
    let w = plan_audio_write(&p, 0, 0, 5000);
    assert_eq!(w.bytes_to_write, 192000);
    let huge = plan_audio_write(&p, 0, 190000, u128::MAX);
    assert_eq!(huge.bytes_to_write, 192000);
    for ms in [0u128, 1, 10, 999, 1000, 1001, 100000] {
        for cur in [0u32, 1000, 96000, 191999] {
            let w = plan_audio_write(&p, 47000, cur, ms);
            assert!(w.bytes_to_write <= 192000);
        }
    }
}

#[test]
fn plan_lock_offset_wraps() {
    let p = one_second_stereo();
    let w = plan_audio_write(&p, 47999, 0, 0);
    assert_eq!(w.byte_to_lock, 191996);
    let w = plan_audio_write(&p, 48000, 0, 0);
    assert_eq!(w.byte_to_lock, 0);
}

#[test]
fn advance_wraps_at_capacity() {
    let p = one_second_stereo();
    assert_eq!(advance_sample_index(&p, 0, 4992), 1248);
    assert_eq!(advance_sample_index(&p, 47000, 8000), 1000);
    assert_eq!(advance_sample_index(&p, 10, 3), 10);
}

#[test]
fn running_index_after_many_writes() {
    let p = one_second_stereo();
    let writes = [4992u32, 3072, 192000, 100, 7, 50000, 191996];
    let mut idx = 0u32;
    let mut frames = 0u64;
    for &b in writes.iter() {
        idx = advance_sample_index(&p, idx, b);
        frames += (b / 4) as u64;
    }
    assert_eq!(idx as u64, frames % 48000);
}

#[test]
fn lock_regions_split_at_end() {
    let r = lock_regions(192000 - 50, 200, 192000);
    assert_eq!(r.first_offset, 191950);
    assert_eq!(r.first_len, 50);
    assert_eq!(r.second_len, 150);
    assert_eq!(r.first_len + r.second_len, 200);
}

#[test]
fn lock_regions_no_split() {
    let r = lock_regions(1000, 200, 192000);
    assert_eq!(r.first_offset, 1000);
    assert_eq!(r.first_len, 200);
    assert_eq!(r.second_len, 0);
    let whole = lock_regions(0, 192000, 192000);
    assert_eq!(whole.first_len, 192000);
    assert_eq!(whole.second_len, 0);
}

#[test]
fn fill_regions_continues_across_boundary() {
    let samples: Vec<i16> = (0..12).map(|v| v as i16).collect();
    let mut first = vec![0i16; 4];
    let mut second = vec![0i16; 6];
    fill_regions(&samples, &mut first, &mut second);
    assert_eq!(first, vec![0, 1, 2, 3]);
    assert_eq!(second, vec![4, 5, 6, 7, 8, 9]);
}

#[test]
fn fill_regions_empty_second() {
    let samples: Vec<i16> = vec![7, -7];
    let mut first = vec![0i16; 2];
    let mut second: Vec<i16> = Vec::new();
    fill_regions(&samples, &mut first, &mut second);
    assert_eq!(first, vec![7, -7]);
    assert!(second.is_empty());
}

#[test]
fn playback_starts_once() {
    let p = one_second_stereo();
    let mut s = AudioState::new();
    assert_eq!(s.sample_idx, 0);
    assert!(!s.sound_playing);
    let w = s.plan_write(&p, 0, 16);
    assert!(s.finish_write(&p, w.bytes_to_write));
    assert_eq!(s.sample_idx, 1248);
    assert!(s.sound_playing);
    assert!(!s.finish_write(&p, 3072));
    assert_eq!(s.sample_idx, 2016);
    let w = s.plan_write(&p, 0, 0);
    assert_eq!(w.byte_to_lock, 8064);
}
