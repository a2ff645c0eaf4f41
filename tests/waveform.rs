use rmh::wave::{render_audio, render_audio_frame, AMPLITUDE};

/// One period of the 2000-amplitude sine tone, computed in `f32`.
fn sine_period(half: i32) -> Vec<i16> {
    let mut period = Vec::new();
    for t in 0..2 * half {
        let radians = std::f32::consts::PI * 2.0 / (half * 2) as f32 * t as f32;
        period.push((radians.sin() * 2000.0) as i16);
    }
    period
}

#[test]
fn quarter_points_of_sine() {
    let period = sine_period(30);
    let mut buf = vec![0i16; 2 * 60];
    let mut t = 0i32;
    render_audio(&mut buf, &period, &mut t);
    let near = |got: i16, want: i16| (got as i32 - want as i32).abs() <= 1;
    assert_eq!(buf[0], 0);
    assert!(near(buf[2 * 15], 2000));
    assert!(near(buf[2 * 45], -2000));
    assert!(near(buf[2 * 5], 1000));
    assert!(near(buf[2 * 30], 0));
}

#[test]
fn samples_follow_the_period_table() {
    let period = sine_period(30);
    let mut buf = vec![7i16; 2];
    let mut t = 0i32;
    render_audio(&mut buf, &period, &mut t);
    assert_eq!(buf, vec![0, 0]);
    assert_eq!(t, 1);
    let mut last = vec![0i16; 2];
    let mut u = 59i32;
    render_audio(&mut last, &period, &mut u);
    assert_eq!(last, vec![-209, -209]);
    assert_eq!(u, 0);
}

#[test]
fn full_period_returns_phase() {
    let period = sine_period(30);
    for start in [0i32, 1, 17, 59] {
        let mut buf = vec![0i16; 2 * 60];
        let mut t = start;
        render_audio(&mut buf, &period, &mut t);
        assert_eq!(t, start);
    }
}

#[test]
fn phase_wraps_inside_period() {
    let period = sine_period(30);
    let mut buf = vec![0i16; 2 * 7];
    let mut t = 55i32;
    render_audio(&mut buf, &period, &mut t);
    assert_eq!(t, 2);
    assert_eq!(buf[2 * 5], period[0]);
    assert_eq!(buf[2 * 6], period[1]);
}

#[test]
fn channels_are_duplicated() {
    let period = sine_period(23);
    let mut buf = vec![0i16; 2 * 200];
    let mut t = 3i32;
    render_audio(&mut buf, &period, &mut t);
    for k in 0..200 {
        assert_eq!(buf[2 * k], buf[2 * k + 1]);
        assert_eq!(buf[2 * k], period[(3 + k) % 46]);
    }
}

#[test]
fn amplitude_never_exceeded() {
    for half in [1i32, 2, 3, 7, 30, 31, 100, 1000] {
        let period = sine_period(half);
        let mut buf = vec![0i16; 2 * 4 * half as usize];
        let mut t = 0i32;
        render_audio(&mut buf, &period, &mut t);
        let peak = buf.iter().map(|v| (*v as i32).abs()).max().unwrap();
        assert!(peak <= AMPLITUDE as i32);
    }
}

#[test]
fn empty_buffer_leaves_phase() {
    let period = sine_period(30);
    let mut buf: Vec<i16> = Vec::new();
    let mut t = 12i32;
    render_audio(&mut buf, &period, &mut t);
    assert!(buf.is_empty());
    assert_eq!(t, 12);
}

#[test]
fn phase_beyond_period_restarts() {
    // A phase left over from a longer period restarts at zero.
    let period = sine_period(30);
    let mut buf = vec![0i16; 2];
    let mut t = 100i32;
    render_audio(&mut buf, &period, &mut t);
    assert_eq!(t, 0);
    // Phase 100 is 40 samples into the 60-sample period.
    assert_eq!(buf, vec![period[40], period[40]]);
}

#[test]
fn negative_phase_counts_from_period_end() {
    let period = sine_period(30);
    let mut buf = vec![0i16; 4];
    let mut t = -1i32;
    render_audio(&mut buf, &period, &mut t);
    assert_eq!(buf, vec![period[59], period[59], period[0], period[0]]);
    assert_eq!(t, 1);
}

#[test]
fn half_period_of_one() {
    let period = sine_period(1);
    let mut buf = vec![0i16; 8];
    let mut t = 0i32;
    render_audio(&mut buf, &period, &mut t);
    assert_eq!(buf, vec![period[0], period[0], period[1], period[1], period[0], period[0], period[1], period[1]]);
    assert_eq!(t, 0);
}

#[test]
fn frame_has_one_pair_per_four_bytes() {
    let period = sine_period(30);
    let mut t = 0i32;
    let frame = render_audio_frame(4992, &period, &mut t);
    assert_eq!(frame.len(), 2496);
    assert_eq!(t, (1248 % 60) as i32);
    let mut u = 0i32;
    let mut buf = vec![0i16; 2496];
    render_audio(&mut buf, &period, &mut u);
    assert_eq!(frame, buf);
}

#[test]
fn frame_ignores_partial_frame_bytes() {
    let period = sine_period(30);
    let mut t = 5i32;
    let frame = render_audio_frame(7, &period, &mut t);
    assert_eq!(frame, vec![period[5], period[5]]);
    assert_eq!(t, 6);
    let empty = render_audio_frame(3, &period, &mut t);
    assert!(empty.is_empty());
    assert_eq!(t, 6);
}
