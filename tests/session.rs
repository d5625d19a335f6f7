use recorder::flip::vflip;
use recorder::scaler::{ScaleParams, ScalerCache};
use recorder::session::{
    encode_result, EncodeFailure, Recorder, SessionState, SetupFailure, SnapError, CODEC_ID_MPEG1VIDEO,
    CODEC_ID_NONE, PIX_FMT_RGB24, PIX_FMT_YUV420P,
};
use recorder::timebase::{rescale_q, Rational};

fn tb(num: i32, den: i32) -> Rational {
    Rational { num, den }
}

fn solid_frame(width: usize, height: usize, value: u8) -> Vec<u8> {
    vec![value; width * 3 * height]
}

fn ready_recorder(width: usize, height: usize) -> Recorder {
    let mut r = Recorder::new("out.mpg", width, height);
    assert_eq!(r.init(tb(1, 60)), Ok(()));
    r
}

#[test]
fn odd_dimensions_round_up() {
    let r = Recorder::new("out.mpg", 101, 100);
    assert_eq!(r.width, 102);
    assert_eq!(r.height, 100);
    let r = Recorder::new("out.mpg", 7, 9);
    assert_eq!((r.width, r.height), (8, 10));
}

#[test]
fn even_dimensions_kept() {
    for (w, h) in [(0usize, 0usize), (2, 4), (640, 480), (1920, 1080)] {
        let r = Recorder::new("a.mp4", w, h);
        assert_eq!((r.width, r.height), (w, h));
    }
}

#[test]
fn defaults_and_overrides() {
    let r = Recorder::new("a.mp4", 10, 10);
    assert_eq!(r.path, "a.mp4");
    assert_eq!(r.bit_rate, 400000);
    assert_eq!(r.time_base, (1, 60));
    assert_eq!(r.gop_size, 10);
    assert_eq!(r.max_b_frames, 1);
    assert_eq!(r.pix_fmt, PIX_FMT_YUV420P);
    assert_eq!(r.state, SessionState::Uninitialized);
    let r = Recorder::new_with_params("b.avi", 3, 3, Some(0), Some((1, 25)), Some(12), Some(0), Some(5));
    assert_eq!(r.bit_rate, 0);
    assert_eq!(r.time_base, (1, 25));
    assert_eq!(r.gop_size, 12);
    assert_eq!(r.max_b_frames, 0);
    assert_eq!(r.pix_fmt, 5);
    assert_eq!((r.width, r.height), (4, 4));
}

#[test]
fn vflip_swaps_rows_and_keeps_middle() {
    let mut v: Vec<u8> = vec![1, 2, 3, 4, 5, 6, 7, 8, 9, 42];
    vflip(&mut v, 3, 3);
    assert_eq!(v, vec![7, 8, 9, 4, 5, 6, 1, 2, 3, 42]);
}

#[test]
fn vflip_even_rows() {
    let mut v: Vec<u8> = vec![1, 2, 3, 4, 5, 6, 7, 8];
    vflip(&mut v, 2, 4);
    assert_eq!(v, vec![7, 8, 5, 6, 3, 4, 1, 2]);
}

#[test]
fn vflip_twice_is_identity() {
    let orig: Vec<u8> = (0..60u8).collect();
    let mut v = orig.clone();
    vflip(&mut v, 6, 9);
    assert_ne!(v, orig);
    vflip(&mut v, 6, 9);
    assert_eq!(v, orig);
}

#[test]
fn vflip_empty() {
    let mut v: Vec<u8> = Vec::new();
    vflip(&mut v, 0, 0);
    assert!(v.is_empty());
    let mut v: Vec<u8> = vec![1, 2, 3];
    vflip(&mut v, 3, 1);
    assert_eq!(v, vec![1, 2, 3]);
}

#[test]
fn rescale_exact_values() {
    assert_eq!(rescale_q(1, tb(1, 60), tb(1, 90000)), Some(1500));
    assert_eq!(rescale_q(1, tb(1, 60), tb(1, 60)), Some(1));
    assert_eq!(rescale_q(3, tb(1, 25), tb(1, 1000)), Some(120));
    assert_eq!(rescale_q(1, tb(1, 3), tb(1, 1)), Some(0));
    assert_eq!(rescale_q(2, tb(1, 3), tb(1, 1)), Some(1));
}

#[test]
fn rescale_rounds_halves_away_from_zero() {
    assert_eq!(rescale_q(1, tb(1, 2), tb(1, 1)), Some(1));
    assert_eq!(rescale_q(-1, tb(1, 2), tb(1, 1)), Some(-1));
    assert_eq!(rescale_q(3, tb(1, 2), tb(1, 1)), Some(2));
    assert_eq!(rescale_q(-3, tb(1, 2), tb(1, 1)), Some(-2));
}

#[test]
fn rescale_refuses_bad_bases_and_overflow() {
    assert_eq!(rescale_q(1, tb(0, 1), tb(1, 1)), None);
    assert_eq!(rescale_q(1, tb(1, 0), tb(1, 1)), None);
    assert_eq!(rescale_q(1, tb(1, 1), tb(-1, 1)), None);
    assert_eq!(rescale_q(i64::MAX, tb(2, 1), tb(1, 1)), None);
    assert_eq!(rescale_q(i64::MIN, tb(2, 1), tb(1, 1)), None);
    assert_eq!(rescale_q(i64::MIN, tb(1, 1), tb(1, 1)), Some(i64::MIN));
    assert_eq!(rescale_q(i64::MAX, tb(1, 1), tb(1, 1)), Some(i64::MAX));
}

#[test]
fn rescale_round_trip_sequence() {
    let a = tb(1, 60);
    let b = tb(1001, 30000);
    let mut prev: i64 = i64::MIN;
    for i in 0..500i64 {
        let there = rescale_q(i, a, b).unwrap();
        let back = rescale_q(there, b, a).unwrap();
        assert!(back >= prev);
        prev = back;
        // 2 * |back - i| * (1 * 30000) <= 1001 * 60 + 1 * 30000
        assert!(2 * (back - i).abs() * 30000 <= 1001 * 60 + 30000);
    }
    for i in 0..500i64 {
        let there = rescale_q(i, a, tb(1, 90000)).unwrap();
        assert_eq!(rescale_q(there, tb(1, 90000), a), Some(i));
    }
}

#[test]
fn scaler_cache_reuses_context() {
    let p = ScaleParams { src_width: 50, src_height: 50, src_format: 2, dst_width: 64, dst_height: 48, dst_format: 0 };
    let mut c = ScalerCache::new();
    assert!(c.request(p));
    for _ in 0..10 {
        assert!(!c.request(p));
    }
    assert_eq!(c.builds, 1);
    let q = ScaleParams { src_width: 80, src_height: 60, ..p };
    assert!(c.request(q));
    assert!(c.request(p));
    assert_eq!(c.builds, 3);
}

#[test]
fn snap_before_setup_is_refused() {
    let mut r = Recorder::new("out.mpg", 4, 4);
    let mut buf = solid_frame(4, 4, 1);
    assert_eq!(r.snap(&mut buf, 4, 4), Err(SnapError::NotReady));
    assert_eq!(r.pts, 0);
}

#[test]
fn snap_assigns_consecutive_timestamps() {
    let mut r = Recorder::new("out.mpg", 101, 100);
    assert!(r.needs_setup());
    assert_eq!(r.init(tb(1, 60)), Ok(()));
    assert!(!r.needs_setup());
    for k in 1..=5u8 {
        let mut buf = solid_frame(101, 100, 40 * k);
        let plan = r.snap(&mut buf, 101, 100).unwrap();
        assert_eq!(plan.pts, k as i64);
        assert_eq!(plan.rebuild_scaler, k == 1);
        assert_eq!(plan.scale.dst_width, 102);
        assert_eq!(plan.scale.dst_height, 100);
        assert_eq!(plan.scale.src_format, PIX_FMT_RGB24);
        assert_eq!(plan.scale.dst_format, PIX_FMT_YUV420P);
    }
    assert_eq!(r.curr_frame_index, 5);
    assert_eq!(r.scaler.builds, 1);
    assert!(r.dispose());
}

#[test]
fn snap_rescales_into_stream_time_base() {
    let mut r = ready_recorder(4, 4);
    let mut r2 = Recorder::new("out.mp4", 4, 4);
    assert_eq!(r2.init(tb(1, 90000)), Ok(()));
    let mut buf = solid_frame(4, 4, 0);
    assert_eq!(r2.snap(&mut buf, 4, 4).unwrap().pts, 1500);
    assert_eq!(r2.snap(&mut buf, 4, 4).unwrap().pts, 3000);
    assert_eq!(r.snap(&mut buf, 4, 4).unwrap().pts, 1);
}

#[test]
fn snap_flips_the_capture() {
    let mut r = ready_recorder(2, 2);
    let mut buf: Vec<u8> = vec![1, 1, 1, 2, 2, 2, 3, 3, 3, 4, 4, 4];
    r.snap(&mut buf, 2, 2).unwrap();
    assert_eq!(buf, vec![3, 3, 3, 4, 4, 4, 1, 1, 1, 2, 2, 2]);
}

#[test]
fn snap_short_buffer_changes_nothing() {
    let mut r = ready_recorder(4, 4);
    let mut buf: Vec<u8> = vec![9; 10];
    assert_eq!(r.snap(&mut buf, 2, 2), Err(SnapError::ShortBuffer));
    assert_eq!(buf, vec![9; 10]);
    assert_eq!(r.pts, 0);
    assert_eq!(r.curr_frame_index, 0);
    assert_eq!(r.snap(&mut buf, usize::MAX, 2), Err(SnapError::ShortBuffer));
    assert_eq!(r.snap(&mut buf, 0, 0).unwrap().pts, 1);
}

#[test]
fn snap_changing_source_dimensions() {
    let mut r = ready_recorder(64, 48);
    let mut a = solid_frame(50, 50, 10);
    let p1 = r.snap(&mut a, 50, 50).unwrap();
    let mut b = solid_frame(80, 60, 20);
    let p2 = r.snap(&mut b, 80, 60).unwrap();
    let p3 = r.snap(&mut b, 80, 60).unwrap();
    assert!(p1.rebuild_scaler && p2.rebuild_scaler && !p3.rebuild_scaler);
    for p in [p1, p2, p3] {
        assert_eq!((p.scale.dst_width, p.scale.dst_height), (64, 48));
    }
    assert_eq!((p2.scale.src_width, p2.scale.src_height), (80, 60));
    assert_eq!(r.scaler.builds, 2);
}

#[test]
fn init_is_idempotent() {
    let mut r = ready_recorder(4, 4);
    let mut buf = solid_frame(4, 4, 0);
    r.snap(&mut buf, 4, 4).unwrap();
    assert_eq!(r.init(tb(1, 1000)), Ok(()));
    assert_eq!(r.pts, 1);
    assert_eq!(r.stream_time_base, tb(1, 60));
}

#[test]
fn init_refuses_bad_time_bases() {
    let mut r = Recorder::new("x.mpg", 4, 4);
    assert_eq!(r.init(tb(0, 60)), Err(SetupFailure::TimeBase));
    assert_eq!(r.state, SessionState::Uninitialized);
    let mut r = Recorder::new_with_params("x.mpg", 4, 4, None, Some((0, 60)), None, None, None);
    assert_eq!(r.init(tb(1, 60)), Err(SetupFailure::TimeBase));
    let mut r = Recorder::new_with_params("x.mpg", 4, 4, None, Some((1, 1usize << 40)), None, None, None);
    assert_eq!(r.init(tb(1, 60)), Err(SetupFailure::TimeBase));
}

#[test]
fn dispose_without_capture_does_nothing() {
    let mut r = Recorder::new("out.mpg", 4, 4);
    assert!(!r.dispose());
    assert_eq!(r.state, SessionState::Closed);
    assert!(!r.dispose());
    assert_eq!(r.init(tb(1, 60)), Err(SetupFailure::Closed));
}

#[test]
fn dispose_twice_tears_down_once() {
    let mut r = ready_recorder(4, 4);
    assert!(r.dispose());
    assert!(!r.dispose());
    assert!(!r.dispose());
    let mut buf = solid_frame(4, 4, 0);
    assert_eq!(r.snap(&mut buf, 4, 4), Err(SnapError::NotReady));
}

#[test]
fn codec_settings_follow_codec() {
    let r = Recorder::new_with_params("v.mpg", 101, 100, Some(800000), Some((1, 30)), Some(12), Some(2), None);
    assert_eq!(r.codec_settings(CODEC_ID_NONE), Err(SetupFailure::NoVideoCodec));
    let s = r.codec_settings(CODEC_ID_MPEG1VIDEO).unwrap();
    assert_eq!(s.mb_decision, Some(2));
    assert_eq!((s.width, s.height), (102, 100));
    assert_eq!(s.bit_rate, 800000);
    assert_eq!(s.time_base, (1, 30));
    assert_eq!(s.gop_size, 12);
    assert_eq!(s.max_b_frames, 2);
    assert_eq!(s.pix_fmt, PIX_FMT_YUV420P);
    let s = r.codec_settings(13).unwrap();
    assert_eq!(s.mb_decision, None);
    assert_eq!(s.codec_id, 13);
}

#[test]
fn encode_results() {
    assert_eq!(encode_result(0, true), Ok(true));
    assert_eq!(encode_result(0, false), Ok(false));
    assert_eq!(encode_result(5, false), Ok(false));
    assert_eq!(encode_result(-22, true), Err(EncodeFailure { status: -22 }));
}

#[test]
fn snap_timestamps_do_not_drift() {
    let mut r = Recorder::new("out.mpg", 4, 4);
    assert_eq!(r.init(tb(1, 90)), Ok(()));
    let mut buf = solid_frame(4, 4, 0);
    let got: Vec<i64> = (0..4).map(|_| r.snap(&mut buf, 4, 4).unwrap().pts).collect();
    assert_eq!(got, vec![2, 3, 5, 6]);
    for (k, p) in got.iter().enumerate() {
        assert_eq!(rescale_q(*p, tb(1, 90), tb(1, 60)), Some(k as i64 + 1));
    }
}

#[test]
fn snap_long_recording_matches_exact_rescale() {
    let mut r = Recorder::new_with_params("out.mp4", 4, 4, None, Some((1001, 30000)), None, None, None);
    assert_eq!(r.init(tb(1, 90000)), Ok(()));
    let mut buf = solid_frame(4, 4, 0);
    for k in 1..=1000i64 {
        let p = r.snap(&mut buf, 4, 4).unwrap().pts;
        assert_eq!(p, k * 3003);
    }
}

#[test]
fn vflip_single_row_short_buffer() {
    let mut v: Vec<u8> = vec![5, 6];
    vflip(&mut v, 3, 1);
    assert_eq!(v, vec![5, 6]);
    let mut v: Vec<u8> = Vec::new();
    vflip(&mut v, 8, 1);
    assert!(v.is_empty());
}
