//! The recording session: configuration, lifecycle states and the decisions
//! taken for every captured frame and at shutdown.
use vstd::prelude::*;
use crate::flip::{flipped, vflip};
use crate::scaler::{needs_rebuild, saturating_inc, ScaleParams, ScalerCache};
use crate::timebase::{abs, fits_i64, lemma_rescale_monotonic, lemma_rescale_round_trip, lemma_rescaled_zero, positive, rescale_q, rescaled, Rational};

verus! {

/// Average bit rate used when none is given.
pub const DEFAULT_BIT_RATE: usize = 400000;

/// Ticks per second of the default time base.
pub const DEFAULT_FRAME_RATE: usize = 60;

/// Pictures in a group of pictures when none is given.
pub const DEFAULT_GOP_SIZE: usize = 10;

/// Consecutive B-frames allowed when none is given.
pub const DEFAULT_MAX_B_FRAMES: usize = 1;

/// Planar YUV 4:2:0, the encoder's pixel format.
pub const PIX_FMT_YUV420P: i32 = 0;

/// Packed 8-bit RGB, the format of captured frames.
pub const PIX_FMT_RGB24: i32 = 2;

/// The container names no video codec.
pub const CODEC_ID_NONE: i32 = 0;

/// MPEG-1 video, which needs a conservative macroblock decision.
pub const CODEC_ID_MPEG1VIDEO: i32 = 1;

/// Macroblock decision mode that avoids coefficient overflow with MPEG-1.
pub const MB_DECISION_RD: i32 = 2;

/// Bytes per pixel of a captured RGB frame.
pub const RGB_BYTES: usize = 3;

#[derive(Clone, Copy, Debug, PartialEq, Eq, Structural)]
pub enum SessionState {
    Uninitialized,
    Ready,
    Closed,
}

/// Setup that cannot go on.
#[derive(Clone, Copy, Debug, PartialEq, Eq, Structural)]
pub enum SetupFailure {
    /// The session was already disposed of.
    Closed,
    /// The chosen container supports no video codec.
    NoVideoCodec,
    /// The configured or the stream's time base is not a positive ratio of `i32`s.
    TimeBase,
}

/// A frame that cannot be captured.
#[derive(Clone, Copy, Debug, PartialEq, Eq, Structural)]
pub enum SnapError {
    /// The session is not ready: it was never set up, or it was disposed of.
    NotReady,
    /// The buffer holds fewer bytes than the given dimensions need.
    ShortBuffer,
    /// The next timestamp, or the frame count, does not fit its integer type.
    Timestamp,
}

/// The encoder reported a negative status.
#[derive(Clone, Copy, Debug, PartialEq, Eq, Structural)]
pub struct EncodeFailure {
    pub status: i32,
}

/// What the encoder is opened with.
#[derive(Clone, Copy, Debug, PartialEq, Eq)]
pub struct CodecSettings {
    pub codec_id: i32,
    pub bit_rate: usize,
    pub width: usize,
    pub height: usize,
    pub time_base: (usize, usize),
    pub gop_size: usize,
    pub max_b_frames: usize,
    pub pix_fmt: i32,
    pub mb_decision: Option<i32>,
}

/// What to do with one captured frame once it has been flipped.
#[derive(Clone, Copy, Debug, PartialEq, Eq, Structural)]
pub struct FramePlan {
    /// Timestamp of the frame, in the stream's time base.
    pub pts: i64,
    /// Parameters of the colour conversion from the capture to the encoded frame.
    pub scale: ScaleParams,
    /// Whether the conversion context must be built anew for `scale`.
    pub rebuild_scaler: bool,
}

/// A video recording session.
pub struct Recorder {
    pub path: String,
    pub width: usize,
    pub height: usize,
    pub bit_rate: usize,
    pub time_base: (usize, usize),
    pub gop_size: usize,
    pub max_b_frames: usize,
    pub pix_fmt: i32,
    pub state: SessionState,
    pub curr_frame_index: usize,
    pub pts: i64,
    pub codec_time_base: Rational,
    pub stream_time_base: Rational,
    pub scaler: ScalerCache,
}

/// `x` rounded up to the next even number.
pub open spec fn round_even(x: nat) -> nat {
    if x % 2 == 0 { x } else { x + 1 }
}

/// The time base `(num, den)` as a ratio of `i32`s, when both parts fit and are positive.
pub open spec fn time_base_of(tb: (usize, usize)) -> Option<Rational> {
    if 0 < tb.0 <= i32::MAX && 0 < tb.1 <= i32::MAX {
        Some(Rational { num: tb.0 as i32, den: tb.1 as i32 })
    } else {
        None
    }
}

/// Bytes in an RGB frame of the given dimensions.
pub open spec fn rgb_frame_len(width: nat, height: nat) -> nat {
    (width * RGB_BYTES * height) as nat
}

/// How many teardowns `n` consecutive disposals perform, starting from `s`.
pub open spec fn teardowns(s: SessionState, n: nat) -> nat
    decreases n,
{
    if n == 0 {
        0
    } else {
        (if s == SessionState::Ready { 1nat } else { 0nat }) + teardowns(SessionState::Closed, (n - 1) as nat)
    }
}

fn round_up_even(x: usize) -> (r: usize)
    requires
        x < usize::MAX,
    ensures
        r == round_even(x as nat),
{
    if x % 2 == 0 { x } else { x + 1 }
}

/// Reads the outcome of one call of the encoder: `Ok(true)` when it produced a
/// packet that must be written, `Ok(false)` when it produced none, and an
/// error when its status is negative.
pub fn encode_result(status: i32, got_output: bool) -> (r: Result<bool, EncodeFailure>)
    ensures
        r == if status < 0 {
            Err::<bool, EncodeFailure>(EncodeFailure { status })
        } else {
            Ok::<bool, EncodeFailure>(got_output)
        },
{
    if status < 0 {
        Err(EncodeFailure { status })
    } else {
        Ok(got_output)
    }
}

impl Recorder {
    /// The configuration and counters every session keeps consistent.
    pub open spec fn wf(&self) -> bool {
        &&& self.width % 2 == 0
        &&& self.height % 2 == 0
        &&& self.state == SessionState::Ready ==> {
            &&& time_base_of(self.time_base) == Some(self.codec_time_base)
            &&& positive(self.stream_time_base)
            &&& self.pts == self.pts_at(self.curr_frame_index as int)
        }
    }

    /// A session with the default parameters: see `new_with_params`.
    pub fn new(path: &str, width: usize, height: usize) -> (r: Recorder)
        requires
            width < usize::MAX,
            height < usize::MAX,
        ensures
            r.wf(),
            r.path@ == path@,
            r.width == round_even(width as nat),
            r.height == round_even(height as nat),
            r.bit_rate == DEFAULT_BIT_RATE,
            r.time_base == (1usize, DEFAULT_FRAME_RATE),
            r.gop_size == DEFAULT_GOP_SIZE,
            r.max_b_frames == DEFAULT_MAX_B_FRAMES,
            r.pix_fmt == PIX_FMT_YUV420P,
            r.state == SessionState::Uninitialized,
            r.curr_frame_index == 0,
            r.pts == 0,
            r.scaler.key is None,
    {
        Recorder::new_with_params(path, width, height, None, None, None, None, None)
    }

    /// A session writing to `path` at `width` by `height`, each rounded up to
    /// an even number. Parameters left out take their defaults: bit rate
    /// 400000, time base 1/60, 10 pictures per group, 1 B-frame, planar YUV 4:2:0.
    pub fn new_with_params(
        path: &str,
        width: usize,
        height: usize,
        bit_rate: Option<usize>,
        time_base: Option<(usize, usize)>,
        gop_size: Option<usize>,
        max_b_frames: Option<usize>,
        pix_fmt: Option<i32>,
    ) -> (r: Recorder)
        requires
            width < usize::MAX,
            height < usize::MAX,
        ensures
            r.wf(),
            r.path@ == path@,
            r.width == round_even(width as nat),
            r.height == round_even(height as nat),
            r.bit_rate == (match bit_rate { Some(v) => v, None => DEFAULT_BIT_RATE }),
            r.time_base == (match time_base { Some(v) => v, None => (1usize, DEFAULT_FRAME_RATE) }),
            r.gop_size == (match gop_size { Some(v) => v, None => DEFAULT_GOP_SIZE }),
            r.max_b_frames == (match max_b_frames { Some(v) => v, None => DEFAULT_MAX_B_FRAMES }),
            r.pix_fmt == (match pix_fmt { Some(v) => v, None => PIX_FMT_YUV420P }),
            r.state == SessionState::Uninitialized,
            r.curr_frame_index == 0,
            r.pts == 0,
            r.scaler.key is None,
            r.scaler.builds == 0,
    {
        let bit_rate = match bit_rate {
            Some(v) => v,
            None => DEFAULT_BIT_RATE,
        };
        let time_base = match time_base {
            Some(v) => v,
            None => (1usize, DEFAULT_FRAME_RATE),
        };
        let gop_size = match gop_size {
            Some(v) => v,
            None => DEFAULT_GOP_SIZE,
        };
        let max_b_frames = match max_b_frames {
            Some(v) => v,
            None => DEFAULT_MAX_B_FRAMES,
        };
        let pix_fmt = match pix_fmt {
            Some(v) => v,
            None => PIX_FMT_YUV420P,
        };
        let unset = Rational { num: 0, den: 1 };
        Recorder {
            path: path.to_owned(),
            width: round_up_even(width),
            height: round_up_even(height),
            bit_rate,
            time_base,
            gop_size,
            max_b_frames,
            pix_fmt,
            state: SessionState::Uninitialized,
            curr_frame_index: 0,
            pts: 0,
            codec_time_base: unset,
            stream_time_base: unset,
            scaler: ScalerCache::new(),
        }
    }

    /// Whether the encoder, container and output file still have to be set up.
    pub fn needs_setup(&self) -> (r: bool)
        ensures
            r == (self.state == SessionState::Uninitialized),
    {
        self.state == SessionState::Uninitialized
    }

    /// What to open the encoder with, for the video codec that the container
    /// chose: the session's parameters, and for MPEG-1 the conservative
    /// macroblock decision. A container without a video codec is refused.
    pub fn codec_settings(&self, codec_id: i32) -> (r: Result<CodecSettings, SetupFailure>)
        ensures
            codec_id == CODEC_ID_NONE ==> r == Err::<CodecSettings, SetupFailure>(
                SetupFailure::NoVideoCodec,
            ),
            codec_id != CODEC_ID_NONE ==> r == Ok::<CodecSettings, SetupFailure>(
                CodecSettings {
                    codec_id,
                    bit_rate: self.bit_rate,
                    width: self.width,
                    height: self.height,
                    time_base: self.time_base,
                    gop_size: self.gop_size,
                    max_b_frames: self.max_b_frames,
                    pix_fmt: self.pix_fmt,
                    mb_decision: if codec_id == CODEC_ID_MPEG1VIDEO {
                        Some(MB_DECISION_RD)
                    } else {
                        None
                    },
                },
            ),
    {
        if codec_id == CODEC_ID_NONE {
            return Err(SetupFailure::NoVideoCodec);
        }
        let mb_decision = if codec_id == CODEC_ID_MPEG1VIDEO {
            Some(MB_DECISION_RD)
        } else {
            None
        };
        Ok(
            CodecSettings {
                codec_id,
                bit_rate: self.bit_rate,
                width: self.width,
                height: self.height,
                time_base: self.time_base,
                gop_size: self.gop_size,
                max_b_frames: self.max_b_frames,
                pix_fmt: self.pix_fmt,
                mb_decision,
            },
        )
    }

    /// Records that setup has completed, with the time base that the stream
    /// ended up with. Idempotent: a ready session is left as it is. A disposed
    /// session, or a time base that is not a positive ratio of `i32`s, is refused
    /// and leaves the session unchanged.
    pub fn init(&mut self, stream_time_base: Rational) -> (r: Result<(), SetupFailure>)
        requires
            old(self).wf(),
        ensures
            final(self).wf(),
            old(self).state == SessionState::Ready ==> r is Ok && *final(self) == *old(self),
            old(self).state == SessionState::Closed ==> r == Err::<(), SetupFailure>(
                SetupFailure::Closed,
            ) && *final(self) == *old(self),
            old(self).state == SessionState::Uninitialized ==> {
                if time_base_of(old(self).time_base) is Some && positive(stream_time_base) {
                    &&& r is Ok
                    &&& final(self).state == SessionState::Ready
                    &&& Some(final(self).codec_time_base) == time_base_of(old(self).time_base)
                    &&& final(self).stream_time_base == stream_time_base
                    &&& final(self).pts == 0
                    &&& final(self).curr_frame_index == 0
                    &&& final(self).same_config(old(self))
                    &&& final(self).scaler == old(self).scaler
                } else {
                    r == Err::<(), SetupFailure>(SetupFailure::TimeBase) && *final(self)
                        == *old(self)
                }
            },
    {
        match self.state {
            SessionState::Ready => Ok(()),
            SessionState::Closed => Err(SetupFailure::Closed),
            SessionState::Uninitialized => {
                let (num, den) = self.time_base;
                if num == 0 || den == 0 || num > i32::MAX as usize || den > i32::MAX as usize
                    || stream_time_base.num <= 0 || stream_time_base.den <= 0 {
                    return Err(SetupFailure::TimeBase);
                }
                self.codec_time_base = Rational { num: num as i32, den: den as i32 };
                self.stream_time_base = stream_time_base;
                self.pts = 0;
                self.curr_frame_index = 0;
                self.state = SessionState::Ready;
                proof {
                    lemma_rescaled_zero(self.codec_time_base, self.stream_time_base);
                }
                Ok(())
            },
        }
    }

    /// The colour conversion that turns a `win_width` by `win_height` capture
    /// into a frame for the encoder.
    pub open spec fn scale_for(&self, win_width: usize, win_height: usize) -> ScaleParams {
        ScaleParams {
            src_width: win_width,
            src_height: win_height,
            src_format: PIX_FMT_RGB24,
            dst_width: self.width,
            dst_height: self.height,
            dst_format: PIX_FMT_YUV420P,
        }
    }

    /// The stream timestamp of the frame that is `ticks` encoder ticks into
    /// the recording.
    pub open spec fn pts_at(&self, ticks: int) -> int {
        rescaled(ticks, self.codec_time_base, self.stream_time_base)
    }

    /// Takes in one captured RGB frame of `win_width` by `win_height` pixels,
    /// stored bottom row first: puts its rows in top-down order in place,
    /// advances the timestamp by one encoder tick in the stream's time base,
    /// counts the frame, and says how to convert it, reusing the conversion
    /// context when its parameters have not changed. On an error neither the
    /// session nor the buffer changes.
    pub fn snap(&mut self, buf: &mut Vec<u8>, win_width: usize, win_height: usize) -> (r: Result<
        FramePlan,
        SnapError,
    >)
        requires
            old(self).wf(),
        ensures
            final(self).wf(),
            final(self).same_config(old(self)),
            old(self).state != SessionState::Ready ==> r == Err::<FramePlan, SnapError>(
                SnapError::NotReady,
            ),
            old(self).state == SessionState::Ready && rgb_frame_len(
                win_width as nat,
                win_height as nat,
            ) > old(buf)@.len() ==> r == Err::<FramePlan, SnapError>(SnapError::ShortBuffer),
            old(self).state == SessionState::Ready && rgb_frame_len(
                win_width as nat,
                win_height as nat,
            ) <= old(buf)@.len() ==> {
                if old(self).curr_frame_index < usize::MAX && old(self).curr_frame_index
                    < i64::MAX && fits_i64(old(self).pts_at(old(self).curr_frame_index + 1)) {
                    &&& r == Ok::<FramePlan, SnapError>(
                        FramePlan {
                            pts: old(self).pts_at(old(self).curr_frame_index + 1) as i64,
                            scale: old(self).scale_for(win_width, win_height),
                            rebuild_scaler: needs_rebuild(
                                old(self).scaler.key,
                                old(self).scale_for(win_width, win_height),
                            ),
                        },
                    )
                    &&& final(buf)@ == flipped(
                        old(buf)@,
                        (win_width * RGB_BYTES) as nat,
                        win_height as nat,
                    )
                    &&& final(self).state == SessionState::Ready
                    &&& final(self).pts == old(self).pts_at(old(self).curr_frame_index + 1)
                    &&& final(self).curr_frame_index == old(self).curr_frame_index + 1
                    &&& final(self).codec_time_base == old(self).codec_time_base
                    &&& final(self).stream_time_base == old(self).stream_time_base
                    &&& final(self).scaler.key == Some(old(self).scale_for(win_width, win_height))
                    &&& final(self).scaler.builds == if needs_rebuild(
                        old(self).scaler.key,
                        old(self).scale_for(win_width, win_height),
                    ) {
                        saturating_inc(old(self).scaler.builds)
                    } else {
                        old(self).scaler.builds
                    }
                } else {
                    r == Err::<FramePlan, SnapError>(SnapError::Timestamp)
                }
            },
            r is Err ==> *final(self) == *old(self) && final(buf)@ == old(buf)@,
    {
        if self.state != SessionState::Ready {
            return Err(SnapError::NotReady);
        }
        let len: usize = buf.len();
        if win_height == 0 {
            proof {
                assert(rgb_frame_len(win_width as nat, 0) == 0);
            }
        }
        let stride: usize = if win_height == 0 {
            0
        } else {
            match win_width.checked_mul(RGB_BYTES) {
                Some(v) => v,
                None => {
                    proof {
                        assert(rgb_frame_len(win_width as nat, win_height as nat) > len) by (
                        nonlinear_arith)
                            requires
                                win_width * RGB_BYTES > usize::MAX,
                                len <= usize::MAX,
                                win_height >= 1,
                                rgb_frame_len(win_width as nat, win_height as nat) == win_width
                                    * RGB_BYTES * win_height,
                        ;
                    }
                    return Err(SnapError::ShortBuffer);
                },
            }
        };
        let need: usize = match stride.checked_mul(win_height) {
            Some(v) => v,
            None => return Err(SnapError::ShortBuffer),
        };
        if need > len {
            return Err(SnapError::ShortBuffer);
        }
        if self.curr_frame_index == usize::MAX || self.curr_frame_index as u64 >= i64::MAX as u64 {
            return Err(SnapError::Timestamp);
        }
        let ticks: usize = self.curr_frame_index + 1;
        let next: i64 = match rescale_q(ticks as i64, self.codec_time_base, self.stream_time_base) {
            Some(v) => v,
            None => return Err(SnapError::Timestamp),
        };
        let ghost before = buf@;
        vflip(buf, stride, win_height);
        proof {
            if win_height == 0 {
                assert(flipped(before, stride as nat, 0) =~= before);
                assert(flipped(before, (win_width * RGB_BYTES) as nat, 0) =~= before);
            }
        }
        self.pts = next;
        self.curr_frame_index = ticks;
        let scale = ScaleParams {
            src_width: win_width,
            src_height: win_height,
            src_format: PIX_FMT_RGB24,
            dst_width: self.width,
            dst_height: self.height,
            dst_format: PIX_FMT_YUV420P,
        };
        let rebuild_scaler = self.scaler.request(scale);
        Ok(FramePlan { pts: next, scale, rebuild_scaler })
    }

    /// Ends the session. Says whether the encoder must be drained and the
    /// session's resources released, which is the case exactly when setup had
    /// completed and the session was not disposed of before. Afterwards the
    /// session is closed, its configuration and counters unchanged.
    pub fn dispose(&mut self) -> (teardown: bool)
        requires
            old(self).wf(),
        ensures
            final(self).wf(),
            teardown == (old(self).state == SessionState::Ready),
            (if teardown { 1nat } else { 0nat }) == teardowns(old(self).state, 1),
            final(self).state == SessionState::Closed,
            final(self).same_config(old(self)),
            final(self).pts == old(self).pts,
            final(self).curr_frame_index == old(self).curr_frame_index,
            final(self).scaler == old(self).scaler,
    {
        let teardown = self.state == SessionState::Ready;
        self.state = SessionState::Closed;
        proof {
            assert(teardowns(SessionState::Closed, 0) == 0);
        }
        teardown
    }

    /// The configuration is the same in both sessions.
    pub open spec fn same_config(&self, o: &Recorder) -> bool {
        &&& self.path@ == o.path@
        &&& self.width == o.width
        &&& self.height == o.height
        &&& self.bit_rate == o.bit_rate
        &&& self.time_base == o.time_base
        &&& self.gop_size == o.gop_size
        &&& self.max_b_frames == o.max_b_frames
        &&& self.pix_fmt == o.pix_fmt
    }
}

/// However often a session is disposed of, its teardown happens once if setup
/// had completed, and never otherwise, in particular not for a session that
/// never captured a frame.
pub proof fn lemma_teardown_at_most_once(s: SessionState, n: nat)
    requires
        n >= 1,
    ensures
        teardowns(s, n) == if s == SessionState::Ready { 1nat } else { 0nat },
        s == SessionState::Uninitialized ==> teardowns(s, n) == 0,
    decreases n,
{
    assert(teardowns(SessionState::Closed, 0) == 0);
    if n > 1 {
        lemma_teardown_at_most_once(SessionState::Closed, (n - 1) as nat);
    }
}

/// In a ready session, frame timestamps never decrease with the frame count,
/// and each one, converted back into the encoder's time base, lands on its
/// frame count to within the rounding of the two conversions.
pub proof fn lemma_frame_timestamps(r: Recorder, k1: int, k2: int)
    requires
        r.wf(),
        r.state == SessionState::Ready,
        k1 <= k2,
    ensures
        r.pts_at(k1) <= r.pts_at(k2),
        2 * abs(rescaled(r.pts_at(k2), r.stream_time_base, r.codec_time_base) - k2) * (
        r.codec_time_base.num * r.stream_time_base.den) <= r.stream_time_base.num
            * r.codec_time_base.den + r.codec_time_base.num * r.stream_time_base.den,
{
    lemma_rescale_monotonic(k1, k2, r.codec_time_base, r.stream_time_base);
    lemma_rescale_round_trip(k2, r.codec_time_base, r.stream_time_base);
}

} // verus!
