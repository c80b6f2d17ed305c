use vstd::prelude::*;

verus! {

/// Configuration options for video recording.
///
/// Use this to customize recording behavior such as frame skipping.
#[derive(Clone, Debug, PartialEq, Eq, Structural)]
pub struct RecordingConfig {
    /// Record every Nth frame. Set to 1 to record every frame,
    /// 2 to record every other frame, etc.
    /// Default: 1
    pub frame_skip: u32,
}

impl Default for RecordingConfig {
    fn default() -> (r: Self)
        ensures
            r.frame_skip == 1,
    {
        RecordingConfig { frame_skip: 1 }
    }
}

impl RecordingConfig {
    /// Creates a new recording config with default settings (every frame).
    pub fn new() -> (r: Self)
        ensures
            r.frame_skip == 1,
    {
        Self::default()
    }

    /// Sets how many frames to skip between captures.
    /// 1 = every frame, 2 = every other frame, etc.
    pub fn with_frame_skip(self, skip: u32) -> (r: Self)
        ensures
            r.frame_skip == if skip >= 1 { skip } else { 1 },
    {
        let mut s = self;
        s.frame_skip = if skip >= 1 { skip } else { 1 };
        s
    }
}

/// State for video recording: the captured frames (raw RGB, row-major, top row
/// first), the recording size, the configuration, whether it is paused and how
/// many unpaused frames have been rendered since it began.
pub struct RecordingState {
    /// The captured frames, oldest first.
    pub frames: Vec<Vec<u8>>,
    /// The width of the recording, in pixels.
    pub width: u32,
    /// The height of the recording, in pixels.
    pub height: u32,
    /// The recording configuration.
    pub config: RecordingConfig,
    /// Whether the recording is paused.
    pub paused: bool,
    /// The number of rendered frames seen while recording and not paused.
    pub frame_counter: u32,
}

/// Whether the rendered frame numbered `counter` (from zero) is one that a
/// recording with the given frame skip captures.
pub open spec fn capture_due(counter: int, frame_skip: int) -> bool {
    counter % frame_skip == 0
}

/// How many of the first `n` rendered frames (numbered from zero) a recording
/// with the given frame skip captures.
pub open spec fn captured_among_first(n: nat, frame_skip: nat) -> nat
    decreases n,
{
    if n == 0 {
        0
    } else {
        captured_among_first((n - 1) as nat, frame_skip) + if capture_due(
            n - 1,
            frame_skip as int,
        ) {
            1nat
        } else {
            0nat
        }
    }
}

/// A recording that captures every `frame_skip`-th frame keeps, of the first
/// `n` frames rendered while it runs unpaused, `ceil(n / frame_skip)` frames.
pub proof fn lemma_captured_count(n: nat, frame_skip: nat)
    requires
        frame_skip > 0,
    ensures
        captured_among_first(n, frame_skip) == (n + frame_skip - 1) / (frame_skip as int),
    decreases n,
{
    let k = frame_skip as int;
    if n == 0 {
        vstd::arithmetic::div_mod::lemma_basic_div(k - 1, k);
    } else {
        lemma_captured_count((n - 1) as nat, frame_skip);
        let m = n - 1;
        vstd::arithmetic::div_mod::lemma_fundamental_div_mod(m, k);
        vstd::arithmetic::div_mod::lemma_mod_pos_bound(m, k);
        let q = m / k;
        let r = m % k;
        // (m + k - 1) / k and (m + k) / k differ by one exactly when r == 0.
        if r == 0 {
            vstd::arithmetic::div_mod::lemma_div_multiples_vanish_fancy(q, k - 1, k);
            vstd::arithmetic::div_mod::lemma_div_multiples_vanish_fancy(q + 1, 0, k);
            assert(m + k - 1 == k * q + (k - 1));
            assert(m + k == k * (q + 1) + 0) by (nonlinear_arith)
                requires
                    m == k * q,
            ;
            assert((m + k - 1) / k == q);
            assert((m + k) / k == q + 1);
        } else {
            vstd::arithmetic::div_mod::lemma_div_multiples_vanish_fancy(q + 1, r - 1, k);
            vstd::arithmetic::div_mod::lemma_div_multiples_vanish_fancy(q + 1, r, k);
            assert(m + k - 1 == k * (q + 1) + (r - 1)) by (nonlinear_arith)
                requires
                    m == k * q + r,
            ;
            assert(m + k == k * (q + 1) + r) by (nonlinear_arith)
                requires
                    m == k * q + r,
            ;
            assert((m + k - 1) / k == q + 1);
            assert((m + k) / k == q + 1);
        }
        assert(n + frame_skip - 1 == m + k);
    }
}

/// The screencast recording of a window: either none, or one in progress.
pub struct Recording {
    state: Option<RecordingState>,
}

impl Recording {
    /// The recording in progress, if any.
    pub closed spec fn spec_state(&self) -> Option<RecordingState> {
        self.state
    }

    /// A window that is not recording.
    pub fn new() -> (r: Self)
        ensures
            r.spec_state() is None,
    {
        Recording { state: None }
    }

    /// Starts recording frames of a window of the given size with default settings.
    pub fn begin_recording(&mut self, width: u32, height: u32)
        ensures
            final(self).spec_state() matches Some(s) && s.frames@.len() == 0 && s.width == width
                && s.height == height && s.config.frame_skip == 1 && !s.paused && s.frame_counter
                == 0,
    {
        self.begin_recording_with_config(width, height, RecordingConfig::default());
    }

    /// Starts recording frames of a window of the given size with a custom
    /// configuration. A recording in progress is discarded.
    pub fn begin_recording_with_config(&mut self, width: u32, height: u32, config: RecordingConfig)
        ensures
            final(self).spec_state() matches Some(s) && s.frames@.len() == 0 && s.width == width
                && s.height == height && s.config == config && !s.paused && s.frame_counter == 0,
    {
        self.state = Some(
            RecordingState {
                frames: Vec::new(),
                width,
                height,
                config,
                paused: false,
                frame_counter: 0,
            },
        );
    }

    /// Returns whether recording is currently active.
    pub fn is_recording(&self) -> (r: bool)
        ensures
            r == self.spec_state() is Some,
    {
        self.state.is_some()
    }

    /// Returns whether recording is currently paused.
    pub fn is_recording_paused(&self) -> (r: bool)
        ensures
            r == (self.spec_state() matches Some(s) && s.paused),
    {
        match &self.state {
            Some(r) => r.paused,
            None => false,
        }
    }

    /// Pauses the current recording. While paused, frames are not captured.
    pub fn pause_recording(&mut self)
        ensures
            match old(self).spec_state() {
                None => final(self).spec_state() is None,
                Some(s) => final(self).spec_state() == Some(RecordingState { paused: true, ..s }),
            },
    {
        if let Some(r) = &mut self.state {
            r.paused = true;
        }
    }

    /// Resumes a paused recording.
    pub fn resume_recording(&mut self)
        ensures
            match old(self).spec_state() {
                None => final(self).spec_state() is None,
                Some(s) => final(self).spec_state() == Some(RecordingState { paused: false, ..s }),
            },
    {
        if let Some(r) = &mut self.state {
            r.paused = false;
        }
    }

    /// Whether the next rendered frame can be counted: no recording, a paused
    /// one, or one whose frame skip is positive and whose frame counter has
    /// not reached `u32::MAX`.
    pub fn can_count_frame(&self) -> (r: bool)
        ensures
            r == (self.spec_state() matches Some(s) ==> s.config.frame_skip > 0 && (!s.paused
                ==> s.frame_counter < u32::MAX)),
    {
        match &self.state {
            Some(s) => s.config.frame_skip > 0 && (s.paused || s.frame_counter < u32::MAX),
            None => true,
        }
    }

    /// Decides, for a frame that has just been rendered, whether it is to be
    /// captured: only while recording and not paused, and then only every
    /// `frame_skip`-th frame, the first one included. Every unpaused frame
    /// advances the frame counter.
    pub fn should_capture_frame(&mut self) -> (capture: bool)
        requires
            old(self).spec_state() matches Some(s) ==> s.config.frame_skip > 0 && (!s.paused
                ==> s.frame_counter < u32::MAX),
        ensures
            match old(self).spec_state() {
                None => !capture && final(self).spec_state() is None,
                Some(s) => if s.paused {
                    !capture && final(self).spec_state() == Some(s)
                } else {
                    capture == capture_due(s.frame_counter as int, s.config.frame_skip as int)
                        && final(self).spec_state() == Some(
                        RecordingState { frame_counter: (s.frame_counter + 1) as u32, ..s },
                    )
                },
            },
    {
        match &mut self.state {
            Some(r) => {
                if r.paused {
                    false
                } else {
                    r.frame_counter = r.frame_counter + 1;
                    (r.frame_counter - 1) % r.config.frame_skip == 0
                }
            },
            None => false,
        }
    }

    /// Stores a captured frame of the window, whose current size is `width` x
    /// `height`; when the window was resized during the recording, the
    /// recording size follows it.
    pub fn push_captured_frame(&mut self, frame: Vec<u8>, width: u32, height: u32)
        ensures
            match old(self).spec_state() {
                None => final(self).spec_state() is None,
                Some(s) => final(self).spec_state() matches Some(t) && t.frames@ == s.frames@.push(
                    frame,
                ) && t.width == width && t.height == height && t.config == s.config && t.paused
                    == s.paused && t.frame_counter == s.frame_counter,
            },
    {
        if let Some(r) = &mut self.state {
            if width != r.width || height != r.height {
                r.width = width;
                r.height = height;
            }
            r.frames.push(frame);
        }
    }

    /// Stops recording and hands over the recorded frames for encoding: the
    /// recording ends in every case; it is an error when none was in progress or
    /// when no frame was recorded.
    pub fn finish_recording(&mut self) -> (r: Result<RecordingState, String>)
        ensures
            final(self).spec_state() is None,
            match old(self).spec_state() {
                None => r matches Err(e) && e@ == "No recording in progress"@,
                Some(s) => if s.frames@.len() == 0 {
                    r matches Err(e) && e@ == "No frames were recorded"@
                } else {
                    r == Ok::<RecordingState, String>(s)
                },
            },
    {
        let taken = self.state.take();
        match taken {
            None => Err(String::from_str("No recording in progress")),
            Some(s) => {
                if s.frames.len() == 0 {
                    Err(String::from_str("No frames were recorded"))
                } else {
                    Ok(s)
                }
            },
        }
    }
}

/// The pixel format code of planar YUV 4:2:0, the default encoding format.
pub const PIX_FMT_YUV420P: i32 = 0;

/// `x` rounded up to the next even number.
pub open spec fn round_up_to_even(x: int) -> int {
    if x % 2 == 0 {
        x
    } else {
        x + 1
    }
}

/// The encoding parameters of a video recorder.
#[derive(Clone, Copy, Debug)]
pub struct VideoSettings {
    /// The width of the recorded video (even).
    pub width: usize,
    /// The height of the recorded video (even).
    pub height: usize,
    /// The average bit rate.
    pub bit_rate: usize,
    /// The fundamental unit of time (in seconds), as a fraction, in terms of
    /// which frame timestamps are represented.
    pub time_base: (usize, usize),
    /// The number of pictures in a group of pictures.
    pub gop_size: usize,
    /// The maximum number of B-frames between non-B-frames.
    pub max_b_frames: usize,
    /// The pixel format.
    pub pix_fmt: i32,
}

impl VideoSettings {
    /// The settings of a new video recorder of the given size with the
    /// default parameters.
    pub fn new(width: usize, height: usize) -> (r: Self)
        requires
            width < usize::MAX,
            height < usize::MAX,
        ensures
            r.width == round_up_to_even(width as int),
            r.height == round_up_to_even(height as int),
            r.bit_rate == 400000,
            r.time_base == (1usize, 60usize),
            r.gop_size == 10,
            r.max_b_frames == 1,
            r.pix_fmt == PIX_FMT_YUV420P,
    {
        Self::new_with_params(width, height, None, None, None, None, None)
    }

    /// The settings of a new video recorder with custom recording parameters;
    /// each absent parameter takes its default value: bit rate 400000, time base
    /// (1, 60) (i.e. 60fps), group of pictures 10, at most 1 B-frame between
    /// non-B-frames, and YUV 4:2:0 pixels. Width and height must be a multiple of
    /// two, so an odd one is rounded up.
    pub fn new_with_params(
        width: usize,
        height: usize,
        bit_rate: Option<usize>,
        time_base: Option<(usize, usize)>,
        gop_size: Option<usize>,
        max_b_frames: Option<usize>,
        pix_fmt: Option<i32>,
    ) -> (r: Self)
        requires
            width < usize::MAX,
            height < usize::MAX,
        ensures
            r.width == round_up_to_even(width as int),
            r.height == round_up_to_even(height as int),
            r.bit_rate == (match bit_rate {
                Some(b) => b,
                None => 400000,
            }),
            r.time_base == (match time_base {
                Some(t) => t,
                None => (1usize, 60usize),
            }),
            r.gop_size == (match gop_size {
                Some(g) => g,
                None => 10,
            }),
            r.max_b_frames == (match max_b_frames {
                Some(m) => m,
                None => 1,
            }),
            r.pix_fmt == (match pix_fmt {
                Some(p) => p,
                None => PIX_FMT_YUV420P,
            }),
    {
        let bit_rate = match bit_rate {
            Some(b) => b,
            None => 400000,
        };
        let time_base = match time_base {
            Some(t) => t,
            None => (1, 60),
        };
        let gop_size = match gop_size {
            Some(g) => g,
            None => 10,
        };
        let max_b_frames = match max_b_frames {
            Some(m) => m,
            None => 1,
        };
        let pix_fmt = match pix_fmt {
            Some(p) => p,
            None => PIX_FMT_YUV420P,
        };
        let width = if width % 2 == 0 {
            width
        } else {
            width + 1
        };
        let height = if height % 2 == 0 {
            height
        } else {
            height + 1
        };
        VideoSettings { width, height, bit_rate, time_base, gop_size, max_b_frames, pix_fmt }
    }
}


/// The codec a video is encoded with.
#[derive(Clone, Copy, Debug, PartialEq, Eq, Structural)]
pub enum VideoCodec {
    /// H.264, the default.
    H264,
    /// Another codec, by its encoder library id.
    Id(i32),
}

/// The encoding parameters of a video recorder that also picks its codec. Its
/// default time base is (1, 25), i.e. 25fps.
#[derive(Clone, Copy, Debug)]
pub struct EncoderSettings {
    /// The codec.
    pub codec: VideoCodec,
    /// The other parameters.
    pub video: VideoSettings,
}

impl EncoderSettings {
    /// The settings of a new recorder of the given size with the default
    /// parameters: H.264 at 25fps, the rest as [`VideoSettings::new`].
    pub fn new(width: usize, height: usize) -> (r: Self)
        requires
            width < usize::MAX,
            height < usize::MAX,
        ensures
            r.codec == VideoCodec::H264,
            r.video.width == round_up_to_even(width as int),
            r.video.height == round_up_to_even(height as int),
            r.video.bit_rate == 400000,
            r.video.time_base == (1usize, 25usize),
            r.video.gop_size == 10,
            r.video.max_b_frames == 1,
            r.video.pix_fmt == PIX_FMT_YUV420P,
    {
        Self::new_with_params(width, height, None, None, None, None, None, None)
    }

    /// The settings of a new recorder with custom parameters; each absent one
    /// takes its default: H.264, bit rate 400000, time base (1, 25), group of
    /// pictures 10, at most 1 B-frame between non-B-frames, YUV 4:2:0 pixels.
    /// An odd width or height is rounded up.
    pub fn new_with_params(
        width: usize,
        height: usize,
        codec: Option<VideoCodec>,
        bit_rate: Option<usize>,
        time_base: Option<(usize, usize)>,
        gop_size: Option<usize>,
        max_b_frames: Option<usize>,
        pix_fmt: Option<i32>,
    ) -> (r: Self)
        requires
            width < usize::MAX,
            height < usize::MAX,
        ensures
            r.codec == (match codec {
                Some(c) => c,
                None => VideoCodec::H264,
            }),
            r.video.width == round_up_to_even(width as int),
            r.video.height == round_up_to_even(height as int),
            r.video.bit_rate == (match bit_rate {
                Some(b) => b,
                None => 400000,
            }),
            r.video.time_base == (match time_base {
                Some(t) => t,
                None => (1usize, 25usize),
            }),
            r.video.gop_size == (match gop_size {
                Some(g) => g,
                None => 10,
            }),
            r.video.max_b_frames == (match max_b_frames {
                Some(m) => m,
                None => 1,
            }),
            r.video.pix_fmt == (match pix_fmt {
                Some(p) => p,
                None => PIX_FMT_YUV420P,
            }),
    {
        let codec = match codec {
            Some(c) => c,
            None => VideoCodec::H264,
        };
        let time_base = match time_base {
            Some(t) => t,
            None => (1, 25),
        };
        let video = VideoSettings::new_with_params(
            width,
            height,
            bit_rate,
            Some(time_base),
            gop_size,
            max_b_frames,
            pix_fmt,
        );
        EncoderSettings { codec, video }
    }
}

} // verus!
