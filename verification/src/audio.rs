//! The audio backend of one capture session: buffering of normalized
//! frames, clamped conversion to 16-bit PCM, and the WAV rendering of a
//! finished in-memory recording.
//!
//! Incoming frames arrive in several native encodings; the unverified
//! capture layer normalizes each to a fixed-point value in which `32768`
//! stands for full scale, so a frame holding `v` stands for the amplitude
//! `v / 32768`. At finalize every frame is clamped to the 16-bit range
//! (never wrapped) and, in memory mode, rendered as a single-channel
//! 16-bit PCM WAV byte buffer.

use vstd::prelude::*;
use vstd::string::StringExecFns;

verus! {

/// The largest number of frames whose WAV rendering still fits the 32-bit
/// size fields of the RIFF header.
pub const MAX_WAV_FRAMES: usize = 0x7FFF_FFED;

/// An error of the audio backend or the device layer.
#[derive(Debug)]
pub enum AudioError {
    /// No capture device could be opened.
    DeviceUnavailable,
    /// A capture session is already running on this backend.
    BackendBusy,
    /// `stop` was called while no capture session was running.
    NotRecording,
    /// The host reported no usable input at all.
    NoInputHost,
}

impl AudioError {
    /// A readable description of the failure.
    pub fn message(&self) -> (r: String)
        ensures
            self is DeviceUnavailable ==> r@ == "no input device available"@,
            self is BackendBusy ==> r@ == "already capturing"@,
            self is NotRecording ==> r@ == "not recording"@,
            self is NoInputHost ==> r@ == "no input host available"@,
    {
        match self {
            AudioError::DeviceUnavailable => String::from_str("no input device available"),
            AudioError::BackendBusy => String::from_str("already capturing"),
            AudioError::NotRecording => String::from_str("not recording"),
            AudioError::NoInputHost => String::from_str("no input host available"),
        }
    }
}

/// The construction-time mode of a backend: keep frames in memory and
/// render WAV bytes at finalize, or stream to a file and hand back its
/// path.
pub enum RecordMode {
    Memory,
    File(String),
}

/// Finalized audio: WAV bytes in memory mode, the file path in file mode.
pub enum AudioData {
    Memory(Vec<u8>),
    File(String),
}

/// A frame value clamped to the signed 16-bit range; out-of-range values
/// saturate, they never wrap.
pub open spec fn spec_clamp(v: int) -> int {
    if v > 32767 {
        32767
    } else if v < -32768 {
        -32768
    } else {
        v
    }
}

/// Executable counterpart of [`spec_clamp`].
pub fn clamp_sample(v: i64) -> (r: i16)
    ensures
        r as int == spec_clamp(v as int),
{
    if v > 32767 {
        32767
    } else if v < -32768 {
        -32768
    } else {
        v as i16
    }
}

/// The unsigned 16-bit representation of a signed 16-bit value.
pub open spec fn u16_of_i16(v: int) -> int {
    if v < 0 {
        v + 65536
    } else {
        v
    }
}

/// Little-endian bytes of a value below two to the sixteenth.
pub open spec fn le16(v: int) -> Seq<u8> {
    seq![(v % 256) as u8, ((v / 256) % 256) as u8]
}

/// Little-endian bytes of a value below two to the thirty-second.
pub open spec fn le32(v: int) -> Seq<u8> {
    seq![
        (v % 256) as u8,
        ((v / 256) % 256) as u8,
        ((v / 65536) % 256) as u8,
        ((v / 16777216) % 256) as u8,
    ]
}

/// The two data bytes one frame contributes: its clamped 16-bit value in
/// little-endian order.
pub open spec fn sample_bytes(v: i64) -> Seq<u8> {
    le16(u16_of_i16(spec_clamp(v as int)))
}

/// The data chunk contents for a frame sequence.
pub open spec fn wav_data_bytes(frames: Seq<i64>) -> Seq<u8>
    decreases frames.len(),
{
    if frames.len() == 0 {
        Seq::empty()
    } else {
        sample_bytes(frames[0]) + wav_data_bytes(frames.skip(1))
    }
}

/// The complete WAV rendering of a frame sequence: the canonical 44-byte
/// RIFF header for single-channel 16-bit PCM at `rate`, then the data
/// chunk.
pub open spec fn spec_wav_bytes(frames: Seq<i64>, rate: u32) -> Seq<u8> {
    seq![82u8, 73u8, 70u8, 70u8]  // R I F F
     + le32(36 + 2 * frames.len() as int) + seq![87u8, 65u8, 86u8, 69u8]  // W A V E
     + seq![102u8, 109u8, 116u8, 32u8]  // f m t and space
     + le32(16) + le16(1) + le16(1) + le32(rate as int) + le32(2 * rate as int) + le16(2) + le16(
        16,
    ) + seq![100u8, 97u8, 116u8, 97u8]  // d a t a
     + le32(2 * frames.len() as int) + wav_data_bytes(frames)
}

/// Appending one frame appends exactly its two data bytes.
proof fn lemma_wav_data_snoc(frames: Seq<i64>, i: int)
    requires
        0 <= i < frames.len(),
    ensures
        wav_data_bytes(frames.subrange(0, i + 1)) == wav_data_bytes(frames.subrange(0, i))
            + sample_bytes(frames[i]),
    decreases i,
{
    let a = frames.subrange(0, i + 1);
    if i == 0 {
        assert(a =~= seq![frames[0]]);
        assert(a[0] == frames[0]);
        assert(a.skip(1) =~= Seq::<i64>::empty());
        assert(wav_data_bytes(a.skip(1)) == Seq::<u8>::empty());
        assert(wav_data_bytes(a) == sample_bytes(a[0]) + wav_data_bytes(a.skip(1)));
        assert(wav_data_bytes(a) =~= sample_bytes(frames[0]));
        assert(frames.subrange(0, 0) =~= Seq::<i64>::empty());
        assert(wav_data_bytes(frames.subrange(0, 0)) + sample_bytes(frames[0]) =~= sample_bytes(
            frames[0],
        ));
    } else {
        let tail = frames.skip(1);
        lemma_wav_data_snoc(tail, i - 1);
        assert(a[0] == frames[0]);
        assert(a.skip(1) =~= tail.subrange(0, i));
        let b = frames.subrange(0, i);
        assert(b[0] == frames[0]);
        assert(b.skip(1) =~= tail.subrange(0, i - 1));
        assert(tail[i - 1] == frames[i]);
        assert(wav_data_bytes(a) == sample_bytes(frames[0]) + (wav_data_bytes(tail.subrange(
            0,
            i - 1,
        )) + sample_bytes(frames[i])));
        assert(sample_bytes(frames[0]) + (wav_data_bytes(tail.subrange(0, i - 1)) + sample_bytes(
            frames[i],
        )) =~= (sample_bytes(frames[0]) + wav_data_bytes(tail.subrange(0, i - 1))) + sample_bytes(
            frames[i],
        ));
    }
}

/// Appends the little-endian bytes of `v`.
fn push_le16(out: &mut Vec<u8>, v: u16)
    ensures
        final(out)@ == old(out)@ + le16(v as int),
{
    out.push((v % 256) as u8);
    out.push(((v / 256) % 256) as u8);
    assert(out@ =~= old(out)@ + le16(v as int));
}

/// Appends the little-endian bytes of `v`.
fn push_le32(out: &mut Vec<u8>, v: u32)
    ensures
        final(out)@ == old(out)@ + le32(v as int),
{
    out.push((v % 256) as u8);
    out.push(((v / 256) % 256) as u8);
    out.push(((v / 65536) % 256) as u8);
    out.push(((v / 16777216) % 256) as u8);
    assert(out@ =~= old(out)@ + le32(v as int));
}

/// The unsigned 16-bit representation of a clamped frame.
fn sample_to_u16(v: i64) -> (r: u16)
    ensures
        r as int == u16_of_i16(spec_clamp(v as int)),
{
    let c = clamp_sample(v);
    if c < 0 {
        ((c as i32) + 65536) as u16
    } else {
        c as u16
    }
}

/// Renders `frames` as a single-channel 16-bit PCM WAV byte buffer at the
/// given sample rate, clamping each frame.
pub fn encode_wav(frames: &Vec<i64>, rate: u32) -> (r: Vec<u8>)
    requires
        frames@.len() <= MAX_WAV_FRAMES,
        rate <= 2147483647,
    ensures
        r@ == spec_wav_bytes(frames@, rate),
{
    let n = frames.len();
    let data_size: u32 = 2 * (n as u32);
    let mut out: Vec<u8> = Vec::new();
    out.push(82);
    out.push(73);
    out.push(70);
    out.push(70);
    push_le32(&mut out, 36 + data_size);
    out.push(87);
    out.push(65);
    out.push(86);
    out.push(69);
    out.push(102);
    out.push(109);
    out.push(116);
    out.push(32);
    push_le32(&mut out, 16);
    push_le16(&mut out, 1);
    push_le16(&mut out, 1);
    push_le32(&mut out, rate);
    push_le32(&mut out, 2 * rate);
    push_le16(&mut out, 2);
    push_le16(&mut out, 16);
    out.push(100);
    out.push(97);
    out.push(116);
    out.push(97);
    push_le32(&mut out, data_size);
    let ghost header = out@;
    assert(header =~= spec_wav_bytes(frames@, rate).subrange(0, 44)) by {
        assert(spec_wav_bytes(frames@, rate).subrange(0, 44) =~= seq![
            82u8,
            73u8,
            70u8,
            70u8,
        ] + le32(36 + 2 * frames@.len() as int) + seq![87u8, 65u8, 86u8, 69u8] + seq![
            102u8,
            109u8,
            116u8,
            32u8,
        ] + le32(16) + le16(1) + le16(1) + le32(rate as int) + le32(2 * rate as int) + le16(2)
            + le16(16) + seq![100u8, 97u8, 116u8, 97u8] + le32(2 * frames@.len() as int));
    }
    let mut i: usize = 0;
    while i < n
        invariant
            n == frames@.len(),
            n <= MAX_WAV_FRAMES,
            i <= n,
            out@ == header + wav_data_bytes(frames@.subrange(0, i as int)),
        decreases n - i,
    {
        let u = sample_to_u16(frames[i]);
        push_le16(&mut out, u);
        proof {
            lemma_wav_data_snoc(frames@, i as int);
            assert((header + wav_data_bytes(frames@.subrange(0, i as int))) + le16(
                u as int,
            ) =~= header + wav_data_bytes(frames@.subrange(0, i as int + 1)));
        }
        i = i + 1;
    }
    proof {
        assert(frames@.subrange(0, n as int) =~= frames@);
        assert(header + wav_data_bytes(frames@) =~= spec_wav_bytes(frames@, rate));
    }
    out
}

/// The capture-session state and frame buffer of one backend instance.
pub struct AudioBackend {
    mode: RecordMode,
    capturing: bool,
    buf: Vec<i64>,
    sample_rate: u32,
}

impl AudioBackend {
    /// Whether a capture session is running.
    pub closed spec fn spec_capturing(&self) -> bool {
        self.capturing
    }

    /// The buffered frames of the running session.
    pub closed spec fn spec_buf(&self) -> Seq<i64> {
        self.buf@
    }

    /// The construction-time mode.
    pub closed spec fn spec_mode(&self) -> RecordMode {
        self.mode
    }

    /// The sample rate frames are captured at.
    pub closed spec fn spec_rate(&self) -> u32 {
        self.sample_rate
    }

    /// The bounds every backend keeps: a buffer the WAV size fields can
    /// hold and a byte rate that fits its header field.
    pub open spec fn wf(&self) -> bool {
        self.spec_buf().len() <= MAX_WAV_FRAMES && self.spec_rate() <= 2147483647
    }

    /// A backend in the given mode, not yet capturing.
    pub fn new(mode: RecordMode, sample_rate: u32) -> (b: Self)
        requires
            sample_rate <= 2147483647,
        ensures
            b.wf(),
            !b.spec_capturing(),
            b.spec_buf() == Seq::<i64>::empty(),
            b.spec_mode() == mode,
            b.spec_rate() == sample_rate,
    {
        AudioBackend { mode, capturing: false, buf: Vec::new(), sample_rate }
    }

    /// Opens the capture session: the buffer starts empty. Fails with
    /// `BackendBusy` if a session is already running.
    pub fn start(&mut self) -> (r: Result<(), AudioError>)
        requires
            old(self).wf(),
        ensures
            final(self).wf(),
            final(self).spec_mode() == old(self).spec_mode(),
            final(self).spec_rate() == old(self).spec_rate(),
            old(self).spec_capturing() ==> r == Err::<(), AudioError>(AudioError::BackendBusy)
                && *final(self) == *old(self),
            !old(self).spec_capturing() ==> r is Ok && final(self).spec_capturing()
                && final(self).spec_buf() == Seq::<i64>::empty(),
    {
        if self.capturing {
            Err(AudioError::BackendBusy)
        } else {
            self.capturing = true;
            self.buf = Vec::new();
            Ok(())
        }
    }

    /// Appends normalized frames to the running session's buffer. Frames
    /// that would grow the buffer past what a WAV file can hold are
    /// refused whole: the buffer is unchanged and `false` comes back.
    pub fn push_frames(&mut self, frames: &Vec<i64>) -> (accepted: bool)
        requires
            old(self).wf(),
            old(self).spec_capturing(),
        ensures
            final(self).wf(),
            final(self).spec_capturing(),
            final(self).spec_mode() == old(self).spec_mode(),
            final(self).spec_rate() == old(self).spec_rate(),
            accepted == (old(self).spec_buf().len() + frames@.len() <= MAX_WAV_FRAMES),
            accepted ==> final(self).spec_buf() == old(self).spec_buf() + frames@,
            !accepted ==> final(self).spec_buf() == old(self).spec_buf(),
    {
        if frames.len() <= MAX_WAV_FRAMES - self.buf.len() {
            let mut i: usize = 0;
            while i < frames.len()
                invariant
                    i <= frames@.len(),
                    self.buf@ == old(self).spec_buf() + frames@.subrange(0, i as int),
                    self.buf@.len() <= MAX_WAV_FRAMES,
                    old(self).spec_buf().len() + frames@.len() <= MAX_WAV_FRAMES,
                    self.capturing == old(self).spec_capturing(),
                    self.mode == old(self).spec_mode(),
                    self.sample_rate == old(self).spec_rate(),
                decreases frames@.len() - i,
            {
                self.buf.push(frames[i]);
                i = i + 1;
                assert(self.buf@ =~= old(self).spec_buf() + frames@.subrange(0, i as int));
            }
            assert(old(self).spec_buf() + frames@.subrange(0, frames@.len() as int) =~= old(
                self,
            ).spec_buf() + frames@);
            true
        } else {
            false
        }
    }

    /// Closes the capture session and finalizes the audio: WAV bytes of
    /// the buffered frames in memory mode, the destination path in file
    /// mode. Fails with `NotRecording` when no session is running.
    pub fn stop(&mut self) -> (r: Result<AudioData, AudioError>)
        requires
            old(self).wf(),
        ensures
            final(self).wf(),
            final(self).spec_mode() == old(self).spec_mode(),
            final(self).spec_rate() == old(self).spec_rate(),
            !old(self).spec_capturing() ==> r == Err::<AudioData, AudioError>(
                AudioError::NotRecording,
            ) && *final(self) == *old(self),
            old(self).spec_capturing() ==> !final(self).spec_capturing() && final(self).spec_buf()
                == Seq::<i64>::empty() && (match old(self).spec_mode() {
                RecordMode::Memory => r matches Ok(AudioData::Memory(b)) && b@ == spec_wav_bytes(
                    old(self).spec_buf(),
                    old(self).spec_rate(),
                ),
                RecordMode::File(p) => r matches Ok(AudioData::File(q)) && q@ == p@,
            }),
    {
        if !self.capturing {
            return Err(AudioError::NotRecording);
        }
        self.capturing = false;
        let mut frames: Vec<i64> = Vec::new();
        core::mem::swap(&mut frames, &mut self.buf);
        match &self.mode {
            RecordMode::Memory => {
                let bytes = encode_wav(&frames, self.sample_rate);
                Ok(AudioData::Memory(bytes))
            },
            RecordMode::File(path) => Ok(AudioData::File(path.clone())),
        }
    }
}

} // verus!
