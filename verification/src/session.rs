//! The session orchestrator: the daemon-side state machine that owns the
//! single microphone.
//!
//! One orchestrator instance holds the session state, the audio backend,
//! the recording handle and the media pause flag. The unverified shell
//! runs it under one serialization boundary: it hands each incoming
//! command to [`Orchestrator::handle_command`] together with what it
//! observed outside (whether a capture device opened, the clock, the
//! device enumeration), performs the returned background job, and reports
//! the job's end through [`Orchestrator::finish_processing`]. Every
//! handler preserves [`Orchestrator::wf`], so over any command sequence a
//! recording handle exists exactly while the state is `Recording` and the
//! capture stream is never shared.

use vstd::prelude::*;
use vstd::pervasive::unreached;
use vstd::string::StringExecFns;
use crate::audio::AudioBackend;
use crate::audio::AudioData;
use crate::audio::MAX_WAV_FRAMES;
use crate::audio::RecordMode;
use crate::audio::spec_wav_bytes;
use crate::chars::spec_decimal;
use crate::chars::u64_to_decimal;
use crate::chars::push_str_chars;
use crate::chars::chars_to_string;
use crate::ipc::IpcCmd;
use crate::ipc::IpcResp;
use crate::media::MediaControlService;
use crate::media::MediaController;
use crate::media::MediaError;
use crate::media::pause_step;
use crate::media::resume_step;

verus! {

/// The parameters of one session, fixed at `Start` or `Toggle` and
/// carried through to text delivery.
pub struct SessionParams {
    pub paste: bool,
    pub prompt: Option<String>,
    pub direct_input: bool,
}

/// The session states of the daemon. Exactly one value exists per
/// orchestrator, so no two of these ever hold at once.
#[derive(Clone, Copy, Debug, PartialEq, Eq, Structural)]
pub enum SessionState {
    Idle,
    Recording,
    Processing,
    Error,
}

/// The owner of the open capture: exists exactly while the state is
/// `Recording`, and remembers when the recording began.
pub struct RecordingHandle {
    pub started_at_ms: u64,
}

/// The background work a finalized recording leaves behind: transcribe
/// the audio and deliver the text as the parameters say.
pub struct ProcessingJob {
    pub audio: AudioData,
    pub params: SessionParams,
}

/// What the unverified shell observed for one command: whether a capture
/// device opened, whether a recording marker of a possibly-active session
/// is on disk, the clock, and the device enumeration result (`None` when
/// the host could not be queried).
pub struct CommandContext {
    pub device_ok: bool,
    pub stale_marker: bool,
    pub now_ms: u64,
    pub devices: Option<Vec<String>>,
}

/// The pause flag and playback state either went through one successful
/// pause request, or a failed request left both unchanged.
pub open spec fn pause_outcome(
    pre_playing: bool,
    pre_paused: bool,
    post_playing: bool,
    post_paused: bool,
) -> bool {
    ||| (post_playing == pause_step(pre_playing, pre_paused).0 && post_paused == pause_step(
        pre_playing,
        pre_paused,
    ).1)
    ||| (post_playing == pre_playing && post_paused == pre_paused)
}

/// The newline-joined rendering of a device name list.
pub open spec fn spec_join_lines(names: Seq<String>) -> Seq<char>
    decreases names.len(),
{
    if names.len() == 0 {
        Seq::empty()
    } else if names.len() == 1 {
        names[0]@
    } else {
        names[0]@ + seq!['\n'] + spec_join_lines(names.skip(1))
    }
}

/// Appends the newline-joined names starting at `i`.
fn push_joined(names: &Vec<String>, i: usize, out: &mut Vec<char>)
    requires
        i <= names@.len(),
    ensures
        final(out)@ == old(out)@ + spec_join_lines(names@.skip(i as int)),
    decreases names@.len() - i,
{
    if i == names.len() {
        assert(names@.skip(i as int).len() == 0);
        assert(old(out)@ + spec_join_lines(names@.skip(i as int)) =~= old(out)@);
    } else {
        let name: &String = &names[i];
        push_str_chars(out, name.as_str());
        assert(names@.skip(i as int)[0] == names@[i as int]);
        if i + 1 < names.len() {
            out.push('\n');
            push_joined(names, i + 1, out);
            assert(names@.skip(i as int).skip(1) =~= names@.skip(i as int + 1));
            assert(old(out)@ + (names@[i as int]@ + seq!['\n'] + spec_join_lines(names@.skip(
                i as int + 1,
            ))) =~= out@);
        } else {
            assert(names@.skip(i as int).len() == 1);
        }
    }
}

/// Drives the recording state machine and sequences the audio backend and
/// the media service.
pub struct Orchestrator<C: MediaController> {
    state: SessionState,
    media: MediaControlService<C>,
    backend: AudioBackend,
    handle: Option<RecordingHandle>,
    params: Option<SessionParams>,
}

impl<C: MediaController> Orchestrator<C> {
    /// The current session state.
    pub closed spec fn spec_state(&self) -> SessionState {
        self.state
    }

    /// Whether a recording handle exists.
    pub closed spec fn spec_has_handle(&self) -> bool {
        self.handle is Some
    }

    /// When the running recording began (zero without a handle).
    pub closed spec fn spec_started_at(&self) -> u64 {
        match self.handle {
            Some(h) => h.started_at_ms,
            None => 0,
        }
    }

    /// The stored session parameters.
    pub closed spec fn spec_params(&self) -> Option<SessionParams> {
        self.params
    }

    /// The frames buffered by the backend.
    pub closed spec fn spec_buf(&self) -> Seq<i64> {
        self.backend.spec_buf()
    }

    /// Whether the capture stream is open.
    pub closed spec fn spec_capturing(&self) -> bool {
        self.backend.spec_capturing()
    }

    /// The backend's construction-time mode.
    pub closed spec fn spec_mode(&self) -> RecordMode {
        self.backend.spec_mode()
    }

    /// The backend's sample rate.
    pub closed spec fn spec_rate(&self) -> u32 {
        self.backend.spec_rate()
    }

    /// The playback state of the media player.
    pub closed spec fn spec_playing(&self) -> bool {
        self.media.spec_playing()
    }

    /// Whether the outstanding media pause was caused by this session.
    pub closed spec fn spec_paused(&self) -> bool {
        self.media.spec_paused()
    }

    /// Whether the attached media player's requests always succeed.
    pub closed spec fn spec_infallible(&self) -> bool {
        self.media.spec_infallible()
    }

    /// The well-formedness every handler preserves: the recording handle,
    /// the open capture stream and the stored parameters all exist exactly
    /// while the state is `Recording`, and the backend stays within its
    /// WAV bounds.
    pub open spec fn wf(&self) -> bool {
        &&& (self.spec_state() is Recording <==> self.spec_has_handle())
        &&& (self.spec_state() is Recording <==> self.spec_capturing())
        &&& (self.spec_state() is Recording <==> self.spec_params() is Some)
        &&& self.spec_buf().len() <= MAX_WAV_FRAMES
        &&& self.spec_rate() <= 2147483647
    }

    /// An idle orchestrator around the given media service, recording in
    /// the given mode at the given sample rate.
    pub fn new(media: MediaControlService<C>, mode: RecordMode, sample_rate: u32) -> (s: Self)
        requires
            sample_rate <= 2147483647,
        ensures
            s.wf(),
            s.spec_state() is Idle,
            s.spec_playing() == media.spec_playing(),
            s.spec_paused() == media.spec_paused(),
            s.spec_infallible() == media.spec_infallible(),
            s.spec_mode() == mode,
            s.spec_rate() == sample_rate,
            s.spec_buf() == Seq::<i64>::empty(),
    {
        Orchestrator {
            state: SessionState::Idle,
            media,
            backend: AudioBackend::new(mode, sample_rate),
            handle: None,
            params: None,
        }
    }

    /// The outcome of a start attempt from `Idle`: refused while a stale
    /// recording marker points at a possibly-active session elsewhere,
    /// refused without a capture device, accepted otherwise.
    pub open spec fn start_attempt(
        pre: Self,
        post: Self,
        params: SessionParams,
        device_ok: bool,
        stale_marker: bool,
        now_ms: u64,
        r: IpcResp,
    ) -> bool {
        &&& (stale_marker ==> post == pre && r.ok == false && r.msg@
            == "another recording may be active"@)
        &&& (!stale_marker && !device_ok ==> post == pre && r.ok == false && r.msg@
            == "no input device available"@)
        &&& (!stale_marker && device_ok ==> {
            &&& post.spec_state() is Recording
            &&& post.spec_has_handle() && post.spec_started_at() == now_ms
            &&& post.spec_params() == Some(params)
            &&& post.spec_capturing() && post.spec_buf() == Seq::<i64>::empty()
            &&& pause_outcome(
                pre.spec_playing(),
                pre.spec_paused(),
                post.spec_playing(),
                post.spec_paused(),
            )
            &&& (pre.spec_infallible() ==> post.spec_playing() == pause_step(
                pre.spec_playing(),
                pre.spec_paused(),
            ).0 && post.spec_paused() == pause_step(pre.spec_playing(), pre.spec_paused()).1)
            &&& post.spec_infallible() == pre.spec_infallible()
            &&& post.spec_mode() == pre.spec_mode() && post.spec_rate() == pre.spec_rate()
            &&& r.ok == true && r.msg@ == "recording started"@
        })
    }

    /// The outcome of finalizing a running recording: the state moves to
    /// `Processing` and the job carries the finalized audio and the
    /// session parameters.
    pub open spec fn stop_finalize(
        pre: Self,
        post: Self,
        r: IpcResp,
        job: Option<ProcessingJob>,
    ) -> bool {
        &&& post.spec_state() is Processing
        &&& !post.spec_capturing() && !post.spec_has_handle()
        &&& post.spec_params() is None
        &&& post.spec_buf() == Seq::<i64>::empty()
        &&& post.spec_playing() == pre.spec_playing() && post.spec_paused() == pre.spec_paused()
        &&& post.spec_infallible() == pre.spec_infallible()
        &&& post.spec_mode() == pre.spec_mode() && post.spec_rate() == pre.spec_rate()
        &&& r.ok == true && r.msg@ == "processing started"@
        &&& job matches Some(j) && Some(j.params) == pre.spec_params() && (match pre.spec_mode() {
            RecordMode::Memory => j.audio matches AudioData::Memory(b) && b@ == spec_wav_bytes(
                pre.spec_buf(),
                pre.spec_rate(),
            ),
            RecordMode::File(p) => j.audio matches AudioData::File(q) && q@ == p@,
        })
    }

    /// What `Start` does: reject outside `Idle` with the in-progress
    /// session untouched, otherwise attempt the start.
    pub open spec fn start_post(
        pre: Self,
        post: Self,
        params: SessionParams,
        device_ok: bool,
        stale_marker: bool,
        now_ms: u64,
        r: IpcResp,
    ) -> bool {
        &&& (pre.spec_state() !is Idle ==> post == pre && r.ok == false && r.msg@
            == "already recording"@)
        &&& (pre.spec_state() is Idle ==> Self::start_attempt(
            pre,
            post,
            params,
            device_ok,
            stale_marker,
            now_ms,
            r,
        ))
    }

    /// What `Stop` does: reject when idle or errored (the pause flag and
    /// everything else untouched), reject during `Processing`, otherwise
    /// finalize.
    pub open spec fn stop_post(
        pre: Self,
        post: Self,
        r: IpcResp,
        job: Option<ProcessingJob>,
    ) -> bool {
        &&& ((pre.spec_state() is Idle || pre.spec_state() is Error) ==> post == pre && r.ok
            == false && r.msg@ == "not recording"@ && job is None)
        &&& (pre.spec_state() is Processing ==> post == pre && r.ok == false && r.msg@
            == "already processing"@ && job is None)
        &&& (pre.spec_state() is Recording ==> Self::stop_finalize(pre, post, r, job))
    }

    /// What `Toggle` does: a start attempt from `Idle`, a finalize from
    /// `Recording`, a rejection otherwise.
    pub open spec fn toggle_post(
        pre: Self,
        post: Self,
        params: SessionParams,
        device_ok: bool,
        stale_marker: bool,
        now_ms: u64,
        r: IpcResp,
        job: Option<ProcessingJob>,
    ) -> bool {
        &&& (pre.spec_state() is Idle ==> Self::start_attempt(
            pre,
            post,
            params,
            device_ok,
            stale_marker,
            now_ms,
            r,
        ) && job is None)
        &&& (pre.spec_state() is Recording ==> Self::stop_finalize(pre, post, r, job))
        &&& (pre.spec_state() is Processing ==> post == pre && r.ok == false && r.msg@
            == "already processing"@ && job is None)
        &&& (pre.spec_state() is Error ==> post == pre && r.ok == false && r.msg@
            == "session error"@ && job is None)
    }

    /// What `Status` reports in each state.
    pub open spec fn status_post(pre: Self, now_ms: u64, r: IpcResp) -> bool {
        &&& r.ok == true
        &&& (pre.spec_state() is Idle ==> r.msg@ == "Idle"@)
        &&& (pre.spec_state() is Processing ==> r.msg@ == "Processing"@)
        &&& (pre.spec_state() is Error ==> r.msg@ == "Error"@)
        &&& (pre.spec_state() is Recording ==> r.msg@ == "Recording ("@ + spec_decimal(
            (((now_ms - pre.spec_started_at()) / 1000) as nat),
        ) + "s)"@)
    }

    /// What `Health` reports: failure exactly in the `Error` state.
    pub open spec fn health_post(pre: Self, r: IpcResp) -> bool {
        &&& (pre.spec_state() !is Error ==> r.ok == true && r.msg@ == "ok"@)
        &&& (pre.spec_state() is Error ==> r.ok == false && r.msg@ == "session error"@)
    }

    /// What `ListDevices` reports for an enumeration outcome.
    pub open spec fn devices_post(devices: Option<Vec<String>>, r: IpcResp) -> bool {
        &&& (devices matches Some(names) ==> r.ok == true && r.msg@ == spec_join_lines(names@))
        &&& (devices is None ==> r.ok == false && r.msg@ == "no input host available"@)
    }

    /// Begins a recording session. Rejected outside `Idle` with nothing
    /// changed; from `Idle` it opens the capture, pauses the player if it
    /// was playing, and stores the parameters. `device_ok` reports whether
    /// the shell could open a capture device, and `stale_marker` whether a
    /// recording marker of a possibly-active session is on disk; either
    /// keeps the session idle rather than risk a second capture.
    pub fn handle_start(
        &mut self,
        params: SessionParams,
        device_ok: bool,
        stale_marker: bool,
        now_ms: u64,
    ) -> (r: IpcResp)
        requires
            old(self).wf(),
        ensures
            final(self).wf(),
            Self::start_post(*old(self), *final(self), params, device_ok, stale_marker, now_ms, r),
    {
        match self.state {
            SessionState::Idle => {
                if stale_marker {
                    IpcResp {
                        ok: false,
                        msg: String::from_str("another recording may be active"),
                    }
                } else if !device_ok {
                    IpcResp { ok: false, msg: String::from_str("no input device available") }
                } else {
                    let started = self.backend.start();
                    match started {
                        Ok(_) => {
                        },
                        Err(_) => unreached(),
                    }
                    // A media-control failure only means the player keeps
                    // playing; the session starts either way.
                    let paused = self.media.pause_if_playing();
                    match paused {
                        Ok(_) => {
                        },
                        Err(_) => {
                        },
                    }
                    self.handle = Some(RecordingHandle { started_at_ms: now_ms });
                    self.params = Some(params);
                    self.state = SessionState::Recording;
                    IpcResp { ok: true, msg: String::from_str("recording started") }
                }
            },
            _ => IpcResp { ok: false, msg: String::from_str("already recording") },
        }
    }

    /// Ends the running recording: finalizes the audio synchronously and
    /// hands back the background job. Rejected when idle or errored, and
    /// during `Processing` (never queued).
    pub fn handle_stop(&mut self) -> (out: (IpcResp, Option<ProcessingJob>))
        requires
            old(self).wf(),
        ensures
            final(self).wf(),
            Self::stop_post(*old(self), *final(self), out.0, out.1),
    {
        match self.state {
            SessionState::Idle => (
                IpcResp { ok: false, msg: String::from_str("not recording") },
                None,
            ),
            SessionState::Error => (
                IpcResp { ok: false, msg: String::from_str("not recording") },
                None,
            ),
            SessionState::Processing => (
                IpcResp { ok: false, msg: String::from_str("already processing") },
                None,
            ),
            SessionState::Recording => {
                let stopped = self.backend.stop();
                self.handle = None;
                self.state = SessionState::Processing;
                let mut taken: Option<SessionParams> = None;
                core::mem::swap(&mut taken, &mut self.params);
                match (stopped, taken) {
                    (Ok(audio), Some(p)) => (
                        IpcResp { ok: true, msg: String::from_str("processing started") },
                        Some(ProcessingJob { audio, params: p }),
                    ),
                    _ => unreached(),
                }
            },
        }
    }

    /// Begins when idle, ends when recording; rejected while a session is
    /// still being processed or after a fatal error.
    pub fn handle_toggle(
        &mut self,
        params: SessionParams,
        device_ok: bool,
        stale_marker: bool,
        now_ms: u64,
    ) -> (out: (IpcResp, Option<ProcessingJob>))
        requires
            old(self).wf(),
        ensures
            final(self).wf(),
            Self::toggle_post(
                *old(self),
                *final(self),
                params,
                device_ok,
                stale_marker,
                now_ms,
                out.0,
                out.1,
            ),
    {
        match self.state {
            SessionState::Idle => {
                let r = self.handle_start(params, device_ok, stale_marker, now_ms);
                (r, None)
            },
            SessionState::Recording => self.handle_stop(),
            SessionState::Processing => (
                IpcResp { ok: false, msg: String::from_str("already processing") },
                None,
            ),
            SessionState::Error => (
                IpcResp { ok: false, msg: String::from_str("session error") },
                None,
            ),
        }
    }

    /// Reports the session state, with the elapsed recording time while
    /// recording. Read-only: it never touches the session and returns at
    /// once in every state.
    pub fn handle_status(&self, now_ms: u64) -> (r: IpcResp)
        requires
            self.wf(),
            self.spec_state() is Recording ==> now_ms >= self.spec_started_at(),
        ensures
            Self::status_post(*self, now_ms, r),
    {
        match self.state {
            SessionState::Idle => IpcResp { ok: true, msg: String::from_str("Idle") },
            SessionState::Processing => IpcResp { ok: true, msg: String::from_str("Processing") },
            SessionState::Error => IpcResp { ok: true, msg: String::from_str("Error") },
            SessionState::Recording => {
                match &self.handle {
                    Some(h) => {
                        let secs = (now_ms - h.started_at_ms) / 1000;
                        let digits = u64_to_decimal(secs);
                        let msg = String::from_str("Recording (").concat(digits.as_str()).concat(
                            "s)",
                        );
                        IpcResp { ok: true, msg }
                    },
                    None => unreached(),
                }
            },
        }
    }

    /// Reports whether the daemon is usable: failure exactly after a
    /// fatal error. Read-only.
    pub fn handle_health(&self) -> (r: IpcResp)
        requires
            self.wf(),
        ensures
            Self::health_post(*self, r),
    {
        match self.state {
            SessionState::Error => IpcResp {
                ok: false,
                msg: String::from_str("session error"),
            },
            _ => IpcResp { ok: true, msg: String::from_str("ok") },
        }
    }

    /// Reports the capture device names the shell enumerated, one per
    /// line, or the host failure. Read-only.
    pub fn handle_list_devices(&self, devices: &Option<Vec<String>>) -> (r: IpcResp)
        ensures
            Self::devices_post(*devices, r),
    {
        match devices {
            Some(names) => {
                let mut out: Vec<char> = Vec::new();
                push_joined(names, 0, &mut out);
                assert(names@.skip(0) =~= names@);
                IpcResp { ok: true, msg: chars_to_string(&out) }
            },
            None => IpcResp { ok: false, msg: String::from_str("no input host available") },
        }
    }

    /// Hands captured frames to the running session's buffer; outside a
    /// recording, or past the WAV size bound, the frames are dropped
    /// whole.
    pub fn append_audio(&mut self, frames: &Vec<i64>) -> (accepted: bool)
        requires
            old(self).wf(),
        ensures
            final(self).wf(),
            old(self).spec_state() !is Recording ==> !accepted && *final(self) == *old(self),
            old(self).spec_state() is Recording ==> {
                &&& final(self).spec_state() == old(self).spec_state()
                &&& final(self).spec_has_handle()
                &&& final(self).spec_started_at() == old(self).spec_started_at()
                &&& final(self).spec_params() == old(self).spec_params()
                &&& final(self).spec_playing() == old(self).spec_playing()
                &&& final(self).spec_paused() == old(self).spec_paused()
                &&& final(self).spec_infallible() == old(self).spec_infallible()
                &&& final(self).spec_mode() == old(self).spec_mode()
                &&& final(self).spec_rate() == old(self).spec_rate()
                &&& accepted == (old(self).spec_buf().len() + frames@.len() <= MAX_WAV_FRAMES)
                &&& (accepted ==> final(self).spec_buf() == old(self).spec_buf() + frames@)
                &&& (!accepted ==> final(self).spec_buf() == old(self).spec_buf())
            },
    {
        match self.state {
            SessionState::Recording => self.backend.push_frames(frames),
            _ => false,
        }
    }

    /// Applies the terminal transition of the background work: the player
    /// resume is always attempted, whatever became of transcription or
    /// delivery, and the session returns to `Idle` — or to `Error` when
    /// the shell reports its serialization boundary unusable.
    pub fn finish_processing(&mut self, fatal: bool) -> (r: Result<(), MediaError>)
        requires
            old(self).wf(),
            old(self).spec_state() is Processing,
        ensures
            final(self).wf(),
            final(self).spec_state() == (if fatal {
                SessionState::Error
            } else {
                SessionState::Idle
            }),
            final(self).spec_params() is None,
            final(self).spec_mode() == old(self).spec_mode(),
            final(self).spec_rate() == old(self).spec_rate(),
            r is Ok ==> final(self).spec_playing() == resume_step(
                old(self).spec_playing(),
                old(self).spec_paused(),
            ).0 && final(self).spec_paused() == resume_step(
                old(self).spec_playing(),
                old(self).spec_paused(),
            ).1,
            r is Err ==> old(self).spec_paused() && final(self).spec_playing() == old(
                self,
            ).spec_playing() && final(self).spec_paused() == old(self).spec_paused(),
            old(self).spec_infallible() ==> r is Ok,
            final(self).spec_infallible() == old(self).spec_infallible(),
    {
        let resumed = self.media.resume_if_paused();
        self.state = if fatal {
            SessionState::Error
        } else {
            SessionState::Idle
        };
        resumed
    }

    /// The current session state, for observation from outside the
    /// serialization boundary.
    pub fn state(&self) -> (s: SessionState)
        ensures
            s == self.spec_state(),
    {
        self.state
    }

    /// Whether this session's pause of the media player is outstanding.
    pub fn media_paused(&self) -> (b: bool)
        ensures
            b == self.spec_paused(),
    {
        let r = self.media.is_paused_by_recording();
        match r {
            Ok(b) => b,
            Err(_) => unreached(),
        }
    }

    /// Dispatches one incoming command, handing back the response and the
    /// background job a finalized recording leaves behind.
    pub fn handle_command(&mut self, cmd: IpcCmd, ctx: CommandContext) -> (out: (
        IpcResp,
        Option<ProcessingJob>,
    ))
        requires
            old(self).wf(),
            old(self).spec_state() is Recording ==> ctx.now_ms >= old(self).spec_started_at(),
        ensures
            final(self).wf(),
            cmd matches IpcCmd::Start { paste, prompt, direct_input } ==> Self::start_post(
                *old(self),
                *final(self),
                (SessionParams { paste, prompt, direct_input }),
                ctx.device_ok,
                ctx.stale_marker,
                ctx.now_ms,
                out.0,
            ) && out.1 is None,
            cmd is Stop ==> Self::stop_post(*old(self), *final(self), out.0, out.1),
            cmd matches IpcCmd::Toggle { paste, prompt, direct_input } ==> Self::toggle_post(
                *old(self),
                *final(self),
                (SessionParams { paste, prompt, direct_input }),
                ctx.device_ok,
                ctx.stale_marker,
                ctx.now_ms,
                out.0,
                out.1,
            ),
            cmd is Status ==> *final(self) == *old(self) && Self::status_post(
                *old(self),
                ctx.now_ms,
                out.0,
            ) && out.1 is None,
            cmd is ListDevices ==> *final(self) == *old(self) && Self::devices_post(
                ctx.devices,
                out.0,
            ) && out.1 is None,
            cmd is Health ==> *final(self) == *old(self) && Self::health_post(*old(self), out.0)
                && out.1 is None,
    {
        match cmd {
            IpcCmd::Start { paste, prompt, direct_input } => {
                let r = self.handle_start(
                    SessionParams { paste, prompt, direct_input },
                    ctx.device_ok,
                    ctx.stale_marker,
                    ctx.now_ms,
                );
                (r, None)
            },
            IpcCmd::Stop => self.handle_stop(),
            IpcCmd::Toggle { paste, prompt, direct_input } => self.handle_toggle(
                SessionParams { paste, prompt, direct_input },
                ctx.device_ok,
                ctx.stale_marker,
                ctx.now_ms,
            ),
            IpcCmd::Status => (self.handle_status(ctx.now_ms), None),
            IpcCmd::ListDevices => (self.handle_list_devices(&ctx.devices), None),
            IpcCmd::Health => (self.handle_health(), None),
        }
    }
}

/// The microphone has one owner: in a well-formed orchestrator the
/// recording handle and the open capture stream exist exactly while the
/// state is `Recording`, and a single state value makes `Recording` and
/// `Processing` mutually exclusive. Since every handler keeps `wf`, this
/// holds over all command sequences.
pub proof fn lemma_microphone_exclusive<C: MediaController>(o: Orchestrator<C>)
    requires
        o.wf(),
    ensures
        !(o.spec_state() is Recording && o.spec_state() is Processing),
        o.spec_capturing() <==> o.spec_state() is Recording,
        o.spec_has_handle() <==> o.spec_state() is Recording,
{
}

} // verus!
