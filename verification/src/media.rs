//! Media playback bookkeeping: pausing an external player while a
//! recording runs and resuming it afterwards.
//!
//! The player itself is reached through the [`MediaController`] capability
//! interface, chosen at construction, so a test double can stand in for the
//! real player integration. The service remembers one bit: whether the
//! outstanding pause was caused by a recording, and resumes only then.

use vstd::prelude::*;
use vstd::string::StringExecFns;

verus! {

/// A media-control failure reported by the player integration.
#[derive(Debug)]
pub enum MediaError {
    /// The player could not be reached or refused the request.
    ControlFailed(String),
}

impl MediaError {
    /// A readable description of the failure.
    pub fn message(&self) -> (r: String)
        ensures
            self matches MediaError::ControlFailed(m) ==> r@ == "media control failed: "@ + m@,
    {
        match self {
            MediaError::ControlFailed(m) => String::from_str("media control failed: ").concat(
                m.as_str(),
            ),
        }
    }
}

/// The capability interface to an external media player. The daemon's real
/// player integration and test doubles both implement it; `spec_playing` is
/// the playback state the methods report and command.
pub trait MediaController: Sized {
    /// Whether the player is playing. A verified controller defines it;
    /// an unverified one outside this crate inherits the default, which
    /// only verified callers ever look at.
    open spec fn spec_playing(&self) -> bool {
        false
    }

    /// Whether this controller's requests always succeed. The in-memory
    /// player model says they do; an unverified integration outside this
    /// crate inherits the default and promises nothing.
    open spec fn spec_infallible(&self) -> bool {
        false
    }

    /// Asks the player whether it is currently playing; asking changes
    /// nothing.
    fn is_playing(&mut self) -> (r: bool)
        ensures
            r == old(self).spec_playing(),
            final(self).spec_playing() == old(self).spec_playing(),
            final(self).spec_infallible() == old(self).spec_infallible(),
    ;

    /// Pauses playback; on failure the playback state is unchanged.
    fn pause(&mut self) -> (r: Result<(), MediaError>)
        ensures
            r is Ok ==> !final(self).spec_playing(),
            r is Err ==> final(self).spec_playing() == old(self).spec_playing(),
            old(self).spec_infallible() ==> r is Ok,
            final(self).spec_infallible() == old(self).spec_infallible(),
    ;

    /// Resumes playback; on failure the playback state is unchanged.
    fn resume(&mut self) -> (r: Result<(), MediaError>)
        ensures
            r is Ok ==> final(self).spec_playing(),
            r is Err ==> final(self).spec_playing() == old(self).spec_playing(),
            old(self).spec_infallible() ==> r is Ok,
            final(self).spec_infallible() == old(self).spec_infallible(),
    ;
}

/// An in-memory player model. Tests drive it in place of a real player,
/// and a service built with [`MediaControlService::new`] uses one as a
/// stand-in when no real integration is attached.
pub struct MockMediaController {
    /// The modelled playback state.
    pub playing: bool,
}

impl MockMediaController {
    /// A player model that starts in the given playback state.
    pub fn new(initial_playing: bool) -> (m: Self)
        ensures
            m.playing == initial_playing,
    {
        MockMediaController { playing: initial_playing }
    }
}

impl MediaController for MockMediaController {
    open spec fn spec_playing(&self) -> bool {
        self.playing
    }

    open spec fn spec_infallible(&self) -> bool {
        true
    }

    fn is_playing(&mut self) -> (r: bool) {
        self.playing
    }

    fn pause(&mut self) -> (r: Result<(), MediaError>) {
        self.playing = false;
        Ok(())
    }

    fn resume(&mut self) -> (r: Result<(), MediaError>) {
        self.playing = true;
        Ok(())
    }
}

/// One successful pause request, as a function of the playback state and
/// the pause flag: the new playback state, the new flag, and whether a
/// pause occurred.
pub open spec fn pause_step(playing: bool, flag: bool) -> (bool, bool, bool) {
    if playing {
        (false, true, true)
    } else {
        (playing, flag, false)
    }
}

/// One successful resume request: the new playback state and the new flag.
/// Playback resumes only when the outstanding pause was caused by a
/// recording.
pub open spec fn resume_step(playing: bool, flag: bool) -> (bool, bool) {
    if flag {
        (true, false)
    } else {
        (playing, flag)
    }
}

/// Pauses and resumes an external player around recordings, remembering
/// whether it caused the outstanding pause.
pub struct MediaControlService<C: MediaController> {
    paused_by_recording: bool,
    controller: C,
}

impl MediaControlService<MockMediaController> {
    /// A service with no real player attached: its built-in player model
    /// starts out not playing, so recording never pauses anything.
    pub fn new() -> (s: Self)
        ensures
            !s.spec_paused(),
            !s.spec_playing(),
            s.spec_infallible(),
    {
        MediaControlService { paused_by_recording: false, controller: MockMediaController::new(false) }
    }
}

impl Default for MediaControlService<MockMediaController> {
    fn default() -> (s: Self)
        ensures
            !s.spec_paused(),
            !s.spec_playing(),
            s.spec_infallible(),
    {
        MediaControlService::new()
    }
}

impl<C: MediaController> MediaControlService<C> {
    /// Whether the outstanding pause was caused by a recording.
    pub closed spec fn spec_paused(&self) -> bool {
        self.paused_by_recording
    }

    /// The playback state of the attached player.
    pub closed spec fn spec_playing(&self) -> bool {
        self.controller.spec_playing()
    }

    /// Whether the attached player's requests always succeed.
    pub closed spec fn spec_infallible(&self) -> bool {
        self.controller.spec_infallible()
    }

    /// Builds the service around the given player integration.
    pub fn with_controller(controller: C) -> (s: Self)
        ensures
            !s.spec_paused(),
            s.spec_playing() == controller.spec_playing(),
            s.spec_infallible() == controller.spec_infallible(),
    {
        MediaControlService { paused_by_recording: false, controller }
    }

    /// The attached player, for inspection.
    pub fn player(&self) -> (r: &C)
        ensures
            r.spec_playing() == self.spec_playing(),
    {
        &self.controller
    }

    /// If the player is currently playing, pauses it and records that this
    /// call caused the pause; returns whether a pause occurred. A no-op
    /// when nothing is playing.
    pub fn pause_if_playing(&mut self) -> (r: Result<bool, MediaError>)
        ensures
            r matches Ok(b) ==> ({
                let (p2, f2, ret) = pause_step(old(self).spec_playing(), old(self).spec_paused());
                b == ret && final(self).spec_playing() == p2 && final(self).spec_paused() == f2
            }),
            r is Err ==> old(self).spec_playing() && final(self).spec_playing() == old(
                self,
            ).spec_playing() && final(self).spec_paused() == old(self).spec_paused(),
            old(self).spec_infallible() ==> r is Ok,
            final(self).spec_infallible() == old(self).spec_infallible(),
    {
        if self.controller.is_playing() {
            match self.controller.pause() {
                Ok(_) => {
                    self.paused_by_recording = true;
                    Ok(true)
                },
                Err(e) => Err(e),
            }
        } else {
            Ok(false)
        }
    }

    /// Resumes the player only when the outstanding pause was caused by a
    /// recording, and clears the flag. Callable repeatedly: once the flag
    /// is cleared it does nothing.
    pub fn resume_if_paused(&mut self) -> (r: Result<(), MediaError>)
        ensures
            r is Ok ==> ({
                let (p2, f2) = resume_step(old(self).spec_playing(), old(self).spec_paused());
                final(self).spec_playing() == p2 && final(self).spec_paused() == f2
            }),
            r is Err ==> old(self).spec_paused() && final(self).spec_playing() == old(
                self,
            ).spec_playing() && final(self).spec_paused() == old(self).spec_paused(),
            old(self).spec_infallible() ==> r is Ok,
            final(self).spec_infallible() == old(self).spec_infallible(),
    {
        if self.paused_by_recording {
            match self.controller.resume() {
                Ok(_) => {
                    self.paused_by_recording = false;
                    Ok(())
                },
                Err(e) => Err(e),
            }
        } else {
            Ok(())
        }
    }

    /// Whether the outstanding pause was caused by a recording.
    pub fn is_paused_by_recording(&self) -> (r: Result<bool, MediaError>)
        ensures
            r matches Ok(b) && b == self.spec_paused(),
    {
        Ok(self.paused_by_recording)
    }

    /// Clears the pause flag without touching the player.
    pub fn reset(&mut self) -> (r: Result<(), MediaError>)
        ensures
            r is Ok,
            !final(self).spec_paused(),
            final(self).spec_playing() == old(self).spec_playing(),
            final(self).spec_infallible() == old(self).spec_infallible(),
    {
        self.paused_by_recording = false;
        Ok(())
    }
}

/// Pausing for a recording and then resuming restores the playback state
/// that held before the pause, provided no pause was already outstanding.
pub proof fn lemma_pause_resume_restores(playing: bool)
    ensures
        ({
            let (p1, f1, occurred) = pause_step(playing, false);
            let (p2, f2) = resume_step(p1, f1);
            p2 == playing && !f2
        }),
{
}

/// Resuming twice is the same as resuming once: the first resume clears
/// the flag, so the second changes nothing.
pub proof fn lemma_resume_idempotent(playing: bool, flag: bool)
    ensures
        ({
            let (p1, f1) = resume_step(playing, flag);
            resume_step(p1, f1) == (p1, f1)
        }),
{
}

} // verus!
