//! Daemon-side core of a voice dictation helper.
//!
//! A background daemon captures microphone audio on command, hands it to a
//! transcription service, and delivers the resulting text to the focused
//! application; a lightweight client relays commands to the daemon over a
//! newline-delimited JSON socket protocol.
//!
//! This crate holds the verified core: the session state machine that
//! serializes access to the single microphone, the media pause/resume
//! bookkeeping, the audio sample finalization, and the wire codec. The
//! unverified shell (socket I/O, the capture stream, keystroke injection)
//! lives outside and talks to this crate through plain values.

use vstd::prelude::*;

pub mod audio;
pub mod chars;
pub mod dict;
pub mod ipc;
pub mod json;
pub mod media;
pub mod session;
pub mod text_input;

verus! {

/// Decides the effective direct-input setting from the two command-line
/// flags. Specifying both at once is a contradiction and is rejected.
pub fn resolve_direct_input_flag(direct_input: bool, no_direct_input: bool) -> (r: Result<
    bool,
    &'static str,
>)
    ensures
        r is Err <==> direct_input && no_direct_input,
        r matches Ok(b) ==> b == direct_input,
        r matches Err(m) ==> m@ == "Cannot specify both --direct-input and --no-direct-input"@,
{
    if direct_input && no_direct_input {
        Err("Cannot specify both --direct-input and --no-direct-input")
    } else {
        Ok(direct_input)
    }
}

} // verus!
