//! Discord's Opus audio format: 48 kHz stereo in 20 ms frames (960 samples
//! per channel per frame), and the check a PCM frame must pass before it is
//! encoded.

use vstd::prelude::*;
use crate::error::VoiceError;
use crate::text::{decimal, push_decimal};

verus! {

/// Discord voice always uses 48 kHz.
pub const SAMPLE_RATE: u32 = 48_000;
/// Discord expects 20 ms Opus frames.
pub const FRAME_DURATION_MS: u32 = 20;
/// Samples per channel in one 20 ms frame at 48 kHz.
pub const FRAME_SIZE: usize = 960;
/// Discord voice uses stereo audio.
pub const CHANNELS: u32 = 2;

/// One frame holds as many samples per channel as the sample rate gives in
/// the frame's duration.
pub proof fn lemma_frame_size()
    ensures
        FRAME_SIZE == SAMPLE_RATE * FRAME_DURATION_MS / 1000,
        FRAME_SIZE * CHANNELS == 1920,
{
}

/// Check that interleaved PCM input holds exactly one stereo frame,
/// [`FRAME_SIZE`] × [`CHANNELS`] = 1920 samples.
pub fn check_pcm_frame(len: usize) -> (r: Result<(), VoiceError>)
    ensures
        len == 1920 ==> r is Ok,
        len != 1920 ==> (r matches Err(VoiceError::Connection(m))
            && m@ == "PCM frame must be "@ + decimal(1920) + " samples (got "@ + decimal(len as nat) + ")"@),
{
    let expected: usize = FRAME_SIZE * (CHANNELS as usize);
    if len != expected {
        let mut m = "PCM frame must be ".to_owned();
        push_decimal(&mut m, expected as u64);
        m.append(" samples (got ");
        push_decimal(&mut m, len as u64);
        m.append(")");
        return Err(VoiceError::Connection(m));
    }
    Ok(())
}

} // verus!
