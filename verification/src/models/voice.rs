//! Voice channel effects.

use vstd::prelude::*;

verus! {

/// The kind of a voice channel effect.
#[derive(Debug, Clone)]
pub struct VoiceChannelEffectType(pub u8);

} // verus!
