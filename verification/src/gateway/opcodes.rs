//! Discord gateway opcodes.

use vstd::prelude::*;

verus! {

/// All Discord gateway opcodes as defined in the official documentation.
#[derive(Debug, Clone, Copy, PartialEq, Eq, Structural)]
pub enum Opcode {
    /// Receive — an event was dispatched.
    Dispatch,
    /// Send / Receive — keep the WebSocket connection alive.
    Heartbeat,
    /// Send — start a new session during the initial handshake.
    Identify,
    /// Send — update the client's presence / status.
    PresenceUpdate,
    /// Send — used to join, move, or disconnect from a voice channel.
    VoiceStateUpdate,
    /// Send — resume a previously disconnected session.
    Resume,
    /// Receive — Discord requests the client to reconnect and resume.
    Reconnect,
    /// Send — request members for a guild.
    RequestGuildMembers,
    /// Receive — the session has been invalidated; may or may not be resumable.
    InvalidSession,
    /// Receive — sent on connect; contains the heartbeat interval.
    Hello,
    /// Receive — acknowledgement of a heartbeat sent by the client.
    HeartbeatAck,
}

impl Opcode {
    /// The number Discord uses for the opcode.
    pub open spec fn code_spec(self) -> u8 {
        match self {
            Opcode::Dispatch => 0,
            Opcode::Heartbeat => 1,
            Opcode::Identify => 2,
            Opcode::PresenceUpdate => 3,
            Opcode::VoiceStateUpdate => 4,
            Opcode::Resume => 6,
            Opcode::Reconnect => 7,
            Opcode::RequestGuildMembers => 8,
            Opcode::InvalidSession => 9,
            Opcode::Hello => 10,
            Opcode::HeartbeatAck => 11,
        }
    }

    /// The opcode a number stands for, if any.
    pub open spec fn from_code_spec(value: u8) -> Option<Opcode> {
        if value == 0 {
            Some(Opcode::Dispatch)
        } else if value == 1 {
            Some(Opcode::Heartbeat)
        } else if value == 2 {
            Some(Opcode::Identify)
        } else if value == 3 {
            Some(Opcode::PresenceUpdate)
        } else if value == 4 {
            Some(Opcode::VoiceStateUpdate)
        } else if value == 6 {
            Some(Opcode::Resume)
        } else if value == 7 {
            Some(Opcode::Reconnect)
        } else if value == 8 {
            Some(Opcode::RequestGuildMembers)
        } else if value == 9 {
            Some(Opcode::InvalidSession)
        } else if value == 10 {
            Some(Opcode::Hello)
        } else if value == 11 {
            Some(Opcode::HeartbeatAck)
        } else {
            None
        }
    }

    /// Convert a raw integer received from Discord into an [`Opcode`].
    ///
    /// Returns `None` for any value that is not a recognised opcode so the
    /// caller can decide how to handle unknown/future opcodes gracefully.
    pub fn from_u8(value: u8) -> (r: Option<Self>)
        ensures
            r == Self::from_code_spec(value),
    {
        match value {
            0 => Some(Opcode::Dispatch),
            1 => Some(Opcode::Heartbeat),
            2 => Some(Opcode::Identify),
            3 => Some(Opcode::PresenceUpdate),
            4 => Some(Opcode::VoiceStateUpdate),
            6 => Some(Opcode::Resume),
            7 => Some(Opcode::Reconnect),
            8 => Some(Opcode::RequestGuildMembers),
            9 => Some(Opcode::InvalidSession),
            10 => Some(Opcode::Hello),
            11 => Some(Opcode::HeartbeatAck),
            _ => None,
        }
    }

    /// The number Discord uses for the opcode.
    pub fn code(self) -> (r: u8)
        ensures
            r == self.code_spec(),
    {
        match self {
            Opcode::Dispatch => 0,
            Opcode::Heartbeat => 1,
            Opcode::Identify => 2,
            Opcode::PresenceUpdate => 3,
            Opcode::VoiceStateUpdate => 4,
            Opcode::Resume => 6,
            Opcode::Reconnect => 7,
            Opcode::RequestGuildMembers => 8,
            Opcode::InvalidSession => 9,
            Opcode::Hello => 10,
            Opcode::HeartbeatAck => 11,
        }
    }
}

/// Every opcode is recognised from its own number, and a recognised number
/// is the number of the opcode it is recognised as.
pub proof fn lemma_opcode_roundtrip(op: Opcode, value: u8)
    ensures
        Opcode::from_code_spec(op.code_spec()) == Some(op),
        Opcode::from_code_spec(value) matches Some(o) ==> o.code_spec() == value,
        Opcode::from_code_spec(value) is None <==> (value == 5 || value > 11),
{
}

} // verus!
