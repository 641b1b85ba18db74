//! The decisions of the gateway heartbeat task.
//!
//! The task waits on two things: its interval timer and a control channel.
//! On each tick it sends an opcode-1 heartbeat, unless the previous one was
//! never acknowledged, in which case the connection is presumed lost and the
//! task stops.  [`Heartbeat`] holds the task's state and decides what each
//! tick or control message leads to; the application owns the timer and the
//! channels.

use vstd::prelude::*;
use crate::json::{Json, JsonValue, lemma_members_model, members_model};

verus! {

/// A control message to the heartbeat task.
#[derive(Debug, Clone, Copy, PartialEq, Eq, Structural)]
pub enum HeartbeatMessage {
    /// The gateway acknowledged the last heartbeat (opcode 11).
    Ack,
    /// Stop the task.
    Stop,
}

/// Why the heartbeat task stops.
#[derive(Debug, Clone, Copy, PartialEq, Eq, Structural)]
pub enum HeartbeatStop {
    /// A tick came while the previous heartbeat was still unacknowledged:
    /// the connection is presumed lost.
    NotAcknowledged,
    /// A `Stop` message arrived, or the control channel closed.
    Requested,
}

/// What the task does after a tick or a control message.
#[derive(Debug)]
pub enum HeartbeatAction {
    /// Send this payload on the gateway socket.
    Send(JsonValue),
    /// Leave the loop.
    Stop(HeartbeatStop),
    /// Keep waiting.
    Wait,
}

/// The opcode-1 heartbeat payload: `{"op": 1, "d": seq}`, with `null` for
/// `d` before any sequence number was received.
pub open spec fn heartbeat_json(seq: Option<u64>) -> Json {
    Json::Object(seq![
        ("op"@, Json::UInt(1)),
        ("d"@, match seq {
            Some(s) => Json::UInt(s),
            None => Json::Null,
        }),
    ])
}

/// Build an opcode-1 heartbeat payload with the current sequence number.
pub fn build_heartbeat(seq: Option<u64>) -> (r: JsonValue)
    ensures
        r.model() == heartbeat_json(seq),
{
    let d = match seq {
        Some(s) => JsonValue::UInt(s),
        None => JsonValue::Null,
    };
    let ghost dm = d.model();
    assert(dm == match seq {
        Some(s) => Json::UInt(s),
        None => Json::Null,
    });
    let mut members: Vec<(String, JsonValue)> = Vec::new();
    members.push(("op".to_owned(), JsonValue::UInt(1)));
    members.push(("d".to_owned(), d));
    proof {
        lemma_members_model(members@);
        assert(members@[0].1.model() == Json::UInt(1));
    }
    let ghost expected = seq![
        ("op"@, Json::UInt(1)),
        ("d"@, match seq {
            Some(s) => Json::UInt(s),
            None => Json::Null,
        }),
    ];
    assert(members_model(members@) =~= expected);
    let r = JsonValue::Object(members);
    assert(r.model() == Json::Object(expected));
    r
}

/// The state of a heartbeat task: whether the last heartbeat sent was
/// acknowledged.
#[derive(Debug, Clone, Copy, PartialEq, Eq, Structural)]
pub struct Heartbeat {
    pub acked: bool,
}

impl Heartbeat {
    /// A task that has sent nothing yet.  The timer's first tick fires at
    /// once and is discarded by the application.
    pub fn new() -> (r: Self)
        ensures
            r.acked,
    {
        Heartbeat { acked: true }
    }

    /// The interval timer fired.
    pub fn on_tick(&mut self, seq: Option<u64>) -> (a: HeartbeatAction)
        ensures
            old(self).acked ==> {
                &&& a matches HeartbeatAction::Send(p) && p.model() == heartbeat_json(seq)
                &&& !final(self).acked
            },
            !old(self).acked ==> {
                &&& a matches HeartbeatAction::Stop(why) && why == HeartbeatStop::NotAcknowledged
                &&& *final(self) == *old(self)
            },
    {
        if !self.acked {
            return HeartbeatAction::Stop(HeartbeatStop::NotAcknowledged);
        }
        let msg = build_heartbeat(seq);
        self.acked = false;
        HeartbeatAction::Send(msg)
    }

    /// A control message arrived; `None` when the control channel closed.
    pub fn on_control(&mut self, msg: Option<HeartbeatMessage>) -> (a: HeartbeatAction)
        ensures
            msg == Some(HeartbeatMessage::Ack) ==> a is Wait && final(self).acked,
            msg != Some(HeartbeatMessage::Ack) ==> {
                &&& a matches HeartbeatAction::Stop(why) && why == HeartbeatStop::Requested
                &&& *final(self) == *old(self)
            },
    {
        match msg {
            Some(HeartbeatMessage::Ack) => {
                self.acked = true;
                HeartbeatAction::Wait
            },
            _ => HeartbeatAction::Stop(HeartbeatStop::Requested),
        }
    }
}

/// The state after a tick: a heartbeat goes out only when the last one was
/// acknowledged, and then waits for its own acknowledgement.
pub open spec fn after_tick(hb: Heartbeat) -> Option<Heartbeat> {
    if hb.acked {
        Some(Heartbeat { acked: false })
    } else {
        None
    }
}

/// Two ticks with no acknowledgement between them stop the task, whatever
/// state it was in; an acknowledgement between them lets the second
/// heartbeat go out.
pub proof fn lemma_two_ticks_without_ack_stop(hb: Heartbeat)
    ensures
        after_tick(hb) matches Some(h) ==> after_tick(h) is None,
        after_tick(hb) matches Some(h) ==> after_tick(Heartbeat { acked: true, ..h }) is Some,
{
}

} // verus!
