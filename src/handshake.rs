use vstd::prelude::*;

use crate::error::{Error, HandshakeStage};

verus! {

/// Sync byte sent repeatedly until the device answers.
pub const SYNC_BYTE: u8 = 0xA0;
/// Answer to the sync byte from a device that starts a new handshake.
pub const SYNC_REPLY: u8 = 0x5F;

/// Where the host stands in the handshake.
#[derive(Debug, Clone, PartialEq, Eq)]
pub enum HandshakeState {
    Syncing,
    Confirm1,
    Confirm2,
    Confirm3,
    Done,
    Failed,
}

/// What the host does next.
#[derive(Debug, Clone, PartialEq, Eq)]
pub enum HandshakeAction {
    /// Send this byte, then read one reply byte.
    Send(u8),
    /// The handshake is established.
    Finished,
    /// The handshake is over and failed.
    Abort(Error),
}

/// The byte sent on entering a stage and the reply it expects.
pub open spec fn challenge(stage: HandshakeStage) -> (u8, u8) {
    match stage {
        HandshakeStage::Confirm1 => (0x0A, 0xF5),
        HandshakeStage::Confirm2 => (0x50, 0xAF),
        HandshakeStage::Confirm3 => (0x05, 0xFA),
    }
}

/// The confirmation stage a state stands for, if it is one.
pub open spec fn stage_of(s: HandshakeState) -> Option<HandshakeStage> {
    match s {
        HandshakeState::Confirm1 => Some(HandshakeStage::Confirm1),
        HandshakeState::Confirm2 => Some(HandshakeStage::Confirm2),
        HandshakeState::Confirm3 => Some(HandshakeStage::Confirm3),
        _ => None,
    }
}

/// The state that follows a confirmation stage answered correctly, and what
/// the host then does.
pub open spec fn after_stage(stage: HandshakeStage) -> (HandshakeState, HandshakeAction) {
    match stage {
        HandshakeStage::Confirm1 => (HandshakeState::Confirm2, HandshakeAction::Send(0x50)),
        HandshakeStage::Confirm2 => (HandshakeState::Confirm3, HandshakeAction::Send(0x05)),
        HandshakeStage::Confirm3 => (HandshakeState::Done, HandshakeAction::Finished),
    }
}

/// One transition of a handshake that has not ended: `reply` is the outcome
/// of the read that followed the byte last sent in state `s`.
pub open spec fn step_spec(s: HandshakeState, reply: Result<u8, String>) -> (HandshakeState, HandshakeAction) {
    match s {
        HandshakeState::Syncing => match reply {
            Ok(b) if b == SYNC_REPLY => (HandshakeState::Confirm1, HandshakeAction::Send(0x0A)),
            Ok(b) if b == SYNC_BYTE => (HandshakeState::Done, HandshakeAction::Finished),
            _ => (HandshakeState::Syncing, HandshakeAction::Send(SYNC_BYTE)),
        },
        _ => {
            let stage = stage_of(s).unwrap();
            match reply {
                Err(msg) => (HandshakeState::Failed, HandshakeAction::Abort(Error::Io(msg))),
                Ok(b) => if b == challenge(stage).1 {
                    after_stage(stage)
                } else {
                    (
                        HandshakeState::Failed,
                        HandshakeAction::Abort(Error::HandshakeFailed(stage)),
                    )
                },
            }
        },
    }
}

impl HandshakeState {
    /// The state a freshly opened port starts in, and the first byte to send.
    pub fn start() -> (r: (HandshakeState, u8))
        ensures
            r == (HandshakeState::Syncing, SYNC_BYTE),
    {
        (HandshakeState::Syncing, SYNC_BYTE)
    }

    /// Advances the handshake by the outcome of one reply read; an ended
    /// handshake takes no more steps.
    pub fn step(self, reply: Result<u8, String>) -> (r: (HandshakeState, HandshakeAction))
        requires
            !(self is Done || self is Failed),
        ensures
            r == step_spec(self, reply),
    {
        match self {
            HandshakeState::Syncing => match reply {
                Ok(b) => if b == SYNC_REPLY {
                    (HandshakeState::Confirm1, HandshakeAction::Send(0x0A))
                } else if b == SYNC_BYTE {
                    (HandshakeState::Done, HandshakeAction::Finished)
                } else {
                    (HandshakeState::Syncing, HandshakeAction::Send(SYNC_BYTE))
                },
                Err(_) => (HandshakeState::Syncing, HandshakeAction::Send(SYNC_BYTE)),
            },
            HandshakeState::Confirm1 => confirm(HandshakeStage::Confirm1, 0xF5, reply),
            HandshakeState::Confirm2 => confirm(HandshakeStage::Confirm2, 0xAF, reply),
            HandshakeState::Confirm3 => confirm(HandshakeStage::Confirm3, 0xFA, reply),
            HandshakeState::Done | HandshakeState::Failed => (HandshakeState::Done, HandshakeAction::Finished),
        }
    }

    /// Whether the handshake is over, established or failed.
    pub fn is_terminal(&self) -> (r: bool)
        ensures
            r == (*self is Done || *self is Failed),
    {
        match self {
            HandshakeState::Done | HandshakeState::Failed => true,
            _ => false,
        }
    }
}

fn confirm(stage: HandshakeStage, expected: u8, reply: Result<u8, String>) -> (r: (HandshakeState, HandshakeAction))
    requires
        expected == challenge(stage).1,
    ensures
        r == (match reply {
            Err(msg) => (HandshakeState::Failed, HandshakeAction::Abort(Error::Io(msg))),
            Ok(b) => if b == expected {
                after_stage(stage)
            } else {
                (
                    HandshakeState::Failed,
                    HandshakeAction::Abort(Error::HandshakeFailed(stage)),
                )
            },
        }),
{
    match reply {
        Err(msg) => {
            (HandshakeState::Failed, HandshakeAction::Abort(Error::Io(msg)))
        },
        Ok(b) => if b == expected {
            match stage {
                HandshakeStage::Confirm1 => (HandshakeState::Confirm2, HandshakeAction::Send(0x50)),
                HandshakeStage::Confirm2 => (HandshakeState::Confirm3, HandshakeAction::Send(0x05)),
                HandshakeStage::Confirm3 => (HandshakeState::Done, HandshakeAction::Finished),
            }
        } else {
            (
                HandshakeState::Failed,
                HandshakeAction::Abort(Error::HandshakeFailed(stage)),
            )
        },
    }
}

/// The final state and the bytes sent when the handshake in state `s` meets
/// the read outcomes `replies` in order, until it ends or they run out.
pub open spec fn run(s: HandshakeState, replies: Seq<Result<u8, String>>) -> (HandshakeState, Seq<u8>)
    decreases replies.len(),
{
    if replies.len() == 0 || s is Done || s is Failed {
        (s, Seq::empty())
    } else {
        let (next, action) = step_spec(s, replies[0]);
        let (last, sent) = run(next, replies.drop_first());
        match action {
            HandshakeAction::Send(b) => (last, seq![b] + sent),
            _ => (last, sent),
        }
    }
}

/// A wrong reply at a confirmation stage ends the handshake at once with
/// `HandshakeFailed` for that stage; an ended handshake sends nothing more.
pub proof fn lemma_confirm_mismatch_fails(stage: HandshakeStage, b: u8, rest: Seq<Result<u8, String>>)
    requires
        b != challenge(stage).1,
    ensures
        ({
            let s = match stage {
                HandshakeStage::Confirm1 => HandshakeState::Confirm1,
                HandshakeStage::Confirm2 => HandshakeState::Confirm2,
                HandshakeStage::Confirm3 => HandshakeState::Confirm3,
            };
            &&& step_spec(s, Ok(b)) == (HandshakeState::Failed, HandshakeAction::Abort(Error::HandshakeFailed(stage)))
            &&& run(s, seq![Ok(b)] + rest) == (HandshakeState::Failed, Seq::<u8>::empty())
        }),
{
    let s = match stage {
        HandshakeStage::Confirm1 => HandshakeState::Confirm1,
        HandshakeStage::Confirm2 => HandshakeState::Confirm2,
        HandshakeStage::Confirm3 => HandshakeState::Confirm3,
    };
    let all = seq![Ok(b)] + rest;
    assert(all[0] == Ok::<u8, String>(b));
    assert(all.drop_first() =~= rest);
    assert(run(HandshakeState::Failed, rest) == (HandshakeState::Failed, Seq::<u8>::empty()));
}

/// While the device has not answered the sync byte with the sync reply, the
/// host sends nothing but sync bytes: no confirmation byte goes out first.
pub proof fn lemma_only_sync_before_reply(replies: Seq<Result<u8, String>>)
    requires
        forall|i: int| 0 <= i < replies.len() ==> replies[i] != Ok::<u8, String>(SYNC_REPLY),
    ensures
        forall|k: int| 0 <= k < run(HandshakeState::Syncing, replies).1.len()
            ==> run(HandshakeState::Syncing, replies).1[k] == SYNC_BYTE,
        run(HandshakeState::Syncing, replies).0 is Syncing || run(HandshakeState::Syncing, replies).0 is Done,
    decreases replies.len(),
{
    if replies.len() > 0 {
        let rest = replies.drop_first();
        assert forall|i: int| 0 <= i < rest.len() implies rest[i] != Ok::<u8, String>(SYNC_REPLY) by {
            assert(rest[i] == replies[i + 1]);
        }
        lemma_only_sync_before_reply(rest);
        let (next, action) = step_spec(HandshakeState::Syncing, replies[0]);
        if next is Done {
            assert(run(next, rest) == (next, Seq::<u8>::empty()));
        }
    }
}

/// A device that echoes the sync byte is taken as already synchronised: the
/// handshake ends established after that one reply, with no byte sent after
/// the sync byte.
pub proof fn lemma_echo_already_synced(rest: Seq<Result<u8, String>>)
    ensures
        run(HandshakeState::Syncing, seq![Ok(SYNC_BYTE)] + rest) == (HandshakeState::Done, Seq::<u8>::empty()),
{
    let all = seq![Ok(SYNC_BYTE)] + rest;
    assert(all[0] == Ok::<u8, String>(SYNC_BYTE));
    assert(all.drop_first() =~= rest);
    assert(step_spec(HandshakeState::Syncing, all[0]) == (HandshakeState::Done, HandshakeAction::Finished));
    assert(run(HandshakeState::Done, rest) == (HandshakeState::Done, Seq::<u8>::empty()));
}

} // verus!
