use std::collections::VecDeque;

use mtkport::error::{Error, HandshakeStage};
use mtkport::handshake::{HandshakeAction, HandshakeState};

/// Runs the handshake against a device that answers with `replies` in order;
/// returns the outcome and every byte the host sent.
fn simulate(replies: &[Result<u8, String>]) -> (Result<(), Error>, Vec<u8>) {
    let mut queue: VecDeque<Result<u8, String>> = replies.iter().cloned().collect();
    let (mut state, first) = HandshakeState::start();
    let mut sent = vec![first];
    loop {
        let reply = queue.pop_front().expect("device ran out of replies");
        let (next, action) = state.step(reply);
        state = next;
        match action {
            HandshakeAction::Send(b) => sent.push(b),
            HandshakeAction::Finished => return (Ok(()), sent),
            HandshakeAction::Abort(e) => {
                assert!(state.is_terminal());
                return (Err(e), sent);
            }
        }
    }
}

#[test]
fn handshake_full_sequence() {
    let (r, sent) = simulate(&[Ok(0x5F), Ok(0xF5), Ok(0xAF), Ok(0xFA)]);
    assert_eq!(r, Ok(()));
    assert_eq!(sent, vec![0xA0, 0x0A, 0x50, 0x05]);
}

#[test]
fn handshake_already_synced() {
    let (r, sent) = simulate(&[Ok(0xA0)]);
    assert_eq!(r, Ok(()));
    assert_eq!(sent, vec![0xA0]);
}

#[test]
fn handshake_confirm1_mismatch() {
    let (r, sent) = simulate(&[Ok(0x5F), Ok(0x00), Ok(0xAF), Ok(0xFA)]);
    assert_eq!(r, Err(Error::HandshakeFailed(HandshakeStage::Confirm1)));
    assert_eq!(sent, vec![0xA0, 0x0A]);
}

#[test]
fn handshake_confirm2_and_confirm3_mismatch() {
    let (r, sent) = simulate(&[Ok(0x5F), Ok(0xF5), Ok(0xFA)]);
    assert_eq!(r, Err(Error::HandshakeFailed(HandshakeStage::Confirm2)));
    assert_eq!(sent, vec![0xA0, 0x0A, 0x50]);
    let (r, sent) = simulate(&[Ok(0x5F), Ok(0xF5), Ok(0xAF), Ok(0xAF)]);
    assert_eq!(r, Err(Error::HandshakeFailed(HandshakeStage::Confirm3)));
    assert_eq!(sent, vec![0xA0, 0x0A, 0x50, 0x05]);
}

#[test]
fn handshake_syncing_tolerates_noise() {
    let (r, sent) = simulate(&[Ok(0x12), Err("timed out".to_string()), Ok(0xFF), Ok(0x5F), Ok(0xF5), Ok(0xAF), Ok(0xFA)]);
    assert_eq!(r, Ok(()));
    assert_eq!(sent, vec![0xA0, 0xA0, 0xA0, 0xA0, 0x0A, 0x50, 0x05]);
}

#[test]
fn handshake_read_error_at_confirm_is_io() {
    let (r, sent) = simulate(&[Ok(0x5F), Err("timed out".to_string())]);
    assert_eq!(r, Err(Error::Io("timed out".to_string())));
    assert_eq!(sent, vec![0xA0, 0x0A]);
}
