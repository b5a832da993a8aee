//! Tests for the session loop's decision core: whole scenarios from raw
//! datagram to observer signal.

use servicepoint_simulator::bitmap::Bitmap;
use servicepoint_simulator::brightness_grid::BrightnessGrid;
use servicepoint_simulator::command_executor::CommandExecutionContext;
use servicepoint_simulator::decode::decode;
use servicepoint_simulator::session::{ObserverEvent, Session, SessionState};
use servicepoint_simulator::{TILE_HEIGHT, TILE_SIZE, TILE_WIDTH};

fn fresh_session() -> Session {
    Session::new(CommandExecutionContext::new(
        Bitmap::max_sized(),
        BrightnessGrid::new(TILE_WIDTH, TILE_HEIGHT),
    ))
}

fn packet(code: u16, a: u16, b: u16, c: u16, d: u16, payload: &[u8]) -> Vec<u8> {
    let mut buf = Vec::new();
    for v in [code, a, b, c, d] {
        buf.extend_from_slice(&v.to_be_bytes());
    }
    buf.extend_from_slice(payload);
    buf
}

#[test]
fn brightness_command_reaches_every_tile() {
    let mut session = fresh_session();
    let datagram = packet(0x0007, 0, 0, 0, 0, &[7]);
    let event = session.apply(&decode(&datagram), &Vec::new());
    assert_eq!(event, Some(ObserverEvent::CommandApplied));
    assert_eq!(session.state, SessionState::Running);
    for ty in 0..TILE_HEIGHT {
        for tx in 0..TILE_WIDTH {
            assert_eq!(session.context.luma.get(tx, ty), 7);
        }
    }
}

#[test]
fn hard_reset_ends_the_session_and_later_commands_do_nothing() {
    let mut session = fresh_session();
    let reset = packet(0x000b, 0, 0, 0, 0, &[]);
    let event = session.apply(&decode(&reset), &Vec::new());
    assert_eq!(event, Some(ObserverEvent::SessionEnding));
    assert_eq!(session.state, SessionState::Terminated);

    // A later iteration must not execute: the brightness stays as it
    // was and no event is emitted.
    let brightness = packet(0x0007, 0, 0, 0, 0, &[3]);
    let event = session.apply(&decode(&brightness), &Vec::new());
    assert_eq!(event, None);
    assert_eq!(session.state, SessionState::Terminated);
    assert_ne!(session.context.luma.get(0, 0), 3);
}

#[test]
fn decode_failure_is_discarded_and_the_session_continues() {
    let mut session = fresh_session();
    let bad = packet(0x4142, 0, 0, 0, 0, &[]);
    let event = session.apply(&decode(&bad), &Vec::new());
    assert_eq!(event, None);
    assert_eq!(session.state, SessionState::Running);

    // The session still accepts commands afterwards.
    let clear = packet(0x0002, 0, 0, 0, 0, &[]);
    let event = session.apply(&decode(&clear), &Vec::new());
    assert_eq!(event, Some(ObserverEvent::CommandApplied));
}

#[test]
fn failed_command_continues_without_event() {
    let mut session = fresh_session();
    // A deprecated legacy command always fails.
    let legacy = packet(0x0010, 0, 0, 0, 0, &[]);
    let event = session.apply(&decode(&legacy), &Vec::new());
    assert_eq!(event, None);
    assert_eq!(session.state, SessionState::Running);
}

#[test]
fn windowed_bitmap_over_the_wire_draws_the_rectangle() {
    let mut session = fresh_session();
    // One tile wide, one row high, at tile x=1, pixel y=2.
    let datagram = packet(0x0013, 1, 2, 1, 1, &[0b1100_0001]);
    let event = session.apply(&decode(&datagram), &Vec::new());
    assert_eq!(event, Some(ObserverEvent::CommandApplied));
    for x in 0..8 {
        let want = x < 2 || x == 7;
        assert_eq!(session.context.display.get(8 + x, 2), want);
    }
    assert!(!session.context.display.get(7, 2));
    assert!(!session.context.display.get(16, 2));
}

#[test]
fn char_grid_over_the_wire_draws_the_given_glyphs() {
    let mut session = fresh_session();
    let datagram = packet(0x0020, 0, 0, 1, 1, b"X");
    let decoded = decode(&datagram);
    // One pre-rendered tile stands in for the font renderer's output.
    let mut tile = Bitmap::new(TILE_SIZE, TILE_SIZE);
    tile.set(0, 0, true);
    tile.set(7, 7, true);
    let event = session.apply(&decoded, &vec![Some(tile)]);
    assert_eq!(event, Some(ObserverEvent::CommandApplied));
    assert!(session.context.display.get(0, 0));
    assert!(session.context.display.get(7, 7));
    assert!(!session.context.display.get(1, 0));
}

#[test]
fn clear_over_the_wire_blanks_the_display() {
    let mut session = fresh_session();
    session.context.display.set(13, 11, true);
    let clear = packet(0x0002, 0, 0, 0, 0, &[]);
    let event = session.apply(&decode(&clear), &Vec::new());
    assert_eq!(event, Some(ObserverEvent::CommandApplied));
    assert!(!session.context.display.get(13, 11));
}
