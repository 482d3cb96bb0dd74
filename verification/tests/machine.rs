//! The execution interface: stepping, word exchange, sentinels, and the
//! terminal states.

use lminc_host::Session;
use lminc_host::State;

fn loaded(src: &str) -> Session {
    let mut s = Session::new(8, 1024);
    for (i, b) in src.as_bytes().iter().enumerate() {
        s.write_byte(i, *b);
    }
    s.set_code_length(src.len());
    assert_eq!(s.parse(), 0);
    assert_eq!(s.assemble(), 0);
    s.initialise();
    s
}

#[test]
fn store_input_and_output_it() {
    let mut s = loaded("IN\nSTA 99\nLDA 99\nOUT\nHLT\n");
    assert_eq!(s.get_state(), State::Running);
    assert_eq!(s.step(), State::AwaitingInput);
    assert!(s.input(123));
    assert_eq!(s.step(), State::Running);
    assert_eq!(s.step(), State::Running);
    assert_eq!(s.step(), State::AwaitingOutput);
    let out = s.output();
    assert_eq!(out, 123);
    assert!(out < 1000);
    assert_eq!(s.step(), State::Halted);
}

#[test]
fn unknown_opcode_is_terminal() {
    let mut s = loaded("DAT 400\n");
    assert_eq!(s.step(), State::InvalidInstruction);
    assert_eq!(s.step(), State::InvalidInstruction);
    assert_eq!(s.step(), State::InvalidInstruction);
    assert_eq!(s.get_state(), State::InvalidInstruction);
}

#[test]
fn get_state_is_idempotent() {
    let mut s = loaded("IN\nHLT\n");
    let first = s.get_state();
    assert_eq!(s.get_state(), first);
    assert_eq!(s.get_state(), first);
    s.step();
    let second = s.get_state();
    assert_eq!(s.get_state(), second);
}

#[test]
fn initialise_restarts_execution() {
    let mut s = loaded("OUT\nHLT\n");
    assert_eq!(s.step(), State::AwaitingOutput);
    assert_eq!(s.output(), 0);
    assert_eq!(s.step(), State::Halted);
    s.initialise();
    assert_eq!(s.get_state(), State::Running);
    assert_eq!(s.step(), State::AwaitingOutput);
}

#[test]
fn output_sentinel_when_nothing_pending() {
    let mut s = loaded("HLT\n");
    assert_eq!(s.output(), 1000);
    assert_eq!(s.get_state(), State::Running);
    s.step();
    assert_eq!(s.output(), 1000);
}

#[test]
fn input_refused_unless_awaiting() {
    let mut s = loaded("IN\nHLT\n");
    assert!(!s.input(5));
    assert_eq!(s.get_state(), State::Running);
    assert_eq!(s.step(), State::AwaitingInput);
    assert!(s.input(7));
    assert_ne!(s.get_state(), State::AwaitingInput);
    assert_eq!(s.get_state(), State::Running);
    assert!(!s.input(7));
}

#[test]
fn reached_end_when_running_off_memory() {
    // 100 instructions, none of which halts: the counter runs off the end.
    let mut src = String::new();
    for _ in 0..100 {
        src.push_str("DAT 101\n");
    }
    let mut s = loaded(&src);
    let mut last = State::Running;
    for _ in 0..200 {
        last = s.step();
        if last != State::Running {
            break;
        }
    }
    assert_eq!(last, State::ReachedEnd);
    assert_eq!(s.step(), State::ReachedEnd);
}

#[test]
fn char_io_round_trip() {
    let mut s = loaded("EXT\nINA\nOTA\nHLT\n");
    assert_eq!(s.output_char(), 0);
    assert_eq!(s.step(), State::Running);
    assert_eq!(s.step(), State::AwaitingCharInput);
    // A plain word is refused while a character word is awaited.
    assert!(!s.input(65));
    assert!(s.input_char(65));
    assert_eq!(s.step(), State::AwaitingCharOutput);
    assert_eq!(s.output(), 1000);
    assert_eq!(s.output_char(), 65);
    assert_eq!(s.step(), State::Halted);
}

#[test]
fn state_codes_match_the_boundary_protocol() {
    assert_eq!(State::Running.to_code(), 0);
    assert_eq!(State::AwaitingInput.to_code(), 1);
    assert_eq!(State::AwaitingOutput.to_code(), 2);
    assert_eq!(State::Halted.to_code(), 3);
    assert_eq!(State::ReachedEnd.to_code(), 4);
    assert_eq!(State::InvalidInstruction.to_code(), 5);
    assert_eq!(State::AwaitingCharInput.to_code(), 11);
    assert_eq!(State::AwaitingCharOutput.to_code(), 12);
}
