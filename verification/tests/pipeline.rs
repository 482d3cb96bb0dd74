//! The pipeline protocol: parse and assemble outcomes, the diagnostic
//! region, and the source-view lifecycle.

use lminc_host::Session;
use lminc_host::State;

const BASE: usize = 8;
const CAPACITY: usize = 256;

fn fresh() -> Session {
    Session::new(BASE, CAPACITY)
}

fn put_source(s: &mut Session, src: &str) {
    for (i, b) in src.as_bytes().iter().enumerate() {
        s.write_byte(i, *b);
    }
    s.set_code_length(src.len());
}

fn read_region(s: &Session, start: usize, len: usize) -> Vec<u8> {
    let mut out = Vec::new();
    for i in 0..len {
        out.push(s.read_byte(start + i));
    }
    out
}

#[test]
fn parse_and_assemble_accept_valid_source() {
    let mut s = fresh();
    put_source(&mut s, "IN\nOUT\nHLT\n");
    assert_eq!(s.parse(), 0);
    assert_eq!(s.assemble(), 0);
    assert_eq!(s.get_error_length(), 0);
}

#[test]
fn parse_error_writes_message_after_source() {
    let mut s = fresh();
    let src = "BOOP\n";
    put_source(&mut s, src);
    let addr = s.parse();
    assert_eq!(addr, s.get_code_base() + src.len());
    assert_eq!(s.get_error_location(), 1);
    let expected = "Missing instruction! (line 1)".as_bytes();
    assert_eq!(s.get_error_length(), expected.len());
    let written = read_region(&s, src.len(), s.get_error_length());
    assert_eq!(written.as_slice(), expected);
    // The source bytes were not overwritten.
    assert_eq!(s.read_byte(0), b'B');
    assert_eq!(s.read_byte(4), b'\n');
}

#[test]
fn assemble_error_writes_message_after_source() {
    let mut s = fresh();
    let src = "ADD oops\nHLT\n";
    put_source(&mut s, src);
    assert_eq!(s.parse(), 0);
    let addr = s.assemble();
    assert_eq!(addr, s.get_code_base() + src.len());
    assert_eq!(s.get_error_location(), 1);
    let expected = "Unknown label! (instruction 1)".as_bytes();
    assert_eq!(s.get_error_length(), expected.len());
    let written = read_region(&s, src.len(), s.get_error_length());
    assert_eq!(written.as_slice(), expected);
}

#[test]
fn set_code_length_resets_error_length() {
    let mut s = fresh();
    put_source(&mut s, "BOOP\n");
    assert_ne!(s.parse(), 0);
    assert_ne!(s.get_error_length(), 0);
    s.set_code_length(0);
    assert_eq!(s.get_error_length(), 0);
}

#[test]
fn zero_length_source_is_defined() {
    let mut s = fresh();
    s.set_code_length(0);
    assert_eq!(s.parse(), 0);
    assert_eq!(s.assemble(), 0);
    s.initialise();
    assert_eq!(s.get_state(), State::Running);
    // The empty program's image is all zeros, so the first step halts.
    assert_eq!(s.step(), State::Halted);
}

#[test]
fn assemble_without_parse_yields_zero_image() {
    let mut s = fresh();
    assert_eq!(s.assemble(), 0);
    s.initialise();
    assert_eq!(s.step(), State::Halted);
}

#[test]
fn failing_parse_keeps_previous_program() {
    let mut s = fresh();
    put_source(&mut s, "IN\nOUT\nHLT\n");
    assert_eq!(s.parse(), 0);
    put_source(&mut s, "BOOP\n");
    assert_ne!(s.parse(), 0);
    // The earlier accepted program is still the one that assembles.
    assert_eq!(s.assemble(), 0);
    s.initialise();
    assert_eq!(s.step(), State::AwaitingInput);
}

#[test]
fn diagnostic_is_truncated_at_the_arena_end() {
    let mut s = Session::new(BASE, 4);
    let src = "BOOP";
    put_source(&mut s, src);
    let addr = s.parse();
    assert_eq!(addr, BASE + 4);
    // No space is left after the source view, so no message byte fits.
    assert_eq!(s.get_error_length(), 0);
    assert_eq!(s.read_byte(0), b'B');
}

#[test]
fn base_and_arena_accessors() {
    let s = fresh();
    assert_eq!(s.get_code_base(), BASE);
    assert_eq!(s.arena_len(), CAPACITY);
    assert_eq!(s.read_byte(0), 0);
}

#[test]
fn record_diagnostic_defines_the_region() {
    let mut s = Session::new(8, 16);
    s.set_code_length(4);
    let r = s.record_diagnostic(2, b"ab");
    assert_eq!(r, 12);
    assert_eq!(s.get_error_location(), 2);
    assert_eq!(s.get_error_length(), 2);
    assert_eq!(s.read_byte(4), b'a');
    assert_eq!(s.read_byte(5), b'b');
    // A fresh length declaration clears the cached diagnostic length.
    s.set_code_length(0);
    assert_eq!(s.get_error_length(), 0);
}
