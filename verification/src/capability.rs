//! Trusted bindings to the three opaque capabilities the boundary drives:
//! the parser, the assembler and the machine of the `lminc` crate, together
//! with the checked text view over raw bytes.
//!
//! Everything here is believed, not proved: each item's documentation names
//! the outside function it relies on, and its contract states no more than
//! that function's source shows.

use vstd::prelude::*;
use vstd::string::StringSliceAdditionalSpecFns;
use vstd::utf8::valid_utf8;

use crate::session::State;

verus! {

#[verifier::external_type_specification]
#[verifier::external_body]
pub struct ExThreeDigitNumber(lminc::num3::ThreeDigitNumber);

#[verifier::external_type_specification]
#[verifier::external_body]
pub struct ExComputer(lminc::computer::Computer);

#[verifier::external_type_specification]
#[verifier::external_body]
pub struct ExUtf8Error(core::str::Utf8Error);

/// Relies on core::str::from_utf8: it accepts exactly the valid UTF-8 byte
/// sequences, and on success the returned text views those very bytes.
pub assume_specification<'a>[ core::str::from_utf8 ](v: &'a [u8]) -> (res: Result<
    &'a str,
    core::str::Utf8Error,
>)
    ensures
        (res is Ok) == valid_utf8(v@),
        res matches Ok(s) ==> s.spec_bytes() == v@,
;

/// Whether every word a program image holds is a three-digit number, at most
/// 999.  The assembler only ever produces such images.
pub uninterp spec fn image_wf(image: lminc::computer::Memory) -> bool;

/// The execution state a machine is in, as the boundary's own closed
/// enumeration of states.
pub uninterp spec fn comp_state(c: lminc::computer::Computer) -> State;

/// Whether a machine is well formed: its register and every word of its
/// memory hold at most 999, and its counter is at most 100.  Machines built
/// over a well-formed image stay well formed under every operation the
/// boundary performs.
pub uninterp spec fn comp_wf(c: lminc::computer::Computer) -> bool;

/// The machine's register: the word that `input` fills and that `output`
/// hands back while the machine is suspended on output.
pub uninterp spec fn comp_register(c: lminc::computer::Computer) -> u16;

/// What parsing a source text returns: acceptance, or the rejecting error's
/// reported location together with its rendered message bytes.  The parser is
/// a pure function, so the outcome depends on the text alone; the text stands
/// here as its UTF-8 bytes.
pub uninterp spec fn parse_outcome_of(code: Seq<u8>) -> Result<(), (int, Seq<u8>)>;

/// What parsing and then assembling a source text returns: the produced
/// program image, or the failing stage's reported location together with its
/// rendered message bytes.  Parser and assembler are pure functions, so the
/// outcome depends on the text alone.
pub uninterp spec fn assemble_outcome_of(code: Seq<u8>) -> Result<
    lminc::computer::Memory,
    (int, Seq<u8>),
>;

/// The fresh machine built over a given image; construction is a pure
/// function of the image.
pub uninterp spec fn new_machine_of(image: lminc::computer::Memory) -> lminc::computer::Computer;

/// The machine one instruction later; a step is a pure function of the
/// machine.
pub uninterp spec fn step_of(c: lminc::computer::Computer) -> lminc::computer::Computer;

/// Relies on lminc::parser::Parser::parse_text for the outcome, and on the
/// error's Display rendering (lminc::errors::ErrorWithLocation) for the
/// failure's location and message text.  Both are pure, so the whole outcome
/// is the named function of the text.
#[verifier::external_body]
pub(crate) fn parse_outcome(code: &str) -> (r: Result<(), (usize, Vec<u8>)>)
    ensures
        (r is Ok) == (parse_outcome_of(code.spec_bytes()) is Ok),
        r is Err ==> r->Err_0.0 as int == parse_outcome_of(code.spec_bytes())->Err_0.0,
        r is Err ==> r->Err_0.1@ == parse_outcome_of(code.spec_bytes())->Err_0.1,
{
    match lminc::parser::Parser::parse_text(code) {
        Ok(_) => Ok(()),
        Err(e) => Err(((e.0).0, format!("{}", e).into_bytes())),
    }
}

/// Relies on lminc::assembler::assemble_from_text for the outcome, and on the
/// errors' Display rendering (lminc::errors::ErrorWithLocation) for a
/// failure's location and message text.  All are pure, so the whole outcome
/// is the named function of the text.  Every image the assembler returns
/// holds only three-digit words: every instruction it emits is an op code of
/// at most 912 plus an address of at most 99, or a data word of at most 999.
#[verifier::external_body]
pub(crate) fn assemble_outcome(code: &str) -> (r: Result<
    lminc::computer::Memory,
    (usize, Vec<u8>),
>)
    ensures
        (r is Ok) == (assemble_outcome_of(code.spec_bytes()) is Ok),
        r is Ok ==> image_wf(r->Ok_0) && r->Ok_0 == assemble_outcome_of(code.spec_bytes())->Ok_0,
        r is Err ==> r->Err_0.0 as int == assemble_outcome_of(code.spec_bytes())->Err_0.0,
        r is Err ==> r->Err_0.1@ == assemble_outcome_of(code.spec_bytes())->Err_0.1,
{
    match lminc::assembler::assemble_from_text(code) {
        Ok(Ok(image)) => Ok(image),
        Ok(Err(e)) => Err(((e.0).0, format!("{}", e).into_bytes())),
        Err(e) => Err(((e.0).0, format!("{}", e).into_bytes())),
    }
}

/// Relies on lminc::num3::ThreeDigitNumber::ZERO holding the value zero, so
/// an image of zeros holds only three-digit words.
#[verifier::external_body]
pub(crate) fn zero_image() -> (r: lminc::computer::Memory)
    ensures
        image_wf(r),
{
    [lminc::num3::ThreeDigitNumber::ZERO; 100]
}

/// Relies on lminc::computer::Computer::new: construction is a pure function
/// of the image, and the fresh machine starts in the running state over a
/// copy of that image, with a zero register and a zero counter, so a
/// well-formed image yields a well-formed machine.
#[verifier::external_body]
pub(crate) fn computer_new(image: &lminc::computer::Memory) -> (r: lminc::computer::Computer)
    ensures
        r == new_machine_of(*image),
        comp_state(r) == State::Running,
        comp_register(r) == 0,
        image_wf(*image) ==> comp_wf(r),
{
    lminc::computer::Computer::new(*image)
}

/// Relies on lminc::computer::Computer::state: a pure read of the machine's
/// current state.
#[verifier::external_body]
pub(crate) fn computer_state_of(c: &lminc::computer::Computer) -> (r: State)
    ensures
        r == comp_state(*c),
{
    match c.state() {
        lminc::computer::State::Running => State::Running,
        lminc::computer::State::AwaitingInput => State::AwaitingInput,
        lminc::computer::State::AwaitingOutput => State::AwaitingOutput,
        lminc::computer::State::AwaitingCharInput => State::AwaitingCharInput,
        lminc::computer::State::AwaitingCharOutput => State::AwaitingCharOutput,
        lminc::computer::State::Halted => State::Halted,
        lminc::computer::State::ReachedEnd => State::ReachedEnd,
        lminc::computer::State::InvalidInstruction => State::InvalidInstruction,
    }
}

/// Relies on lminc::computer::Computer::step: a step is a pure function of
/// the machine; it returns the state the machine is in after the step, leaves
/// a machine that was not running entirely untouched, and keeps a well-formed
/// machine well formed (its arithmetic reduces modulo 1000, its addresses
/// stay under 100).
#[verifier::external_body]
pub(crate) fn computer_step(c: &mut lminc::computer::Computer) -> (r: State)
    requires
        comp_wf(*old(c)),
    ensures
        *final(c) == step_of(*old(c)),
        comp_wf(*final(c)),
        r == comp_state(*final(c)),
        comp_state(*old(c)) != State::Running ==> *final(c) == *old(c),
{
    match c.step() {
        lminc::computer::State::Running => State::Running,
        lminc::computer::State::AwaitingInput => State::AwaitingInput,
        lminc::computer::State::AwaitingOutput => State::AwaitingOutput,
        lminc::computer::State::AwaitingCharInput => State::AwaitingCharInput,
        lminc::computer::State::AwaitingCharOutput => State::AwaitingCharOutput,
        lminc::computer::State::Halted => State::Halted,
        lminc::computer::State::ReachedEnd => State::ReachedEnd,
        lminc::computer::State::InvalidInstruction => State::InvalidInstruction,
    }
}

/// Relies on lminc::computer::Computer::input (and on
/// lminc::num3::ThreeDigitNumber::try_from, which accepts every value of at
/// most 999): the word is accepted exactly when the machine awaits input, the
/// machine then runs again, and a refused word leaves it untouched.
#[verifier::external_body]
pub(crate) fn computer_input(c: &mut lminc::computer::Computer, value: u16) -> (r: bool)
    requires
        value <= 999,
        comp_wf(*old(c)),
    ensures
        comp_wf(*final(c)),
        r == (comp_state(*old(c)) == State::AwaitingInput),
        r ==> comp_state(*final(c)) == State::Running && comp_register(*final(c)) == value,
        !r ==> *final(c) == *old(c),
{
    match lminc::num3::ThreeDigitNumber::try_from(value) {
        Ok(n) => c.input(n).is_ok(),
        Err(_) => false,
    }
}

/// Relies on lminc::computer::Computer::output: a word comes back exactly
/// when the machine awaits output, it is the machine's register (at most 999
/// on a well-formed machine), the machine then runs again, and otherwise the
/// machine is left untouched.
#[verifier::external_body]
pub(crate) fn computer_output(c: &mut lminc::computer::Computer) -> (r: Option<u16>)
    requires
        comp_wf(*old(c)),
    ensures
        comp_wf(*final(c)),
        (r is Some) == (comp_state(*old(c)) == State::AwaitingOutput),
        r matches Some(v) ==> v == comp_register(*old(c)) && v <= 999 && comp_state(*final(c))
            == State::Running,
        r is None ==> *final(c) == *old(c),
{
    match c.output() {
        Ok(n) => Some(u16::from(n)),
        Err(_) => None,
    }
}

/// Relies on lminc::computer::Computer::input_char (and on
/// lminc::num3::ThreeDigitNumber::try_from): the character word is accepted
/// exactly when the machine awaits character input, the machine then runs
/// again, and a refused word leaves it untouched.
#[verifier::external_body]
pub(crate) fn computer_input_char(c: &mut lminc::computer::Computer, value: u16) -> (r: bool)
    requires
        value <= 999,
        comp_wf(*old(c)),
    ensures
        comp_wf(*final(c)),
        r == (comp_state(*old(c)) == State::AwaitingCharInput),
        r ==> comp_state(*final(c)) == State::Running && comp_register(*final(c)) == value,
        !r ==> *final(c) == *old(c),
{
    match lminc::num3::ThreeDigitNumber::try_from(value) {
        Ok(n) => c.input_char(n).is_ok(),
        Err(_) => false,
    }
}

/// Relies on lminc::computer::Computer::output_char: a character word comes
/// back exactly when the machine awaits character output, it is the machine's
/// register (at most 999 on a well-formed machine), the machine then runs
/// again, and otherwise the machine is left untouched.
#[verifier::external_body]
pub(crate) fn computer_output_char(c: &mut lminc::computer::Computer) -> (r: Option<u16>)
    requires
        comp_wf(*old(c)),
    ensures
        comp_wf(*final(c)),
        (r is Some) == (comp_state(*old(c)) == State::AwaitingCharOutput),
        r matches Some(v) ==> v == comp_register(*old(c)) && v <= 999 && comp_state(*final(c))
            == State::Running,
        r is None ==> *final(c) == *old(c),
{
    match c.output_char() {
        Ok(n) => Some(u16::from(n)),
        Err(_) => None,
    }
}

} // verus!
