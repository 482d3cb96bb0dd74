//! The session: the boundary's state and its operations.
//!
//! A [`Session`] owns the shared byte arena, the declared source view over
//! its start, the most recently accepted source, the most recently assembled
//! program image, the live machine, and the last diagnostic's location and
//! length.  The pipeline operations (`parse`, `assemble`, `initialise`)
//! advance it from raw text to a runnable machine; the execution operations
//! (`step`, `input`, `output` and their character variants) drive the machine
//! one unit at a time.

use vstd::prelude::*;
use vstd::pervasive::unreached;
use vstd::utf8::valid_utf8;

use crate::capability;
use crate::string_writer::StringWriter;

verus! {

/// The observable execution states of the machine.
#[derive(Clone, Copy, Debug, PartialEq, Eq, Structural)]
pub enum State {
    /// The machine can execute its next instruction.
    Running,
    /// The machine is suspended until the host supplies a word.
    AwaitingInput,
    /// The machine is suspended until the host drains a word.
    AwaitingOutput,
    /// The machine is suspended until the host supplies a character word.
    AwaitingCharInput,
    /// The machine is suspended until the host drains a character word.
    AwaitingCharOutput,
    /// The machine executed a halt instruction; terminal.
    Halted,
    /// The machine ran off the end of its memory; terminal.
    ReachedEnd,
    /// The machine decoded an unknown instruction; terminal.
    InvalidInstruction,
}

impl State {
    /// The numeric code under which a state crosses the boundary.
    pub open spec fn code(self) -> u32 {
        match self {
            State::Running => 0,
            State::AwaitingInput => 1,
            State::AwaitingOutput => 2,
            State::AwaitingCharInput => 11,
            State::AwaitingCharOutput => 12,
            State::Halted => 3,
            State::ReachedEnd => 4,
            State::InvalidInstruction => 5,
        }
    }

    /// Encode the state as its numeric boundary code.
    pub fn to_code(&self) -> (r: u32)
        ensures
            r == self.code(),
    {
        match self {
            State::Running => 0,
            State::AwaitingInput => 1,
            State::AwaitingOutput => 2,
            State::AwaitingCharInput => 11,
            State::AwaitingCharOutput => 12,
            State::Halted => 3,
            State::ReachedEnd => 4,
            State::InvalidInstruction => 5,
        }
    }
}

/// The boundary's whole state.
pub struct Session {
    base: usize,
    arena: Vec<u8>,
    code_length: usize,
    error_location: usize,
    error_length: usize,
    parsed: Option<Vec<u8>>,
    image: lminc::computer::Memory,
    computer: lminc::computer::Computer,
}

/// The parts of a session that the execution operations never touch: the
/// arena and its partition, the diagnostic, the accepted source and the
/// program image.
pub open spec fn boundary_unchanged(pre: Session, post: Session) -> bool {
    &&& post.base() == pre.base()
    &&& post.arena() == pre.arena()
    &&& post.code_len() == pre.code_len()
    &&& post.error_loc() == pre.error_loc()
    &&& post.error_len() == pre.error_len()
    &&& post.parsed_code() == pre.parsed_code()
    &&& post.image() == pre.image()
}

impl Session {
    /// The stable starting address of the shared region.
    pub closed spec fn base(self) -> int {
        self.base as int
    }

    /// The bytes of the shared region, indexed from the base address.
    pub closed spec fn arena(self) -> Seq<u8> {
        self.arena@
    }

    /// The declared length of the source view at the start of the region.
    pub closed spec fn code_len(self) -> int {
        self.code_length as int
    }

    /// The location the last failing pipeline stage reported (the parser
    /// reports a line number, the assembler an instruction number).
    pub closed spec fn error_loc(self) -> int {
        self.error_location as int
    }

    /// The length of the last diagnostic message written into the arena.
    pub closed spec fn error_len(self) -> int {
        self.error_length as int
    }

    /// The source bytes most recently accepted by the parser, if any.
    pub closed spec fn parsed_code(self) -> Option<Seq<u8>> {
        match self.parsed {
            Some(code) => Some(code@),
            None => None,
        }
    }

    /// The current program image, as the opaque value the assembler produced.
    pub closed spec fn image(self) -> lminc::computer::Memory {
        self.image
    }

    /// The live machine, as an opaque value.
    pub closed spec fn machine_value(self) -> lminc::computer::Computer {
        self.computer
    }

    /// The live machine's execution state.
    pub open spec fn machine(self) -> State {
        capability::comp_state(self.machine_value())
    }

    /// The live machine's register: the word `input` delivers and `output`
    /// drains.
    pub open spec fn register(self) -> u16 {
        capability::comp_register(self.machine_value())
    }

    /// The bytes of the declared source view.
    pub open spec fn code_view(self) -> Seq<u8> {
        self.arena().subrange(0, self.code_len())
    }

    /// The source the assembler works on: the accepted program, or the empty
    /// program when none has been accepted yet.
    pub open spec fn stored_code(self) -> Seq<u8> {
        match self.parsed_code() {
            Some(code) => code,
            None => Seq::empty(),
        }
    }

    /// Well-formedness: the addressed region fits the address space, the
    /// source view and the diagnostic partition the region without overlap,
    /// the accepted source is valid text, and the image and the machine hold
    /// only three-digit words.
    pub closed spec fn wf(self) -> bool {
        &&& 1 <= self.base
        &&& self.base + self.arena@.len() <= usize::MAX
        &&& self.code_length <= self.arena@.len()
        &&& self.code_length + self.error_length <= self.arena@.len()
        &&& (self.parsed matches Some(code) ==> valid_utf8(code@))
        &&& capability::image_wf(self.image)
        &&& capability::comp_wf(self.computer)
    }

    /// A fresh session over a zeroed arena of `capacity` bytes that starts at
    /// address `base`: empty source view, no accepted source, a zeroed image,
    /// a running machine over that image, and no diagnostic.
    pub fn new(base: usize, capacity: usize) -> (r: Session)
        requires
            1 <= base,
            base + capacity <= usize::MAX,
        ensures
            r.wf(),
            r.base() == base,
            r.arena().len() == capacity,
            forall|i: int| 0 <= i < capacity ==> r.arena()[i] == 0u8,
            r.code_len() == 0,
            r.error_loc() == 0,
            r.error_len() == 0,
            r.parsed_code() is None,
            r.machine_value() == capability::new_machine_of(r.image()),
            r.machine() == State::Running,
            r.register() == 0,
    {
        let mut arena: Vec<u8> = Vec::new();
        while arena.len() < capacity
            invariant
                arena@.len() <= capacity,
                forall|i: int| 0 <= i < arena@.len() ==> arena@[i] == 0u8,
            decreases capacity - arena@.len(),
        {
            arena.push(0u8);
        }
        let image = capability::zero_image();
        let computer = capability::computer_new(&image);
        Session {
            base,
            arena,
            code_length: 0,
            error_location: 0,
            error_length: 0,
            parsed: None,
            image,
            computer,
        }
    }

    /// The stable starting address of the shared region.
    pub fn get_code_base(&self) -> (r: usize)
        ensures
            r == self.base(),
    {
        self.base
    }

    /// How many bytes the shared region holds.
    pub fn arena_len(&self) -> (r: usize)
        ensures
            r == self.arena().len(),
    {
        self.arena.len()
    }

    /// The length of the last diagnostic message, valid after a failing
    /// parse or assemble and reset by a new source-length declaration.
    pub fn get_error_length(&self) -> (r: usize)
        ensures
            r == self.error_len(),
    {
        self.error_length
    }

    /// The location the last failing pipeline stage reported: the parser
    /// reports the source line, the assembler the instruction number.
    pub fn get_error_location(&self) -> (r: usize)
        ensures
            r == self.error_loc(),
    {
        self.error_location
    }

    /// Write one byte of the shared region, as the host does when it lays
    /// down source text before declaring its length.
    pub fn write_byte(&mut self, offset: usize, value: u8)
        requires
            old(self).wf(),
            offset < old(self).arena().len(),
        ensures
            final(self).wf(),
            final(self).arena() == old(self).arena().update(offset as int, value),
            final(self).base() == old(self).base(),
            final(self).code_len() == old(self).code_len(),
            final(self).error_loc() == old(self).error_loc(),
            final(self).error_len() == old(self).error_len(),
            final(self).parsed_code() == old(self).parsed_code(),
            final(self).image() == old(self).image(),
            final(self).machine_value() == old(self).machine_value(),
    {
        self.arena[offset] = value;
    }

    /// Read one byte of the shared region, as the host does when it reads a
    /// diagnostic message back.
    pub fn read_byte(&self, offset: usize) -> (r: u8)
        requires
            offset < self.arena().len(),
        ensures
            r == self.arena()[offset as int],
    {
        self.arena[offset]
    }

    /// Extend the shared region by `extra` zeroed bytes, as the host does
    /// when it grants the sandbox more memory.  The base address and every
    /// byte already in the region stay as they were.
    pub fn grow(&mut self, extra: usize)
        requires
            old(self).wf(),
            old(self).base() + old(self).arena().len() + extra <= usize::MAX,
        ensures
            final(self).wf(),
            final(self).arena().len() == old(self).arena().len() + extra,
            forall|i: int|
                0 <= i < old(self).arena().len() ==> final(self).arena()[i] == old(self).arena()[i],
            forall|i: int|
                old(self).arena().len() <= i < final(self).arena().len() ==> final(self).arena()[i]
                    == 0u8,
            final(self).base() == old(self).base(),
            final(self).code_len() == old(self).code_len(),
            final(self).error_loc() == old(self).error_loc(),
            final(self).error_len() == old(self).error_len(),
            final(self).parsed_code() == old(self).parsed_code(),
            final(self).image() == old(self).image(),
            final(self).machine_value() == old(self).machine_value(),
    {
        let ghost pre = *old(self);
        let mut added: usize = 0;
        while added < extra
            invariant
                added <= extra,
                self.base == pre.base,
                self.arena@.len() == pre.arena().len() + added,
                forall|i: int| 0 <= i < pre.arena().len() ==> self.arena@[i] == pre.arena()[i],
                forall|i: int|
                    pre.arena().len() <= i < self.arena@.len() ==> self.arena@[i] == 0u8,
                self.code_length == pre.code_length,
                self.error_location == pre.error_location,
                self.error_length == pre.error_length,
                self.parsed == pre.parsed,
                self.image == pre.image,
                self.computer == pre.computer,
                pre.wf(),
                pre.base() + pre.arena().len() + extra <= usize::MAX,
            decreases extra - added,
        {
            self.arena.push(0u8);
            added = added + 1;
        }
    }

    /// Re-establish the source view over the first `length` bytes of the
    /// region and reset the cached diagnostic length to zero.  The host must
    /// already have written `length` bytes of source text at the base.
    pub fn set_code_length(&mut self, length: usize)
        requires
            old(self).wf(),
            length <= old(self).arena().len(),
        ensures
            final(self).wf(),
            final(self).code_len() == length,
            final(self).error_len() == 0,
            final(self).base() == old(self).base(),
            final(self).arena() == old(self).arena(),
            final(self).error_loc() == old(self).error_loc(),
            final(self).parsed_code() == old(self).parsed_code(),
            final(self).image() == old(self).image(),
            final(self).machine_value() == old(self).machine_value(),
    {
        self.code_length = length;
        self.error_length = 0;
    }

    /// A copy of the declared source view.
    fn code_bytes(&self) -> (r: Vec<u8>)
        requires
            self.wf(),
        ensures
            r@ == self.arena().subrange(0, self.code_len()),
    {
        let mut out: Vec<u8> = Vec::new();
        let mut i: usize = 0;
        while i < self.code_length
            invariant
                self.wf(),
                i <= self.code_length,
                out@ == self.arena().subrange(0, i as int),
            decreases self.code_length - i,
        {
            let value = self.arena[i];
            out.push(value);
            proof {
                assert(self.arena().subrange(0, i + 1) =~= self.arena().subrange(
                    0,
                    i as int,
                ).push(self.arena()[i as int]));
            }
            i = i + 1;
        }
        out
    }

    /// Record a failing stage's diagnostic: store its location, write as much
    /// of its message as fits into the arena immediately after the source
    /// view, cache the written length, and return the address at which the
    /// message begins.  That address is `base + code_len`, so it is never 0
    /// and the message never overlaps the source bytes.
    pub fn record_diagnostic(&mut self, location: usize, message: &[u8]) -> (r: usize)
        requires
            old(self).wf(),
        ensures
            final(self).wf(),
            r == old(self).base() + old(self).code_len(),
            final(self).base() == old(self).base(),
            final(self).code_len() == old(self).code_len(),
            final(self).arena().len() == old(self).arena().len(),
            final(self).error_loc() == location,
            final(self).error_len() == if message@.len() <= old(self).arena().len() - old(self).code_len() {
                message@.len() as int
            } else {
                old(self).arena().len() - old(self).code_len()
            },
            forall|i: int|
                0 <= i < final(self).error_len() ==> final(self).arena()[old(self).code_len() + i]
                    == message@[i],
            forall|i: int|
                0 <= i < old(self).code_len() ==> final(self).arena()[i] == old(self).arena()[i],
            forall|i: int|
                old(self).code_len() + final(self).error_len() <= i < old(self).arena().len()
                    ==> final(self).arena()[i] == old(self).arena()[i],
            final(self).parsed_code() == old(self).parsed_code(),
            final(self).image() == old(self).image(),
            final(self).machine_value() == old(self).machine_value(),
    {
        self.error_location = location;
        let mut writer = StringWriter::new(self.code_length);
        let written = writer.write_bytes(&mut self.arena, message);
        self.error_length = written;
        self.base + self.code_length
    }

    /// Run the parser over the source view.  On acceptance, store the source
    /// as the accepted program and return 0.  On rejection, record the
    /// parser's diagnostic after the source view and return the address of
    /// its message; nothing else changes, so an earlier accepted program
    /// stays in place.
    pub fn parse(&mut self) -> (r: usize)
        requires
            old(self).wf(),
            valid_utf8(old(self).arena().subrange(0, old(self).code_len())),
        ensures
            final(self).wf(),
            final(self).base() == old(self).base(),
            final(self).code_len() == old(self).code_len(),
            final(self).arena().len() == old(self).arena().len(),
            forall|i: int|
                0 <= i < old(self).code_len() ==> final(self).arena()[i] == old(self).arena()[i],
            final(self).image() == old(self).image(),
            final(self).machine_value() == old(self).machine_value(),
            r == 0 || r == old(self).base() + old(self).code_len(),
            (r == 0) == (capability::parse_outcome_of(old(self).code_view()) is Ok),
            r == 0 ==> final(self).arena() == old(self).arena() && final(self).error_loc() == old(self).error_loc() && final(self).error_len() == old(self).error_len() && final(self).parsed_code() == Some(old(self).code_view()),
            r != 0 ==> final(self).parsed_code() == old(self).parsed_code()
                && (capability::parse_outcome_of(old(self).code_view()) matches Err(e)
                && final(self).error_loc() == e.0
                && final(self).error_len() == (if e.1.len() <= old(self).arena().len() - old(self).code_len() {
                    e.1.len() as int
                } else {
                    old(self).arena().len() - old(self).code_len()
                })
                && (forall|i: int|
                    0 <= i < final(self).error_len() ==> final(self).arena()[old(self).code_len() + i] == e.1[i]))
                && (forall|i: int|
                    old(self).code_len() + final(self).error_len() <= i < old(self).arena().len()
                        ==> final(self).arena()[i] == old(self).arena()[i]),
    {
        let code = self.code_bytes();
        let text = match core::str::from_utf8(code.as_slice()) {
            Ok(t) => t,
            Err(_) => unreached(),
        };
        match capability::parse_outcome(text) {
            Ok(()) => {
                self.parsed = Some(code);
                0
            },
            Err((location, message)) => self.record_diagnostic(location, message.as_slice()),
        }
    }

    /// Run the assembler over the accepted program.  On success, store the
    /// produced image, replacing any previous one, and return 0; when no
    /// program has been accepted yet this assembles the empty program, a
    /// zeroed image.  On failure, record the assembler's diagnostic after the
    /// source view and return the address of its message; the previous image
    /// stays in place.
    pub fn assemble(&mut self) -> (r: usize)
        requires
            old(self).wf(),
        ensures
            final(self).wf(),
            final(self).base() == old(self).base(),
            final(self).code_len() == old(self).code_len(),
            final(self).arena().len() == old(self).arena().len(),
            forall|i: int|
                0 <= i < old(self).code_len() ==> final(self).arena()[i] == old(self).arena()[i],
            final(self).parsed_code() == old(self).parsed_code(),
            final(self).machine_value() == old(self).machine_value(),
            r == 0 || r == old(self).base() + old(self).code_len(),
            (r == 0) == (capability::assemble_outcome_of(old(self).stored_code()) is Ok),
            r == 0 ==> final(self).arena() == old(self).arena() && final(self).error_loc() == old(self).error_loc() && final(self).error_len() == old(self).error_len() && final(self).image() == capability::assemble_outcome_of(old(self).stored_code())->Ok_0,
            r != 0 ==> final(self).image() == old(self).image()
                && final(self).error_loc() == capability::assemble_outcome_of(old(self).stored_code())->Err_0.0
                && final(self).error_len() == (if capability::assemble_outcome_of(old(self).stored_code())->Err_0.1.len() <= old(self).arena().len() - old(self).code_len() {
                    capability::assemble_outcome_of(old(self).stored_code())->Err_0.1.len() as int
                } else {
                    old(self).arena().len() - old(self).code_len()
                })
                && (forall|i: int|
                    0 <= i < final(self).error_len() ==> final(self).arena()[old(self).code_len() + i] == capability::assemble_outcome_of(old(self).stored_code())->Err_0.1[i])
                && (forall|i: int|
                    old(self).code_len() + final(self).error_len() <= i < old(self).arena().len()
                        ==> final(self).arena()[i] == old(self).arena()[i]),
    {
        let outcome: Result<lminc::computer::Memory, (usize, Vec<u8>)> = match &self.parsed {
            None => {
                let empty: Vec<u8> = Vec::new();
                let text = match core::str::from_utf8(empty.as_slice()) {
                    Ok(t) => t,
                    Err(_) => unreached(),
                };
                capability::assemble_outcome(text)
            },
            Some(code) => {
                let text = match core::str::from_utf8(code.as_slice()) {
                    Ok(t) => t,
                    Err(_) => unreached(),
                };
                capability::assemble_outcome(text)
            },
        };
        match outcome {
            Ok(image) => {
                self.image = image;
                0
            },
            Err((location, message)) => self.record_diagnostic(location, message.as_slice()),
        }
    }

    /// Construct a fresh machine over a copy of the current image, discarding
    /// any prior machine and its progress.  Always succeeds, and the fresh
    /// machine is running.
    pub fn initialise(&mut self)
        requires
            old(self).wf(),
        ensures
            final(self).wf(),
            final(self).machine_value() == capability::new_machine_of(old(self).image()),
            final(self).machine() == State::Running,
            final(self).register() == 0,
            boundary_unchanged(*old(self), *final(self)),
    {
        self.computer = capability::computer_new(&self.image);
    }

    /// The machine's current state.  A pure query: it never transitions, so
    /// any number of consecutive calls observe the same state.
    pub fn get_state(&self) -> (r: State)
        ensures
            r == self.machine(),
    {
        capability::computer_state_of(&self.computer)
    }

    /// Advance the machine by one instruction and return the state it is in
    /// afterwards.  A machine that is not running - suspended on input or
    /// output, or in a terminal state - is left exactly as it was: suspended
    /// states wait for `input`/`output`, terminal states persist forever.
    pub fn step(&mut self) -> (r: State)
        requires
            old(self).wf(),
        ensures
            final(self).wf(),
            final(self).machine_value() == capability::step_of(old(self).machine_value()),
            r == final(self).machine(),
            old(self).machine() != State::Running ==> *final(self) == *old(self),
            boundary_unchanged(*old(self), *final(self)),
    {
        capability::computer_step(&mut self.computer)
    }

    /// Deliver a word to the machine.  Succeeds exactly when the machine
    /// awaits input, and the machine then runs again; otherwise the session
    /// is left untouched.  The word must be a three-digit value.
    pub fn input(&mut self, value: u16) -> (r: bool)
        requires
            old(self).wf(),
            value <= 999,
        ensures
            final(self).wf(),
            r == (old(self).machine() == State::AwaitingInput),
            r ==> final(self).machine() == State::Running && final(self).register() == value,
            !r ==> *final(self) == *old(self),
            boundary_unchanged(*old(self), *final(self)),
    {
        capability::computer_input(&mut self.computer, value)
    }

    /// Drain the machine's pending output word.  When the machine awaits
    /// output, the word (always at most 999) comes back and the machine runs
    /// again; otherwise the sentinel 1000 - one past the valid range, so it
    /// never collides with a real word - comes back and the session is left
    /// untouched.
    pub fn output(&mut self) -> (r: u32)
        requires
            old(self).wf(),
        ensures
            final(self).wf(),
            old(self).machine() == State::AwaitingOutput ==> r == old(self).register() as u32 && r <= 999 && final(self).machine() == State::Running,
            old(self).machine() != State::AwaitingOutput ==> r == 1000 && *final(self) == *old(self),
            boundary_unchanged(*old(self), *final(self)),
    {
        match capability::computer_output(&mut self.computer) {
            Some(value) => value as u32,
            None => 1000,
        }
    }

    /// Deliver a character word to the machine.  Succeeds exactly when the
    /// machine awaits character input, and the machine then runs again;
    /// otherwise the session is left untouched.
    pub fn input_char(&mut self, value: u16) -> (r: bool)
        requires
            old(self).wf(),
            value <= 999,
        ensures
            final(self).wf(),
            r == (old(self).machine() == State::AwaitingCharInput),
            r ==> final(self).machine() == State::Running && final(self).register() == value,
            !r ==> *final(self) == *old(self),
            boundary_unchanged(*old(self), *final(self)),
    {
        capability::computer_input_char(&mut self.computer, value)
    }

    /// Drain the machine's pending character output word.  When the machine
    /// awaits character output, the word (at most 999) comes back and the
    /// machine runs again; otherwise the sentinel 0 comes back - unlike
    /// `output`, this sentinel falls inside the valid range, so a host cannot
    /// tell it from a real zero word - and the session is left untouched.
    pub fn output_char(&mut self) -> (r: u32)
        requires
            old(self).wf(),
        ensures
            final(self).wf(),
            old(self).machine() == State::AwaitingCharOutput ==> r == old(self).register() as u32 && r <= 999 && final(self).machine() == State::Running,
            old(self).machine() != State::AwaitingCharOutput ==> r == 0 && *final(self) == *old(self),
            boundary_unchanged(*old(self), *final(self)),
    {
        match capability::computer_output_char(&mut self.computer) {
            Some(value) => value as u32,
            None => 0,
        }
    }
}

/// The diagnostic region of a well-formed session always lies inside the
/// arena: the error text starts where the source view ends, stops within the
/// region, and every address in the region fits the address space.
pub proof fn lemma_diagnostic_in_arena(s: Session)
    requires
        s.wf(),
    ensures
        0 <= s.code_len(),
        s.code_len() + s.error_len() <= s.arena().len(),
        1 <= s.base(),
        s.base() + s.arena().len() <= usize::MAX,
{
}

} // verus!
