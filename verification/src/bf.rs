//! The classic single-call surface of the interpreter: a strictly
//! parsed program is run against the process's standard streams, and
//! the whole final state is reported.
//!
//! This surface differs from the engine's own in two ways: its command
//! alphabet spells the two debug instructions `?` (dump) and `!`
//! (breakpoint), and its parse is strict - any character that is not a
//! command fails the run before it starts.  The run itself is the
//! verified engine of the [`interpreter`](crate::interpreter) module;
//! breakpoints are resumed immediately, since this surface has no
//! interactive operator attached.

use vstd::prelude::*;

use crate::interpreter::ExecutionContext;
use crate::interpreter::ExecutionStatus as EngineStatus;
use crate::interpreter::spec_is_terminal;
use crate::ioctx::StdIoCtx;
use crate::machine::{
    MachineState, MachineStatus, io_free, lemma_chain_run_onto_auto, lemma_run_steps_auto_add,
    resume, run_steps_auto, step_auto,
};
use crate::token::Token;

verus! {

/// All valid program commands.
#[derive(Debug, Copy, Clone, PartialEq, Eq, Structural)]
pub enum Command {
    PtrInc,
    PtrDec,
    ValInc,
    ValDec,
    PutChar,
    GetChar,
    LoopBeg,
    LoopEnd,
    DebugDump,
    DebugBreakpoint,
}

/// The character that stands for a command.
pub open spec fn spec_encode_command(command: Command) -> char {
    match command {
        Command::PtrInc => '>',
        Command::PtrDec => '<',
        Command::ValInc => '+',
        Command::ValDec => '-',
        Command::PutChar => '.',
        Command::GetChar => ',',
        Command::LoopBeg => '[',
        Command::LoopEnd => ']',
        Command::DebugDump => '?',
        Command::DebugBreakpoint => '!',
    }
}

/// The command a character stands for, if any.
pub open spec fn spec_decode_command(c: char) -> Option<Command> {
    match c {
        '>' => Some(Command::PtrInc),
        '<' => Some(Command::PtrDec),
        '+' => Some(Command::ValInc),
        '-' => Some(Command::ValDec),
        '.' => Some(Command::PutChar),
        ',' => Some(Command::GetChar),
        '[' => Some(Command::LoopBeg),
        ']' => Some(Command::LoopEnd),
        '?' => Some(Command::DebugDump),
        '!' => Some(Command::DebugBreakpoint),
        _ => None,
    }
}

/// The engine instruction that a command maps to.
pub open spec fn spec_command_token(command: Command) -> Token {
    match command {
        Command::PtrInc => Token::PtrInc,
        Command::PtrDec => Token::PtrDec,
        Command::ValInc => Token::ValInc,
        Command::ValDec => Token::ValDec,
        Command::PutChar => Token::PutChar,
        Command::GetChar => Token::GetChar,
        Command::LoopBeg => Token::LoopBeg,
        Command::LoopEnd => Token::LoopEnd,
        Command::DebugDump => Token::DebugDump,
        Command::DebugBreakpoint => Token::DebugBreakpoint,
    }
}

/// Transform a `Command` into its corresponding character.
pub fn encode_command(command: Command) -> (c: char)
    ensures
        c == spec_encode_command(command),
{
    match command {
        Command::PtrInc => '>',
        Command::PtrDec => '<',
        Command::ValInc => '+',
        Command::ValDec => '-',
        Command::PutChar => '.',
        Command::GetChar => ',',
        Command::LoopBeg => '[',
        Command::LoopEnd => ']',
        Command::DebugDump => '?',
        Command::DebugBreakpoint => '!',
    }
}

/// Relies on char::to_string: the one-character string of a character.
#[verifier::external_body]
fn char_to_string(c: char) -> (s: String)
    ensures
        s@ == seq![c],
{
    c.to_string()
}

/// The message reported for a character that is not a command.
pub open spec fn msg_unsupported(c: char) -> Seq<char> {
    "unsupported character: "@.push(c)
}

/// Transform a character into a `Command`, or report it as unsupported.
pub fn decode_command(c: char) -> (r: Result<Command, String>)
    ensures
        match spec_decode_command(c) {
            Some(command) => r == Ok::<Command, String>(command),
            None => (r matches Err(m) && m@ == msg_unsupported(c)),
        },
{
    match c {
        '>' => Ok(Command::PtrInc),
        '<' => Ok(Command::PtrDec),
        '+' => Ok(Command::ValInc),
        '-' => Ok(Command::ValDec),
        '.' => Ok(Command::PutChar),
        ',' => Ok(Command::GetChar),
        '[' => Ok(Command::LoopBeg),
        ']' => Ok(Command::LoopEnd),
        '?' => Ok(Command::DebugDump),
        '!' => Ok(Command::DebugBreakpoint),
        other => {
            let mut s = "unsupported character: ".to_owned();
            let tail = char_to_string(other);
            s.append(tail.as_str());
            proof {
                assert(s@ =~= msg_unsupported(other));
            }
            Err(s)
        },
    }
}

/// Law: decoding the character that encodes a command gives that
/// command back.
pub proof fn lemma_decode_encode_command(command: Command)
    ensures
        spec_decode_command(spec_encode_command(command)) == Some(command),
{
}

/// Law: encoding the command that a character decodes to gives that
/// character back.
pub proof fn lemma_encode_decode_command(c: char)
    ensures
        spec_decode_command(c) matches Some(command) ==> spec_encode_command(command) == c,
{
}

/// The status of one classic run.
#[derive(Debug, Clone, PartialEq)]
pub enum ExecutionStatus<T> {
    NotStarted,
    InProgress,
    Terminated,
    Error(T),
}

/// The whole state of a classic run, as reported to the caller.
#[derive(Debug, PartialEq)]
pub struct State {
    /// The tape of byte cells.
    pub data: Vec<u8>,
    /// The index of the current cell.
    pub data_ptr: usize,
    /// The index the program pointer ended at.
    pub program_ptr: usize,
    /// The loop-return stack the run ended with.
    pub loop_stack: Vec<usize>,
    /// The status the run ended with.
    pub status: ExecutionStatus<String>,
}

/// Whether every character of a piece of text spells a command.
pub open spec fn all_commands(s: Seq<char>) -> bool {
    forall|i: int| 0 <= i < s.len() ==> (#[trigger] spec_decode_command(s[i])) is Some
}

/// The commands spelled by a piece of text whose characters are all
/// commands.
pub open spec fn decoded_commands(s: Seq<char>) -> Seq<Command> {
    Seq::new(s.len(), |i: int| spec_decode_command(s[i]).unwrap())
}

/// Strictly parse source text: every character must spell a command,
/// and the first that does not fails the parse with its message.
fn parse_program(program: &str) -> (r: Result<Vec<Command>, String>)
    ensures
        match r {
            Ok(v) => all_commands(program@) && v@ == decoded_commands(program@),
            Err(m) => exists|i: int|
                0 <= i < program@.len() && (#[trigger] spec_decode_command(program@[i])) is None
                    && (forall|j: int|
                    0 <= j < i ==> (#[trigger] spec_decode_command(program@[j])) is Some) && m@
                    == msg_unsupported(program@[i]),
        },
{
    let n = program.unicode_len();
    let mut v: Vec<Command> = Vec::new();
    let mut i: usize = 0;
    while i < n
        invariant
            n == program@.len(),
            i <= n,
            v@.len() == i as nat,
            forall|j: int| 0 <= j < i ==> (#[trigger] spec_decode_command(program@[j])) is Some,
            forall|j: int|
                0 <= j < i ==> (#[trigger] v@[j]) == spec_decode_command(program@[j]).unwrap(),
        decreases n - i,
    {
        let c = program.get_char(i);
        match decode_command(c) {
            Ok(command) => v.push(command),
            Err(m) => {
                return Err(m);
            },
        }
        i = i + 1;
    }
    proof {
        assert(v@ =~= decoded_commands(program@));
    }
    Ok(v)
}

/// The engine instructions for a command sequence.
fn commands_to_tokens(commands: &Vec<Command>) -> (v: Vec<Token>)
    ensures
        v@ == commands@.map_values(|command: Command| spec_command_token(command)),
{
    let mut v: Vec<Token> = Vec::new();
    let mut i: usize = 0;
    while i < commands.len()
        invariant
            i <= commands@.len(),
            v@ == commands@.take(i as int).map_values(
                |command: Command| spec_command_token(command),
            ),
        decreases commands@.len() - i,
    {
        let t = match commands[i] {
            Command::PtrInc => Token::PtrInc,
            Command::PtrDec => Token::PtrDec,
            Command::ValInc => Token::ValInc,
            Command::ValDec => Token::ValDec,
            Command::PutChar => Token::PutChar,
            Command::GetChar => Token::GetChar,
            Command::LoopBeg => Token::LoopBeg,
            Command::LoopEnd => Token::LoopEnd,
            Command::DebugDump => Token::DebugDump,
            Command::DebugBreakpoint => Token::DebugBreakpoint,
        };
        v.push(t);
        proof {
            assert(commands@.take(i + 1 as int).map_values(
                |command: Command| spec_command_token(command),
            ) =~= commands@.take(i as int).map_values(
                |command: Command| spec_command_token(command),
            ).push(spec_command_token(commands@[i as int])));
        }
        i = i + 1;
    }
    proof {
        assert(commands@.take(commands@.len() as int) =~= commands@);
    }
    v
}

/// The classic status for an engine status: both error kinds of the
/// engine collapse into the single `Error` kind of this surface.
fn status_of_engine(st: EngineStatus<String>) -> (r: ExecutionStatus<String>)
    ensures
        r == (match st {
            EngineStatus::NotStarted => ExecutionStatus::<String>::NotStarted,
            EngineStatus::InProgress => ExecutionStatus::<String>::InProgress,
            EngineStatus::Terminated => ExecutionStatus::<String>::Terminated,
            EngineStatus::ProgramError(m) => ExecutionStatus::<String>::Error(m),
            EngineStatus::InternalError(m) => ExecutionStatus::<String>::Error(m),
        }),
{
    match st {
        EngineStatus::NotStarted => ExecutionStatus::NotStarted,
        EngineStatus::InProgress => ExecutionStatus::InProgress,
        EngineStatus::Terminated => ExecutionStatus::Terminated,
        EngineStatus::ProgramError(m) => ExecutionStatus::Error(m),
        EngineStatus::InternalError(m) => ExecutionStatus::Error(m),
    }
}

/// The engine instructions that a source text spells, for a text whose
/// characters are all commands.
pub open spec fn spec_program_tokens(s: Seq<char>) -> Seq<Token> {
    decoded_commands(s).map_values(|command: Command| spec_command_token(command))
}

/// What a classic run's final state says of the machine state `m` that
/// the operator-free run reaches in `n` steps: the tape, the pointers
/// and the loop-return stack are the machine's, a clean end is
/// `Terminated`, either machine error surfaces as `Error` with the
/// machine's exact message, and `InProgress` only stands after a full
/// machine word of steps.
pub open spec fn state_matches(r: State, m: MachineState, n: nat) -> bool {
    &&& r.data@ == m.tape
    &&& r.data_ptr as nat == m.data_ptr
    &&& r.program_ptr as nat == m.program_ptr
    &&& r.loop_stack@.map_values(|u: usize| u as nat) == m.loop_stack
    &&& (match r.status {
        ExecutionStatus::Terminated => m.status is Terminated,
        ExecutionStatus::Error(e) => ((m.status matches MachineStatus::ProgramError(msg) && e@
            == msg) || (m.status matches MachineStatus::InternalError(msg) && e@ == msg)),
        ExecutionStatus::InProgress => !m.status.is_terminal() && n >= usize::MAX,
        ExecutionStatus::NotStarted => false,
    })
}

/// Run a strictly parsed program against the process's standard
/// streams and report the whole final state.
///
/// On a parse failure the state is the fresh one with the parse error
/// as its status.  Otherwise the verified engine runs the program.  For
/// a program without input or output commands the run never consults
/// the standard streams, and the final state is exactly the machine's:
/// bracket errors carry the machine's messages naming the offending
/// positions, and a clean end reports the machine's tape, pointers and
/// empty loop-return stack.  For a program that does touch the streams,
/// nothing can be promised about the bytes they carry; the reported
/// tape still holds at least one cell with the data pointer on an
/// existing cell, and the run has always left `NotStarted`.
pub fn run_interpreter(program: &str) -> (r: State)
    ensures
        r.data@.len() >= 1,
        (r.data_ptr as nat) < r.data@.len(),
        !(r.status is NotStarted),
        !all_commands(program@) ==> (r.data@ == seq![0u8] && r.data_ptr == 0 && r.program_ptr == 0
            && r.loop_stack@ == Seq::<usize>::empty() && (r.status matches ExecutionStatus::Error(
            m,
        ) && (exists|i: int|
            0 <= i < program@.len() && (#[trigger] spec_decode_command(program@[i])) is None && m@
                == msg_unsupported(program@[i])))),
        (all_commands(program@) && io_free(spec_program_tokens(program@))) ==> (exists|n: nat|
            state_matches(
                r,
                #[trigger] run_steps_auto(
                    spec_program_tokens(program@),
                    MachineState::init(Seq::empty()),
                    n,
                ),
                n,
            )),
{
    match parse_program(program) {
        Err(m) => State {
            data: vec![0u8],
            data_ptr: 0,
            program_ptr: 0,
            loop_stack: Vec::new(),
            status: ExecutionStatus::Error(m),
        },
        Ok(commands) => {
            let tokens = commands_to_tokens(&commands);
            let ghost prog = tokens@;
            let ghost init = MachineState::init(Seq::<u8>::empty());
            let mut ectx = ExecutionContext::with_program(StdIoCtx::default(), tokens);
            proof {
                assert(ectx.abs() =~= init);
            }
            // how many operator-free machine steps the run has taken so
            // far, tracked while the program is free of I/O commands
            let ghost mut taken: nat = 0;
            let mut st = ectx.execute();
            proof {
                if io_free(prog) {
                    taken = lemma_chain_run_onto_auto(prog, init, 0, ectx.abs());
                }
            }
            let mut resumes: usize = 0;
            while ectx.is_suspended() && resumes < usize::MAX
                invariant
                    ectx.wf(),
                    ectx.program@ == prog,
                    st == ectx.status,
                    !(ectx.status is NotStarted),
                    ectx.suspended ==> ((ectx.status is InProgress) && ectx.program_ptr
                        == ectx.saved_program_ptr),
                    io_free(prog) ==> (run_steps_auto(prog, init, taken) == ectx.abs() && taken
                        >= resumes),
                    (io_free(prog) && !ectx.suspended) ==> (spec_is_terminal(ectx.status) || taken
                        >= usize::MAX),
                decreases usize::MAX - resumes,
            {
                let ghost before = ectx.abs();
                // this surface has no interactive operator: a breakpoint
                // is resumed immediately
                ectx.feed_line("continue");
                proof {
                    if io_free(prog) {
                        assert(ectx.abs() == resume(before));
                        assert(step_auto(prog, before) == resume(before));
                        lemma_run_steps_auto_add(prog, init, taken, 1);
                        taken = taken + 1;
                    }
                }
                st = ectx.execute();
                proof {
                    if io_free(prog) {
                        taken = lemma_chain_run_onto_auto(prog, init, taken, ectx.abs());
                    }
                }
                resumes = resumes + 1;
            }
            let ghost m = run_steps_auto(prog, init, taken);
            let status = status_of_engine(st);
            let ExecutionContext { data, data_ptr, program_ptr, loop_stack, .. } = ectx;
            let result = State { data, data_ptr, program_ptr, loop_stack, status };
            proof {
                assert(prog == spec_program_tokens(program@));
                if io_free(prog) {
                    assert(state_matches(result, m, taken));
                }
            }
            result
        },
    }
}

} // verus!
