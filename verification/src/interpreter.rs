//! The execution engine: the mutable state of one run and the dispatch
//! loop that drives it.
//!
//! An `ExecutionContext` owns the tape, the data pointer, the tokenized
//! program, the program pointer, the loop-return stack and the status,
//! together with the I/O context the run reads from and writes to.  Its
//! behaviour is specified against the small-step machine of the
//! [`machine`](crate::machine) module: every operation is proved to
//! realize the corresponding machine transition, and the dispatch loop
//! is proved to follow `run_steps`.
//!
//! A breakpoint instruction suspends the run instead of blocking on a
//! terminal: the context records the suspension, `execute` returns, and
//! the caller drives the interactive session by handing lines or session
//! events back in (`feed_line`, `session_event`) until the session
//! continues or quits the run.

use vstd::prelude::*;

use crate::ioctx::{IoCtx, IoError};
use crate::machine::{
    MachineState, MachineStatus, bump, dispatch, dispatch_seq, find_match, io_free,
    lemma_find_match_bounds, msg_unmatched_at_end, msg_unmatched_open, quit_status, resume,
    run_steps, step,
};
use crate::render::{
    byte_list_to_string, spec_decimal, spec_num_list, usize_list_to_string, usize_to_string,
};
use crate::repl::ReplResult;
use crate::token::{Token, spec_parse};

verus! {

/// The status of one run.
///
/// `NotStarted` and `InProgress` are the non-terminal states; the other
/// three are terminal and absorbing.  `ProgramError` means the source
/// program is malformed; `InternalError` means the I/O context or the
/// interactive command source failed.
#[derive(Debug, Clone, PartialEq)]
pub enum ExecutionStatus<T> {
    NotStarted,
    InProgress,
    Terminated,
    ProgramError(T),
    InternalError(T),
}

/// The machine-level view of a status.
pub open spec fn abs_status(st: ExecutionStatus<String>) -> MachineStatus {
    match st {
        ExecutionStatus::NotStarted => MachineStatus::NotStarted,
        ExecutionStatus::InProgress => MachineStatus::InProgress,
        ExecutionStatus::Terminated => MachineStatus::Terminated,
        ExecutionStatus::ProgramError(m) => MachineStatus::ProgramError(m@),
        ExecutionStatus::InternalError(m) => MachineStatus::InternalError(m@),
    }
}

/// Whether a status is terminal.
pub open spec fn spec_is_terminal(st: ExecutionStatus<String>) -> bool {
    abs_status(st).is_terminal()
}

/// Copy a status.  (The derived `Clone` is opaque to the verifier, so
/// the copy is spelled out.)
fn clone_status(st: &ExecutionStatus<String>) -> (r: ExecutionStatus<String>)
    ensures
        r == *st,
{
    match st {
        ExecutionStatus::NotStarted => ExecutionStatus::NotStarted,
        ExecutionStatus::InProgress => ExecutionStatus::InProgress,
        ExecutionStatus::Terminated => ExecutionStatus::Terminated,
        ExecutionStatus::ProgramError(m) => ExecutionStatus::ProgramError(m.clone()),
        ExecutionStatus::InternalError(m) => ExecutionStatus::InternalError(m.clone()),
    }
}

/// The rendering of the execution state that a dump instruction emits.
/// A dump is only emitted while the run is in progress.
pub open spec fn spec_dump(
    tape: Seq<u8>,
    data_ptr: nat,
    program_ptr: nat,
    loop_stack: Seq<nat>,
) -> Seq<char> {
    "data: "@ + spec_num_list(tape.map_values(|b: u8| b as nat)) + "\ndata_ptr: "@ + spec_decimal(
        data_ptr,
    ) + "\nprogram_ptr: "@ + spec_decimal(program_ptr) + "\nloop_stack: "@ + spec_num_list(
        loop_stack,
    ) + "\nstatus: InProgress"@
}

/// The mutable state of one run.
pub struct ExecutionContext<C: IoCtx> {
    /// The status of the run.
    pub status: ExecutionStatus<String>,
    /// The I/O context the run reads input from and writes output to.
    pub ctx: C,
    /// The tape of byte cells.  It always holds at least one cell.
    pub data: Vec<u8>,
    /// The index of the current cell.
    pub data_ptr: usize,
    /// The tokenized program, immutable for the run.
    pub program: Vec<Token>,
    /// The index of the next instruction to dispatch.
    pub program_ptr: usize,
    /// The loop-return stack: positions of `[` instructions whose guard
    /// cell was nonzero at entry, innermost last.
    pub loop_stack: Vec<usize>,
    /// Whether the run sits at a breakpoint, waiting for an interactive
    /// session to end.
    pub suspended: bool,
    /// The position of the breakpoint the run is suspended at; the run
    /// resumes at the instruction after it.
    pub saved_program_ptr: usize,
    /// Diagnostic dumps emitted by dump instructions, oldest first.
    pub dump_log: Vec<String>,
}

impl<C: IoCtx> ExecutionContext<C> {
    /// The machine-level view of this state.
    pub open spec fn abs(self) -> MachineState {
        MachineState {
            tape: self.data@,
            data_ptr: self.data_ptr as nat,
            program_ptr: self.program_ptr as nat,
            loop_stack: self.loop_stack@.map_values(|u: usize| u as nat),
            input: self.ctx.input_model(),
            output: self.ctx.output_model(),
            status: abs_status(self.status),
            suspended: self.suspended,
        }
    }

    /// Structural soundness of the state: the tape is never empty, the
    /// data pointer indexes an existing cell, the program pointer and
    /// every recorded loop position stay within the program, and a
    /// suspended run sits at a real breakpoint of a started run.
    pub open spec fn wf(self) -> bool {
        &&& self.data@.len() >= 1
        &&& (self.data_ptr as nat) < self.data@.len()
        &&& self.program_ptr <= self.program@.len()
        &&& (forall|i: int|
            0 <= i < self.loop_stack@.len() ==> (#[trigger] self.loop_stack@[i])
                <= self.program@.len())
        &&& (self.suspended ==> self.saved_program_ptr < self.program@.len())
        &&& (self.suspended ==> !(self.status is NotStarted))
    }

    /// A fresh run of the given source text: the text is tokenized
    /// leniently, the tape starts as a single zero cell, and nothing has
    /// executed yet.
    pub fn new(ictx: C, program: &str) -> (r: Self)
        ensures
            r.wf(),
            r.status == ExecutionStatus::<String>::NotStarted,
            r.ctx == ictx,
            r.data@ == seq![0u8],
            r.data_ptr == 0,
            r.program@ == spec_parse(program@),
            r.program_ptr == 0,
            r.loop_stack@ == Seq::<usize>::empty(),
            !r.suspended,
            r.dump_log@ == Seq::<String>::empty(),
    {
        Self::with_program(ictx, Token::parse_str(program))
    }

    /// A fresh run of an already tokenized program.
    pub fn with_program(ictx: C, program: Vec<Token>) -> (r: Self)
        ensures
            r.wf(),
            r.status == ExecutionStatus::<String>::NotStarted,
            r.ctx == ictx,
            r.data@ == seq![0u8],
            r.data_ptr == 0,
            r.program == program,
            r.program_ptr == 0,
            r.loop_stack@ == Seq::<usize>::empty(),
            !r.suspended,
            r.dump_log@ == Seq::<String>::empty(),
    {
        ExecutionContext {
            status: ExecutionStatus::NotStarted,
            ctx: ictx,
            data: vec![0u8],
            data_ptr: 0,
            program,
            program_ptr: 0,
            loop_stack: Vec::new(),
            suspended: false,
            saved_program_ptr: 0,
            dump_log: Vec::new(),
        }
    }

    /// Advance the program pointer past the dispatched instruction,
    /// staying within the program.
    fn advance(&mut self)
        requires
            old(self).program_ptr <= old(self).program@.len(),
        ensures
            final(self).program_ptr == bump(old(self).program_ptr as nat, old(self).program@.len()),
            *final(self) == (ExecutionContext { program_ptr: final(self).program_ptr, ..*old(self) }),
    {
        if self.program_ptr < self.program.len() {
            self.program_ptr = self.program_ptr + 1;
        }
    }

    /// Advance the data pointer by one cell, extending the tape with a
    /// zero cell if that cell does not yet exist.
    fn pointer_increment(&mut self)
        requires
            old(self).wf(),
        ensures
            final(self).wf(),
            final(self).abs() == dispatch(old(self).program@, old(self).abs(), Token::PtrInc),
            final(self).program == old(self).program,
            final(self).ctx == old(self).ctx,
            final(self).status == old(self).status,
            final(self).saved_program_ptr == old(self).saved_program_ptr,
            final(self).dump_log == old(self).dump_log,
    {
        let len = self.data.len();
        self.data_ptr = self.data_ptr + 1;
        if self.data_ptr == len {
            self.data.push(0);
        }
        self.advance();
        proof {
            assert(self.abs() =~= dispatch(old(self).program@, old(self).abs(), Token::PtrInc));
        }
    }

    /// Move the data pointer one cell left.  At the first cell, a new
    /// zero cell is inserted at the front instead and the pointer stays
    /// at index 0: the tape's logical origin shifts left, making the
    /// tape unbounded in both directions without negative indices.
    fn pointer_decrement(&mut self)
        requires
            old(self).wf(),
        ensures
            final(self).wf(),
            final(self).abs() == dispatch(old(self).program@, old(self).abs(), Token::PtrDec),
            final(self).program == old(self).program,
            final(self).ctx == old(self).ctx,
            final(self).status == old(self).status,
            final(self).saved_program_ptr == old(self).saved_program_ptr,
            final(self).dump_log == old(self).dump_log,
    {
        if self.data_ptr == 0 {
            self.data.insert(0, 0);
        } else {
            self.data_ptr = self.data_ptr - 1;
        }
        self.advance();
        proof {
            assert(self.abs() =~= dispatch(old(self).program@, old(self).abs(), Token::PtrDec));
        }
    }

    /// Add one to the current cell with 8-bit wraparound.
    fn value_increment(&mut self)
        requires
            old(self).wf(),
        ensures
            final(self).wf(),
            final(self).abs() == dispatch(old(self).program@, old(self).abs(), Token::ValInc),
            final(self).program == old(self).program,
            final(self).ctx == old(self).ctx,
            final(self).status == old(self).status,
            final(self).saved_program_ptr == old(self).saved_program_ptr,
            final(self).dump_log == old(self).dump_log,
    {
        let i = self.data_ptr;
        let v = self.data[i];
        self.data[i] = if v == 255 {
            0
        } else {
            v + 1
        };
        self.advance();
        proof {
            assert(self.abs() =~= dispatch(old(self).program@, old(self).abs(), Token::ValInc));
        }
    }

    /// Subtract one from the current cell with 8-bit wraparound.
    fn value_decrement(&mut self)
        requires
            old(self).wf(),
        ensures
            final(self).wf(),
            final(self).abs() == dispatch(old(self).program@, old(self).abs(), Token::ValDec),
            final(self).program == old(self).program,
            final(self).ctx == old(self).ctx,
            final(self).status == old(self).status,
            final(self).saved_program_ptr == old(self).saved_program_ptr,
            final(self).dump_log == old(self).dump_log,
    {
        let i = self.data_ptr;
        let v = self.data[i];
        self.data[i] = if v == 0 {
            255
        } else {
            v - 1
        };
        self.advance();
        proof {
            assert(self.abs() =~= dispatch(old(self).program@, old(self).abs(), Token::ValDec));
        }
    }

    /// React to the outcome of writing the current cell: on success,
    /// dispatch moves past the instruction; on failure, the run ends
    /// with an internal error carrying the failure's description.
    fn apply_write_outcome(&mut self, r: Result<usize, IoError>)
        requires
            old(self).wf(),
        ensures
            final(self).wf(),
            r matches Ok(_) ==> (*final(self) == (ExecutionContext {
                program_ptr: final(self).program_ptr,
                ..*old(self)
            }) && final(self).program_ptr == bump(
                old(self).program_ptr as nat,
                old(self).program@.len(),
            )),
            r matches Err(e) ==> *final(self) == (ExecutionContext {
                status: ExecutionStatus::InternalError(e.message),
                ..*old(self)
            }),
    {
        match r {
            Ok(_) => self.advance(),
            Err(e) => {
                self.status = ExecutionStatus::InternalError(e.message);
            },
        }
    }

    /// Write the current cell's byte to the output stream.  A write
    /// failure is an internal error and ends the run, with the tape and
    /// the program pointer untouched.
    fn put_character(&mut self)
        requires
            old(self).wf(),
            old(self).status is InProgress,
        ensures
            final(self).wf(),
            C::is_modeled() ==> final(self).abs() == dispatch(
                old(self).program@,
                old(self).abs(),
                Token::PutChar,
            ),
            final(self).program == old(self).program,
            final(self).data == old(self).data,
            final(self).data_ptr == old(self).data_ptr,
            final(self).loop_stack == old(self).loop_stack,
            final(self).suspended == old(self).suspended,
            final(self).saved_program_ptr == old(self).saved_program_ptr,
            final(self).dump_log == old(self).dump_log,
            (final(self).status is InProgress) ==> (final(self).status == old(self).status
                && final(self).program_ptr == bump(
                old(self).program_ptr as nat,
                old(self).program@.len(),
            )),
            !(final(self).status is InProgress) ==> ((final(self).status matches
                ExecutionStatus::InternalError(_))
                && final(self).program_ptr == old(self).program_ptr),
    {
        let byte: Vec<u8> = vec![self.data[self.data_ptr]];
        let r = self.ctx.write_output(byte.as_slice());
        self.apply_write_outcome(r);
        proof {
            if C::is_modeled() {
                assert(old(self).ctx.output_model().push(
                    old(self).data@[old(self).data_ptr as int],
                ) =~= old(self).ctx.output_model() + byte@);
                assert(self.abs() =~= dispatch(
                    old(self).program@,
                    old(self).abs(),
                    Token::PutChar,
                ));
            }
        }
    }

    /// React to the outcome of reading one byte: a byte fills the
    /// current cell, no byte (the stream is exhausted) leaves it
    /// unchanged, and in both cases dispatch moves on; a failure ends
    /// the run with an internal error carrying its description.
    fn apply_read_outcome(&mut self, r: Result<Vec<u8>, IoError>)
        requires
            old(self).wf(),
            r matches Ok(v) ==> v@.len() <= 1,
        ensures
            final(self).wf(),
            r matches Ok(v) ==> ({
                &&& v@.len() == 1 ==> final(self).data@ == old(self).data@.update(
                    old(self).data_ptr as int,
                    v@[0],
                )
                &&& v@.len() == 0 ==> final(self).data == old(self).data
                &&& *final(self) == (ExecutionContext {
                    data: final(self).data,
                    program_ptr: final(self).program_ptr,
                    ..*old(self)
                })
                &&& final(self).program_ptr == bump(
                    old(self).program_ptr as nat,
                    old(self).program@.len(),
                )
            }),
            r matches Err(e) ==> *final(self) == (ExecutionContext {
                status: ExecutionStatus::InternalError(e.message),
                ..*old(self)
            }),
    {
        match r {
            Ok(v) => {
                if v.len() == 1 {
                    let i = self.data_ptr;
                    self.data[i] = v[0];
                }
                self.advance();
            },
            Err(e) => {
                self.status = ExecutionStatus::InternalError(e.message);
            },
        }
    }

    /// Read one byte from the input stream into the current cell.
    /// Reading zero bytes (the stream is exhausted) is not an error: the
    /// cell is left unchanged and execution continues.  A read failure
    /// is an internal error and ends the run, with the tape and the
    /// program pointer untouched.
    fn get_character(&mut self)
        requires
            old(self).wf(),
            old(self).status is InProgress,
        ensures
            final(self).wf(),
            C::is_modeled() ==> final(self).abs() == dispatch(
                old(self).program@,
                old(self).abs(),
                Token::GetChar,
            ),
            final(self).program == old(self).program,
            final(self).data_ptr == old(self).data_ptr,
            final(self).loop_stack == old(self).loop_stack,
            final(self).suspended == old(self).suspended,
            final(self).saved_program_ptr == old(self).saved_program_ptr,
            final(self).dump_log == old(self).dump_log,
            (final(self).status is InProgress) ==> (final(self).status == old(self).status
                && final(self).program_ptr == bump(
                old(self).program_ptr as nat,
                old(self).program@.len(),
            ) && (final(self).data == old(self).data || exists|b: u8|
                final(self).data@ == old(self).data@.update(old(self).data_ptr as int, b))),
            !(final(self).status is InProgress) ==> ((final(self).status matches
                ExecutionStatus::InternalError(_)) && final(self).data == old(self).data
                && final(self).program_ptr == old(self).program_ptr),
    {
        let r = self.ctx.read_input(1);
        self.apply_read_outcome(r);
        proof {
            if C::is_modeled() {
                assert(self.abs() =~= dispatch(
                    old(self).program@,
                    old(self).abs(),
                    Token::GetChar,
                ));
            }
        }
    }

    /// The position of the `]` matching the innermost `[` open at
    /// `ptr`, scanning forward with a depth counter.
    fn find_loop_end(ptr: usize, program: &Vec<Token>) -> (r: Result<usize, ()>)
        ensures
            match find_match(program@, ptr as nat, 0) {
                Some(j) => r == Ok::<usize, ()>(j as usize),
                None => r == Err::<usize, ()>(()),
            },
            r matches Ok(j) ==> ptr <= j < program@.len(),
    {
        proof {
            lemma_find_match_bounds(program@, ptr as nat, 0);
        }
        let mut i = ptr;
        let mut depth: usize = 0;
        while i < program.len()
            invariant_except_break
                ptr <= i,
                depth <= i - ptr,
                i <= program@.len() || i == ptr,
                find_match(program@, ptr as nat, 0) == find_match(program@, i as nat, depth as nat),
            ensures
                match find_match(program@, ptr as nat, 0) {
                    Some(j) => i < program@.len() && j == i as nat,
                    None => i >= program@.len(),
                },
            decreases program@.len() - i,
        {
            let t = program[i];
            match t {
                Token::LoopEnd => {
                    if depth == 0 {
                        break;
                    } else {
                        depth = depth - 1;
                    }
                },
                Token::LoopBeg => {
                    depth = depth + 1;
                },
                _ => {},
            }
            i = i + 1;
        }
        if i < program.len() {
            Ok(i)
        } else {
            Err(())
        }
    }

    /// Enter a loop: when the guard cell is zero, skip to just after the
    /// matching `]`, and report a program error naming this position if
    /// there is none; when it is nonzero, record this position on the
    /// loop-return stack and fall into the loop body.
    fn loop_enter(&mut self)
        requires
            old(self).wf(),
        ensures
            final(self).wf(),
            final(self).abs() == dispatch(old(self).program@, old(self).abs(), Token::LoopBeg),
            final(self).program == old(self).program,
            final(self).ctx == old(self).ctx,
            final(self).saved_program_ptr == old(self).saved_program_ptr,
            final(self).dump_log == old(self).dump_log,
    {
        proof {
            lemma_find_match_bounds(self.program@, (self.program_ptr + 1) as nat, 0);
        }
        if self.data[self.data_ptr] == 0 {
            if self.program_ptr >= self.program.len() {
                // no instruction follows, so no `]` can close this loop
                self.status = ExecutionStatus::ProgramError(self.unmatched_open_message());
            } else {
                match Self::find_loop_end(self.program_ptr + 1, &self.program) {
                    Ok(j) => {
                        self.program_ptr = j + 1;
                    },
                    Err(()) => {
                        self.status = ExecutionStatus::ProgramError(self.unmatched_open_message());
                    },
                }
            }
        } else {
            let p = self.program_ptr;
            self.loop_stack.push(p);
            self.advance();
            proof {
                assert(self.loop_stack@.map_values(|u: usize| u as nat) =~= old(
                    self,
                ).loop_stack@.map_values(|u: usize| u as nat).push(p as nat));
            }
        }
        proof {
            assert(self.abs() =~= dispatch(old(self).program@, old(self).abs(), Token::LoopBeg));
        }
    }

    /// The message for a `[` at the current position with no matching
    /// `]` ahead of it.
    fn unmatched_open_message(&self) -> (s: String)
        ensures
            s@ == msg_unmatched_open(self.program_ptr as nat),
    {
        let mut s = "'[' at program position ".to_owned();
        let num = usize_to_string(self.program_ptr);
        s.append(num.as_str());
        s.append(" missing corresponding ']'");
        s
    }

    /// Leave or repeat a loop: pop the innermost recorded `[`; with no
    /// loop open, report a program error naming this position.  When the
    /// guard cell is now zero, fall through past the `]`; when it is
    /// nonzero, jump back to the recorded `[` so its guard is
    /// re-evaluated (which will push it again).
    fn loop_exit(&mut self)
        requires
            old(self).wf(),
        ensures
            final(self).wf(),
            final(self).abs() == dispatch(old(self).program@, old(self).abs(), Token::LoopEnd),
            final(self).program == old(self).program,
            final(self).ctx == old(self).ctx,
            final(self).saved_program_ptr == old(self).saved_program_ptr,
            final(self).dump_log == old(self).dump_log,
    {
        match self.loop_stack.pop() {
            Some(back) => {
                proof {
                    assert(self.loop_stack@.map_values(|u: usize| u as nat) =~= old(
                        self,
                    ).loop_stack@.map_values(|u: usize| u as nat).drop_last());
                    assert(old(self).loop_stack@.map_values(|u: usize| u as nat).last() == back
                        as nat);
                }
                if self.data[self.data_ptr] == 0 {
                    self.advance();
                } else {
                    self.program_ptr = back;
                }
            },
            None => {
                let mut s = "']' at program position ".to_owned();
                let num = usize_to_string(self.program_ptr);
                s.append(num.as_str());
                s.append(" missing corresponding '['");
                self.status = ExecutionStatus::ProgramError(s);
            },
        }
        proof {
            assert(self.abs() =~= dispatch(old(self).program@, old(self).abs(), Token::LoopEnd));
        }
    }

    /// Emit the full execution state to the diagnostic log.  The dump
    /// does not affect control flow or the machine state.
    fn dump_state(&mut self)
        requires
            old(self).wf(),
        ensures
            final(self).wf(),
            final(self).abs() == dispatch(old(self).program@, old(self).abs(), Token::DebugDump),
            final(self).program == old(self).program,
            final(self).ctx == old(self).ctx,
            final(self).status == old(self).status,
            final(self).saved_program_ptr == old(self).saved_program_ptr,
            final(self).dump_log@ == old(self).dump_log@.push(
                final(self).dump_log@.last(),
            ),
            final(self).dump_log@.last()@ == spec_dump(
                old(self).data@,
                old(self).data_ptr as nat,
                old(self).program_ptr as nat,
                old(self).loop_stack@.map_values(|u: usize| u as nat),
            ),
    {
        let mut s = "data: ".to_owned();
        let tape = byte_list_to_string(&self.data);
        s.append(tape.as_str());
        s.append("\ndata_ptr: ");
        let dp = usize_to_string(self.data_ptr);
        s.append(dp.as_str());
        s.append("\nprogram_ptr: ");
        let pp = usize_to_string(self.program_ptr);
        s.append(pp.as_str());
        s.append("\nloop_stack: ");
        let stack = usize_list_to_string(&self.loop_stack);
        s.append(stack.as_str());
        s.append("\nstatus: InProgress");
        self.dump_log.push(s);
        self.advance();
        proof {
            assert(self.abs() =~= dispatch(old(self).program@, old(self).abs(), Token::DebugDump));
        }
    }

    /// Dispatch one instruction against the live state.  This is the
    /// single dispatch used both by the run loop and by interactive
    /// sessions.
    fn run_command(&mut self, command: Token)
        requires
            old(self).wf(),
            old(self).status is InProgress,
            old(self).suspended || old(self).program_ptr < old(self).program@.len(),
        ensures
            final(self).wf(),
            final(self).program == old(self).program,
            !(final(self).status is NotStarted),
            C::is_modeled() ==> final(self).abs() == dispatch(
                old(self).program@,
                old(self).abs(),
                command,
            ),
            !(command is PutChar || command is GetChar) ==> final(self).abs() == dispatch(
                old(self).program@,
                old(self).abs(),
                command,
            ),
            final(self).suspended == (command is DebugBreakpoint && !old(self).suspended
                || old(self).suspended),
            final(self).saved_program_ptr == (if command is DebugBreakpoint && !old(
                self,
            ).suspended {
                old(self).program_ptr
            } else {
                old(self).saved_program_ptr
            }),
            final(self).dump_log@ == (if command is DebugDump {
                old(self).dump_log@.push(final(self).dump_log@.last())
            } else {
                old(self).dump_log@
            }),
    {
        match command {
            Token::PtrInc => self.pointer_increment(),
            Token::PtrDec => self.pointer_decrement(),
            Token::ValInc => self.value_increment(),
            Token::ValDec => self.value_decrement(),
            Token::PutChar => self.put_character(),
            Token::GetChar => self.get_character(),
            Token::LoopBeg => self.loop_enter(),
            Token::LoopEnd => self.loop_exit(),
            Token::DebugDump => self.dump_state(),
            Token::DebugBreakpoint => {
                if !self.suspended {
                    // suspend: the program pointer is not disturbed, and
                    // the run resumes after this position when the
                    // session continues
                    self.saved_program_ptr = self.program_ptr;
                    self.suspended = true;
                } else {
                    // a breakpoint inside a session does not open a
                    // second session
                    self.advance();
                }
                proof {
                    assert(self.abs() =~= dispatch(
                        old(self).program@,
                        old(self).abs(),
                        Token::DebugBreakpoint,
                    ));
                }
            },
        }
    }

    /// The end-of-run check: a run that reaches its end with loops
    /// still open is downgraded from `Terminated` to a program error
    /// naming the unmatched `[` positions.
    fn cleanup(&mut self)
        requires
            old(self).wf(),
            old(self).status is Terminated,
        ensures
            final(self).wf(),
            *final(self) == (ExecutionContext { status: final(self).status, ..*old(self) }),
            old(self).loop_stack@.len() == 0 ==> final(self).status == old(self).status,
            old(self).loop_stack@.len() > 0 ==> (final(self).status matches
                ExecutionStatus::ProgramError(m) && m@ == msg_unmatched_at_end(
                old(self).loop_stack@.map_values(|u: usize| u as nat),
            )),
    {
        if self.loop_stack.len() > 0 {
            let mut s = "unmatched '[' at program position(s): ".to_owned();
            let list = usize_list_to_string(&self.loop_stack);
            s.append(list.as_str());
            self.status = ExecutionStatus::ProgramError(s);
        }
    }

    /// The dispatch loop: run up to `max_steps` machine steps, stopping
    /// early at a terminal status or at a breakpoint suspension.
    fn run(&mut self, max_steps: usize)
        requires
            old(self).wf(),
            !old(self).suspended,
        ensures
            final(self).wf(),
            final(self).program == old(self).program,
            max_steps > 0 ==> !(final(self).status is NotStarted),
            !(old(self).status is NotStarted) ==> !(final(self).status is NotStarted),
            final(self).suspended ==> ((final(self).status is InProgress)
                && final(self).program_ptr == final(self).saved_program_ptr),
            (C::is_modeled() || io_free(old(self).program@)) ==> (exists|n: nat|
                n <= max_steps && #[trigger] run_steps(old(self).program@, old(self).abs(), n)
                    == final(self).abs() && (n == max_steps || final(self).suspended
                    || spec_is_terminal(final(self).status))),
    {
        let ghost prog = self.program@;
        let ghost s0 = self.abs();
        let mut i: usize = 0;
        while i < max_steps
            invariant_except_break
                i <= max_steps,
                self.wf(),
                self.program == old(self).program,
                prog == old(self).program@,
                !self.suspended,
                i > 0 ==> !(self.status is NotStarted),
                !(old(self).status is NotStarted) ==> !(self.status is NotStarted),
                (C::is_modeled() || io_free(prog)) ==> run_steps(prog, s0, i as nat) == self.abs(),
            ensures
                i <= max_steps,
                self.wf(),
                self.program == old(self).program,
                i > 0 ==> !(self.status is NotStarted),
                i == 0 ==> (i >= max_steps || spec_is_terminal(self.status)),
                !(old(self).status is NotStarted) ==> !(self.status is NotStarted),
                self.suspended ==> ((self.status is InProgress) && self.program_ptr
                    == self.saved_program_ptr),
                (C::is_modeled() || io_free(prog)) ==> (run_steps(prog, s0, i as nat) == self.abs()
                    && (i == max_steps || self.suspended || spec_is_terminal(self.status))),
            decreases max_steps - i,
        {
            let ghost pre = self.abs();
            match &self.status {
                ExecutionStatus::NotStarted => {
                    self.status = ExecutionStatus::InProgress;
                    proof {
                        assert(self.abs() =~= step(prog, pre));
                    }
                    i = i + 1;
                },
                ExecutionStatus::InProgress => {
                    if self.program_ptr < self.program.len() {
                        let cmd = self.program[self.program_ptr];
                        self.run_command(cmd);
                        proof {
                            if C::is_modeled() || io_free(prog) {
                                assert(step(prog, pre) == dispatch(prog, pre, prog[pre.program_ptr as int]));
                            }
                            if io_free(prog) {
                                // the fetched instruction is no I/O
                                // instruction, so its dispatch equality
                                // holds for any context
                                assert(prog[pre.program_ptr as int] != Token::PutChar
                                    && prog[pre.program_ptr as int] != Token::GetChar);
                            }
                        }
                        i = i + 1;
                        if self.suspended {
                            break;
                        }
                    } else {
                        // the program pointer ran off the end: the run
                        // terminates, subject to the end-of-run check
                        self.status = ExecutionStatus::Terminated;
                        self.cleanup();
                        proof {
                            assert(self.abs() =~= step(prog, pre));
                        }
                        i = i + 1;
                        break;
                    }
                },
                _ => {
                    break;
                },
            }
        }
    }

    /// Run the program to its end, to a terminal error, or to a
    /// breakpoint suspension, and report the status.
    ///
    /// The loop is budgeted: a run that is still in progress after the
    /// budget (one step short of the machine's word range, so never in
    /// practice) returns with an `InProgress` status.
    pub fn execute(&mut self) -> (st: ExecutionStatus<String>)
        requires
            old(self).wf(),
            !old(self).suspended,
        ensures
            final(self).wf(),
            final(self).program == old(self).program,
            st == final(self).status,
            !(final(self).status is NotStarted),
            final(self).suspended ==> ((final(self).status is InProgress)
                && final(self).program_ptr == final(self).saved_program_ptr),
            (C::is_modeled() || io_free(old(self).program@)) ==> (exists|n: nat|
                #[trigger] run_steps(old(self).program@, old(self).abs(), n) == final(self).abs()
                    && (n >= usize::MAX || final(self).suspended || spec_is_terminal(
                    final(self).status,
                ))),
    {
        self.run(usize::MAX);
        clone_status(&self.status)
    }

    /// Whether the run sits at a breakpoint, waiting for session input.
    pub fn is_suspended(&self) -> (b: bool)
        ensures
            b == self.suspended,
    {
        self.suspended
    }

    /// Hand one interactive-session event to a suspended run: dispatch
    /// a command against the live state, quit the whole run, or end it
    /// with the command source's failure.
    pub fn session_event(&mut self, event: ReplResult<String>)
        requires
            old(self).wf(),
            old(self).suspended,
        ensures
            final(self).wf(),
            final(self).program == old(self).program,
            (match event {
                ReplResult::Command(t) => {
                    &&& ((old(self).status is InProgress && (C::is_modeled() || !(t is PutChar
                        || t is GetChar))) ==> final(self).abs() == dispatch(
                        old(self).program@,
                        old(self).abs(),
                        t,
                    ))
                    &&& (!(old(self).status is InProgress) ==> *final(self) == *old(self))
                    &&& final(self).suspended
                    &&& final(self).saved_program_ptr == old(self).saved_program_ptr
                },
                ReplResult::Quit => {
                    &&& final(self).abs() == (MachineState {
                        status: quit_status(old(self).abs()),
                        suspended: false,
                        ..old(self).abs()
                    })
                    &&& !final(self).suspended
                },
                ReplResult::Error(e) => {
                    &&& final(self).status == ExecutionStatus::<String>::InternalError(e)
                    &&& !final(self).suspended
                    &&& final(self).abs() == (MachineState {
                        status: MachineStatus::InternalError(e@),
                        suspended: false,
                        ..old(self).abs()
                    })
                },
            }),
    {
        match event {
            ReplResult::Command(t) => {
                match &self.status {
                    ExecutionStatus::InProgress => {
                        self.run_command(t);
                    },
                    _ => {},
                }
            },
            ReplResult::Quit => {
                self.suspended = false;
                self.status = ExecutionStatus::Terminated;
                self.cleanup();
                proof {
                    assert(self.abs() =~= (MachineState {
                        status: quit_status(old(self).abs()),
                        suspended: false,
                        ..old(self).abs()
                    }));
                }
            },
            ReplResult::Error(e) => {
                self.suspended = false;
                self.status = ExecutionStatus::InternalError(e);
                proof {
                    assert(self.abs() =~= (MachineState {
                        status: MachineStatus::InternalError(e@),
                        suspended: false,
                        ..old(self).abs()
                    }));
                }
            },
        }
    }

    /// Feed one line of session input to a suspended run.
    ///
    /// The exact line `quit` ends the whole run; the exact line
    /// `continue` ends only the session, resuming normal dispatch at the
    /// instruction after the breakpoint.  Any other line is tokenized
    /// with the same lenient parse as programs and its instructions are
    /// dispatched one at a time against the live state, stopping early
    /// if one of them ends the run.
    pub fn feed_line(&mut self, line: &str)
        requires
            old(self).wf(),
            old(self).suspended,
        ensures
            final(self).wf(),
            final(self).program == old(self).program,
            line@ == "quit"@ ==> (final(self).abs() == (MachineState {
                status: quit_status(old(self).abs()),
                suspended: false,
                ..old(self).abs()
            }) && !final(self).suspended),
            line@ == "continue"@ ==> (*final(self) == (ExecutionContext {
                suspended: false,
                program_ptr: final(self).program_ptr,
                ..*old(self)
            }) && final(self).abs() == resume(
                MachineState { program_ptr: old(self).saved_program_ptr as nat, ..old(self).abs() },
            )),
            (line@ != "quit"@ && line@ != "continue"@ && C::is_modeled()) ==> final(self).abs()
                == dispatch_seq(old(self).program@, old(self).abs(), spec_parse(line@)),
    {
        proof {
            reveal_strlit("quit");
            reveal_strlit("continue");
        }
        if str_eq(line, "quit") {
            self.session_event(ReplResult::Quit);
        } else if str_eq(line, "continue") {
            let len = self.program.len();
            self.suspended = false;
            self.program_ptr = self.saved_program_ptr + 1;
            proof {
                assert(self.abs() =~= resume(
                    MachineState {
                        program_ptr: old(self).saved_program_ptr as nat,
                        ..old(self).abs()
                    },
                ));
            }
        } else {
            let tokens = Token::parse_str(line);
            let ghost prog = self.program@;
            let ghost s0 = self.abs();
            let ghost ts = spec_parse(line@);
            proof {
                assert(ts.skip(0) =~= ts);
            }
            let mut i: usize = 0;
            while i < tokens.len()
                invariant
                    i <= tokens@.len(),
                    tokens@ == ts,
                    self.wf(),
                    self.suspended,
                    self.program == old(self).program,
                    prog == old(self).program@,
                    C::is_modeled() ==> dispatch_seq(prog, s0, ts) == dispatch_seq(
                        prog,
                        self.abs(),
                        ts.skip(i as int),
                    ),
                decreases tokens@.len() - i,
            {
                let t = tokens[i];
                match &self.status {
                    ExecutionStatus::InProgress => {
                        let ghost before = self.abs();
                        self.run_command(t);
                        proof {
                            assert(ts.skip(i as int).drop_first() =~= ts.skip(i + 1 as int));
                            assert(ts.skip(i as int)[0] == ts[i as int]);
                        }
                    },
                    _ => {
                        // the run already ended; the rest of the line is
                        // not dispatched
                        proof {
                            assert(ts.skip(i as int).drop_first() =~= ts.skip(i + 1 as int));
                        }
                    },
                }
                i = i + 1;
            }
            proof {
                assert(ts.skip(ts.len() as int) =~= Seq::<Token>::empty());
            }
        }
    }

    /// Move the diagnostic dumps emitted so far out of the context,
    /// leaving the log empty.
    pub fn take_dump_log(&mut self) -> (log: Vec<String>)
        ensures
            log == old(self).dump_log,
            *final(self) == (ExecutionContext { dump_log: final(self).dump_log, ..*old(self) }),
            final(self).dump_log@ == Seq::<String>::empty(),
    {
        let mut log: Vec<String> = Vec::new();
        core::mem::swap(&mut log, &mut self.dump_log);
        log
    }

    /// Give the I/O context back to the caller, consuming the run; used
    /// to observe the output queue of an in-memory context after the
    /// run has ended.
    pub fn into_io_context(self) -> (c: C)
        ensures
            c == self.ctx,
    {
        let ExecutionContext { ctx, .. } = self;
        ctx
    }
}

/// Whether two pieces of text are the same characters.
fn str_eq(a: &str, b: &str) -> (r: bool)
    ensures
        r == (a@ == b@),
{
    let sa = a.to_owned();
    let sb = b.to_owned();
    sa.eq(&sb)
}

} // verus!
