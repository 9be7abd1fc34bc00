//! The small-step abstract machine that the execution engine is
//! specified against.
//!
//! A machine state carries the tape, the data pointer, the program
//! pointer, the loop-return stack, the queue of input bytes still to be
//! read, the output bytes written so far, and the status.  One `step`
//! dispatches the instruction at the program pointer; terminal states and
//! suspended states are absorbing.  The engine's contracts say that its
//! concrete state, viewed through an abstraction function, follows
//! `run_steps` of this machine.

use vstd::prelude::*;

use crate::render::{spec_decimal, spec_num_list};
use crate::token::Token;

verus! {

/// The status of one run of the machine.
#[verifier::ext_equal]
pub ghost enum MachineStatus {
    NotStarted,
    InProgress,
    Terminated,
    ProgramError(Seq<char>),
    InternalError(Seq<char>),
}

impl MachineStatus {
    /// Whether the status is absorbing: once reached, no further step
    /// changes the state.
    pub open spec fn is_terminal(self) -> bool {
        match self {
            MachineStatus::Terminated => true,
            MachineStatus::ProgramError(_) => true,
            MachineStatus::InternalError(_) => true,
            _ => false,
        }
    }
}

/// The state of the abstract machine.
#[verifier::ext_equal]
pub ghost struct MachineState {
    /// The tape of byte cells.
    pub tape: Seq<u8>,
    /// The index of the current cell.
    pub data_ptr: nat,
    /// The index of the next instruction to dispatch.
    pub program_ptr: nat,
    /// The loop-return stack: positions of `[` instructions whose guard
    /// cell was nonzero at entry, innermost last.
    pub loop_stack: Seq<nat>,
    /// The input bytes not yet consumed.
    pub input: Seq<u8>,
    /// The output bytes written so far.
    pub output: Seq<u8>,
    /// The status of the run.
    pub status: MachineStatus,
    /// Whether the machine sits at a breakpoint, waiting for an
    /// interactive session to end.
    pub suspended: bool,
}

impl MachineState {
    /// The initial state for a run that will read the given input.
    pub open spec fn init(input: Seq<u8>) -> MachineState {
        MachineState {
            tape: seq![0u8],
            data_ptr: 0,
            program_ptr: 0,
            loop_stack: Seq::empty(),
            input,
            output: Seq::empty(),
            status: MachineStatus::NotStarted,
            suspended: false,
        }
    }

    /// Structural soundness: the tape is never empty and the data
    /// pointer always indexes an existing cell.
    pub open spec fn wf(self) -> bool {
        &&& self.tape.len() >= 1
        &&& self.data_ptr < self.tape.len()
    }
}

/// The message reported when a `[` has no matching `]` ahead of it.
pub open spec fn msg_unmatched_open(p: nat) -> Seq<char> {
    "'[' at program position "@ + spec_decimal(p) + " missing corresponding ']'"@
}

/// The message reported when a `]` has no `[` open for it.
pub open spec fn msg_unmatched_close(p: nat) -> Seq<char> {
    "']' at program position "@ + spec_decimal(p) + " missing corresponding '['"@
}

/// The message reported when the program ends with loops still open.
pub open spec fn msg_unmatched_at_end(stack: Seq<nat>) -> Seq<char> {
    "unmatched '[' at program position(s): "@ + spec_num_list(stack)
}

/// The position of the `]` that closes the loop open at depth `depth`
/// when scanning forward from position `i`, if any.
pub open spec fn find_match(prog: Seq<Token>, i: nat, depth: nat) -> Option<nat>
    decreases prog.len() - i,
{
    if i >= prog.len() {
        None
    } else if prog[i as int] == Token::LoopEnd {
        if depth == 0 {
            Some(i)
        } else {
            find_match(prog, i + 1, (depth - 1) as nat)
        }
    } else if prog[i as int] == Token::LoopBeg {
        find_match(prog, i + 1, depth + 1)
    } else {
        find_match(prog, i + 1, depth)
    }
}

/// A successful forward scan stays inside the program, at or after the
/// position it started from.
pub proof fn lemma_find_match_bounds(prog: Seq<Token>, i: nat, depth: nat)
    ensures
        find_match(prog, i, depth) matches Some(j) ==> i <= j < prog.len(),
    decreases prog.len() - i,
{
    if i < prog.len() {
        if prog[i as int] == Token::LoopEnd {
            if depth != 0 {
                lemma_find_match_bounds(prog, i + 1, (depth - 1) as nat);
            }
        } else if prog[i as int] == Token::LoopBeg {
            lemma_find_match_bounds(prog, i + 1, depth + 1);
        } else {
            lemma_find_match_bounds(prog, i + 1, depth);
        }
    }
}

/// Whether a program contains no input or output instruction.  A run
/// of such a program never consults its I/O context, so the engine
/// follows the machine for it whatever context it was given.
pub open spec fn io_free(prog: Seq<Token>) -> bool {
    forall|i: int|
        0 <= i < prog.len() ==> (#[trigger] prog[i]) != Token::PutChar && prog[i]
            != Token::GetChar
}

/// A program pointer bumped by one, capped at the program's end.
pub open spec fn bump(pp: nat, len: nat) -> nat {
    if pp < len {
        pp + 1
    } else {
        pp
    }
}

/// A cell value incremented with 8-bit wraparound.
pub open spec fn wrap_inc(b: u8) -> u8 {
    if b == 255 {
        0
    } else {
        (b + 1) as u8
    }
}

/// A cell value decremented with 8-bit wraparound.
pub open spec fn wrap_dec(b: u8) -> u8 {
    if b == 0 {
        255
    } else {
        (b - 1) as u8
    }
}

/// The effect of dispatching one instruction `t` in state `s`, for a run
/// of program `prog`.
///
/// This is defined for an explicit instruction, not for `prog` at the
/// program pointer, because an interactive session feeds instructions of
/// its own through the same dispatch; `step` instantiates `t` with the
/// fetched instruction.
pub open spec fn dispatch(prog: Seq<Token>, s: MachineState, t: Token) -> MachineState {
    let len = prog.len();
    match t {
        Token::PtrInc => {
            let tape = if s.data_ptr + 1 < s.tape.len() {
                s.tape
            } else {
                s.tape.push(0u8)
            };
            MachineState { tape, data_ptr: s.data_ptr + 1, program_ptr: bump(s.program_ptr, len), ..s }
        },
        Token::PtrDec => {
            if s.data_ptr == 0 {
                MachineState { tape: seq![0u8] + s.tape, program_ptr: bump(s.program_ptr, len), ..s }
            } else {
                MachineState { data_ptr: (s.data_ptr - 1) as nat, program_ptr: bump(s.program_ptr, len), ..s }
            }
        },
        Token::ValInc => {
            MachineState {
                tape: s.tape.update(s.data_ptr as int, wrap_inc(s.tape[s.data_ptr as int])),
                program_ptr: bump(s.program_ptr, len),
                ..s
            }
        },
        Token::ValDec => {
            MachineState {
                tape: s.tape.update(s.data_ptr as int, wrap_dec(s.tape[s.data_ptr as int])),
                program_ptr: bump(s.program_ptr, len),
                ..s
            }
        },
        Token::PutChar => {
            MachineState {
                output: s.output.push(s.tape[s.data_ptr as int]),
                program_ptr: bump(s.program_ptr, len),
                ..s
            }
        },
        Token::GetChar => {
            if s.input.len() > 0 {
                MachineState {
                    tape: s.tape.update(s.data_ptr as int, s.input[0]),
                    input: s.input.drop_first(),
                    program_ptr: bump(s.program_ptr, len),
                    ..s
                }
            } else {
                // an exhausted input queue is not an error: the cell is
                // left unchanged and execution continues
                MachineState { program_ptr: bump(s.program_ptr, len), ..s }
            }
        },
        Token::LoopBeg => {
            if s.tape[s.data_ptr as int] == 0 {
                match find_match(prog, s.program_ptr + 1, 0) {
                    Some(j) => MachineState { program_ptr: j + 1, ..s },
                    None => MachineState {
                        status: MachineStatus::ProgramError(msg_unmatched_open(s.program_ptr)),
                        ..s
                    },
                }
            } else {
                MachineState {
                    loop_stack: s.loop_stack.push(s.program_ptr),
                    program_ptr: bump(s.program_ptr, len),
                    ..s
                }
            }
        },
        Token::LoopEnd => {
            if s.loop_stack.len() == 0 {
                MachineState {
                    status: MachineStatus::ProgramError(msg_unmatched_close(s.program_ptr)),
                    ..s
                }
            } else {
                let back = s.loop_stack.last();
                let rest = s.loop_stack.drop_last();
                if s.tape[s.data_ptr as int] == 0 {
                    MachineState { loop_stack: rest, program_ptr: bump(s.program_ptr, len), ..s }
                } else {
                    // jump back to the `[` itself so that its guard is
                    // re-evaluated
                    MachineState { loop_stack: rest, program_ptr: back, ..s }
                }
            }
        },
        Token::DebugDump => {
            // the dump goes to a diagnostic log outside the machine
            MachineState { program_ptr: bump(s.program_ptr, len), ..s }
        },
        Token::DebugBreakpoint => {
            if s.suspended {
                // a breakpoint inside an interactive session does not
                // open a second session
                MachineState { program_ptr: bump(s.program_ptr, len), ..s }
            } else {
                MachineState { suspended: true, ..s }
            }
        },
    }
}

/// One step of the machine: dispatch the instruction at the program
/// pointer, or terminate when the program pointer has run off the end.
/// Terminal and suspended states are absorbing.
pub open spec fn step(prog: Seq<Token>, s: MachineState) -> MachineState {
    if s.suspended || s.status.is_terminal() {
        s
    } else if s.status == MachineStatus::NotStarted {
        MachineState { status: MachineStatus::InProgress, ..s }
    } else if s.program_ptr >= prog.len() {
        // end of program: a non-empty loop-return stack means unmatched
        // `[` instructions
        if s.loop_stack.len() == 0 {
            MachineState { status: MachineStatus::Terminated, ..s }
        } else {
            MachineState {
                status: MachineStatus::ProgramError(msg_unmatched_at_end(s.loop_stack)),
                ..s
            }
        }
    } else {
        dispatch(prog, s, prog[s.program_ptr as int])
    }
}

/// `n` steps of the machine.
pub open spec fn run_steps(prog: Seq<Token>, s: MachineState, n: nat) -> MachineState
    decreases n,
{
    if n == 0 {
        s
    } else {
        step(prog, run_steps(prog, s, (n - 1) as nat))
    }
}

/// Resuming from a breakpoint: the session is over, and execution
/// continues at the instruction after the breakpoint.
pub open spec fn resume(s: MachineState) -> MachineState {
    MachineState { suspended: false, program_ptr: s.program_ptr + 1, ..s }
}

/// One step of the machine for a run without an interactive operator:
/// a suspension is immediately resumed.
pub open spec fn step_auto(prog: Seq<Token>, s: MachineState) -> MachineState {
    if s.suspended {
        resume(s)
    } else {
        step(prog, s)
    }
}

/// `n` steps of the machine without an interactive operator.
pub open spec fn run_steps_auto(prog: Seq<Token>, s: MachineState, n: nat) -> MachineState
    decreases n,
{
    if n == 0 {
        s
    } else {
        step_auto(prog, run_steps_auto(prog, s, (n - 1) as nat))
    }
}

/// The effect of an interactive session feeding a sequence of
/// instructions through the dispatch, stopping at the first terminal
/// status.
pub open spec fn dispatch_seq(prog: Seq<Token>, s: MachineState, ts: Seq<Token>) -> MachineState
    decreases ts.len(),
{
    if ts.len() == 0 || s.status.is_terminal() {
        s
    } else {
        dispatch_seq(prog, dispatch(prog, s, ts[0]), ts.drop_first())
    }
}

/// The status a run ends with when it is told to quit: quitting
/// terminates the run, and the end-of-run check for loops left open
/// still applies.
pub open spec fn quit_status(s: MachineState) -> MachineStatus {
    if s.loop_stack.len() == 0 {
        MachineStatus::Terminated
    } else {
        MachineStatus::ProgramError(msg_unmatched_at_end(s.loop_stack))
    }
}

/// The nesting depth of the loop structure just before position `i`:
/// how many `[` in the first `i` instructions are not closed there.
pub open spec fn dyck_depth(prog: Seq<Token>, i: nat) -> int
    recommends
        i <= prog.len(),
    decreases i,
{
    if i == 0 {
        0
    } else {
        dyck_depth(prog, (i - 1) as nat) + (if prog[i - 1] == Token::LoopBeg {
            1int
        } else if prog[i - 1] == Token::LoopEnd {
            -1int
        } else {
            0int
        })
    }
}

/// Whether the program's brackets are balanced: every prefix has at
/// least as many `[` as `]`, and the whole program has equally many.
pub open spec fn balanced(prog: Seq<Token>) -> bool {
    &&& dyck_depth(prog, prog.len()) == 0
    &&& forall|i: nat| i <= prog.len() ==> #[trigger] dyck_depth(prog, i) >= 0
}

/// A successful forward scan lands on the `]` that brings the nesting
/// depth one below where the scan started.
proof fn lemma_find_match_depth(prog: Seq<Token>, i: nat, depth: nat)
    requires
        i <= prog.len(),
    ensures
        find_match(prog, i, depth) matches Some(j) ==> (prog[j as int] == Token::LoopEnd
            && dyck_depth(prog, j + 1) == dyck_depth(prog, i) - depth - 1),
    decreases prog.len() - i,
{
    if i < prog.len() {
        if prog[i as int] == Token::LoopEnd {
            if depth != 0 {
                lemma_find_match_depth(prog, i + 1, (depth - 1) as nat);
            }
        } else if prog[i as int] == Token::LoopBeg {
            lemma_find_match_depth(prog, i + 1, depth + 1);
        } else {
            lemma_find_match_depth(prog, i + 1, depth);
        }
    }
}

/// A failed forward scan means the rest of the program cannot bring
/// the nesting depth down to where the scan started.
proof fn lemma_find_match_none(prog: Seq<Token>, i: nat, depth: nat)
    requires
        i <= prog.len(),
    ensures
        find_match(prog, i, depth) is None ==> dyck_depth(prog, prog.len()) >= dyck_depth(prog, i)
            - depth,
    decreases prog.len() - i,
{
    if i < prog.len() {
        if prog[i as int] == Token::LoopEnd {
            if depth != 0 {
                lemma_find_match_none(prog, i + 1, (depth - 1) as nat);
            }
        } else if prog[i as int] == Token::LoopBeg {
            lemma_find_match_none(prog, i + 1, depth + 1);
        } else {
            lemma_find_match_none(prog, i + 1, depth);
        }
    }
}

/// The bookkeeping that ties a running machine to the loop structure of
/// a balanced program: the loop-return stack is exactly as deep as the
/// program pointer's position is nested, each recorded position is a
/// `[` at its own depth, and a suspended machine sits on a breakpoint.
pub open spec fn balance_inv(prog: Seq<Token>, m: MachineState) -> bool {
    &&& m.program_ptr <= prog.len()
    &&& m.loop_stack.len() == dyck_depth(prog, m.program_ptr)
    &&& (forall|k: int|
        0 <= k < m.loop_stack.len() ==> (#[trigger] m.loop_stack[k]) < prog.len()
            && prog[m.loop_stack[k] as int] == Token::LoopBeg && dyck_depth(prog, m.loop_stack[k])
            == k)
    &&& (m.suspended ==> m.program_ptr < prog.len() && prog[m.program_ptr as int]
        == Token::DebugBreakpoint)
}

/// One step of a balanced program keeps the bookkeeping and reports no
/// program error.
proof fn lemma_step_auto_preserves_balance(prog: Seq<Token>, m: MachineState)
    requires
        balanced(prog),
        balance_inv(prog, m),
        !(m.status is ProgramError),
    ensures
        balance_inv(prog, step_auto(prog, m)),
        !(step_auto(prog, m).status is ProgramError),
{
    if m.suspended {
        // resuming steps past the breakpoint, which is no bracket
        assert(dyck_depth(prog, m.program_ptr + 1) == dyck_depth(prog, m.program_ptr));
    } else if m.status.is_terminal() || m.status == MachineStatus::NotStarted {
    } else if m.program_ptr >= prog.len() {
        // the whole program is balanced, so no loop can still be open
        assert(dyck_depth(prog, prog.len()) == 0);
        assert(m.loop_stack.len() == 0);
    } else {
        let t = prog[m.program_ptr as int];
        let next = dispatch(prog, m, t);
        match t {
            Token::LoopBeg => {
                if m.tape[m.data_ptr as int] == 0 {
                    lemma_find_match_bounds(prog, m.program_ptr + 1, 0);
                    lemma_find_match_depth(prog, m.program_ptr + 1, 0);
                    lemma_find_match_none(prog, m.program_ptr + 1, 0);
                    assert(dyck_depth(prog, m.program_ptr + 1) == dyck_depth(prog, m.program_ptr)
                        + 1);
                    assert(find_match(prog, m.program_ptr + 1, 0) is Some);
                } else {
                    assert(dyck_depth(prog, m.program_ptr + 1) == dyck_depth(prog, m.program_ptr)
                        + 1);
                    assert forall|k: int| 0 <= k < next.loop_stack.len() implies (
                    #[trigger] next.loop_stack[k]) < prog.len() && prog[next.loop_stack[k] as int]
                        == Token::LoopBeg && dyck_depth(prog, next.loop_stack[k]) == k by {
                        if k < m.loop_stack.len() {
                            assert(next.loop_stack[k] == m.loop_stack[k]);
                        } else {
                            assert(next.loop_stack[k] == m.program_ptr);
                        }
                    }
                }
            },
            Token::LoopEnd => {
                // a `]` of a balanced program sits at positive depth, so
                // the stack cannot be empty here
                assert(dyck_depth(prog, m.program_ptr + 1) == dyck_depth(prog, m.program_ptr) - 1);
                assert(dyck_depth(prog, m.program_ptr + 1) >= 0);
                assert(m.loop_stack.len() > 0);
            },
            _ => {
                assert(dyck_depth(prog, m.program_ptr + 1) == dyck_depth(prog, m.program_ptr));
            },
        }
    }
}

/// Law: a program whose brackets are balanced never reports a program
/// error, however many steps it runs: neither loop-entry scanning, nor
/// loop exit, nor the end-of-run check can fail on it.
pub proof fn lemma_balanced_no_program_error(prog: Seq<Token>, input: Seq<u8>, n: nat)
    requires
        balanced(prog),
    ensures
        balance_inv(prog, run_steps_auto(prog, MachineState::init(input), n)),
        !(run_steps_auto(prog, MachineState::init(input), n).status is ProgramError),
    decreases n,
{
    if n == 0 {
        assert(dyck_depth(prog, 0) == 0);
    } else {
        lemma_balanced_no_program_error(prog, input, (n - 1) as nat);
        lemma_step_auto_preserves_balance(prog, run_steps_auto(prog, MachineState::init(input), (n
            - 1) as nat));
    }
}

/// Law: a program whose brackets are balanced can only come to rest
/// `Terminated`: if a run of it reaches a terminal status at all, that
/// status is a clean termination.
pub proof fn lemma_balanced_halts_clean(prog: Seq<Token>, input: Seq<u8>, n: nat)
    requires
        balanced(prog),
        run_steps_auto(prog, MachineState::init(input), n).status.is_terminal(),
    ensures
        run_steps_auto(prog, MachineState::init(input), n).status is Terminated,
{
    lemma_balanced_no_program_error(prog, input, n);
    lemma_no_internal_error(prog, input, n);
}

/// Law: a run on an in-memory machine never reports an internal error:
/// no machine transition produces one.
pub proof fn lemma_no_internal_error(prog: Seq<Token>, input: Seq<u8>, n: nat)
    ensures
        !(run_steps_auto(prog, MachineState::init(input), n).status is InternalError),
    decreases n,
{
    if n > 0 {
        lemma_no_internal_error(prog, input, (n - 1) as nat);
    }
}

/// Law: cell arithmetic wraps around: one increment from 255 yields 0,
/// and one decrement from 0 yields 255.
pub proof fn lemma_wraparound()
    ensures
        wrap_inc(255) == 0,
        wrap_dec(0) == 255,
{
}

/// Law: the input instruction against an exhausted input queue is not
/// an error: it leaves the current cell - the whole tape - unchanged
/// and sets no error status.
pub proof fn lemma_eof_is_not_an_error(prog: Seq<Token>, s: MachineState)
    requires
        s.input.len() == 0,
    ensures
        dispatch(prog, s, Token::GetChar).tape == s.tape,
        dispatch(prog, s, Token::GetChar).status == s.status,
{
}

/// Law: the tape never shrinks below one cell and the data pointer
/// always indexes an existing cell, whatever instruction is dispatched.
pub proof fn lemma_dispatch_preserves_wf(prog: Seq<Token>, s: MachineState, t: Token)
    requires
        s.wf(),
    ensures
        dispatch(prog, s, t).wf(),
{
}

/// Law: the structural soundness of the machine state is an invariant of
/// every step, so after any sequence of steps - any sequence of pointer
/// moves included - the data pointer indexes an existing cell and the
/// tape has at least one cell.
pub proof fn lemma_run_steps_preserves_wf(prog: Seq<Token>, s: MachineState, n: nat)
    requires
        s.wf(),
    ensures
        run_steps(prog, s, n).wf(),
    decreases n,
{
    if n > 0 {
        lemma_run_steps_preserves_wf(prog, s, (n - 1) as nat);
        let prev = run_steps(prog, s, (n - 1) as nat);
        if !(prev.suspended || prev.status.is_terminal())
            && prev.status != MachineStatus::NotStarted && prev.program_ptr < prog.len() {
            lemma_dispatch_preserves_wf(prog, prev, prog[prev.program_ptr as int]);
        }
    }
}

/// Law: a terminal status is absorbing under stepping.
pub proof fn lemma_terminal_absorbing(prog: Seq<Token>, s: MachineState, n: nat)
    requires
        s.status.is_terminal(),
    ensures
        run_steps(prog, s, n) == s,
    decreases n,
{
    if n > 0 {
        lemma_terminal_absorbing(prog, s, (n - 1) as nat);
    }
}

/// Composition of step counts for runs without an interactive operator.
pub proof fn lemma_run_steps_auto_add(prog: Seq<Token>, s: MachineState, n: nat, m: nat)
    ensures
        run_steps_auto(prog, run_steps_auto(prog, s, n), m) == run_steps_auto(prog, s, n + m),
    decreases m,
{
    if m > 0 {
        lemma_run_steps_auto_add(prog, s, n, (m - 1) as nat);
    }
}

/// A stopped run embeds into the operator-free run: a state reached by
/// `run_steps` is reached by `run_steps_auto` in at most as many steps,
/// and in exactly as many unless the run was absorbed by a suspension
/// or a terminal status.
pub proof fn lemma_run_to_auto(prog: Seq<Token>, s: MachineState, n: nat)
    requires
        !s.suspended,
    ensures
        exists|m: nat|
            m <= n && #[trigger] run_steps_auto(prog, s, m) == run_steps(prog, s, n) && (m == n
                || run_steps(prog, s, n).suspended || run_steps(prog, s, n).status.is_terminal()),
    decreases n,
{
    if n == 0 {
        assert(run_steps_auto(prog, s, 0) == run_steps(prog, s, 0));
    } else {
        lemma_run_to_auto(prog, s, (n - 1) as nat);
        let p = run_steps(prog, s, (n - 1) as nat);
        let m0 = choose|m: nat|
            m <= n - 1 && #[trigger] run_steps_auto(prog, s, m) == p && (m == n - 1 || p.suspended
                || p.status.is_terminal());
        if p.suspended || p.status.is_terminal() {
            assert(run_steps(prog, s, n) == p);
            assert(run_steps_auto(prog, s, m0) == run_steps(prog, s, n));
        } else {
            assert(run_steps_auto(prog, s, m0 + 1) == step_auto(prog, run_steps_auto(prog, s, m0)));
            assert(run_steps_auto(prog, s, m0 + 1) == run_steps(prog, s, n));
        }
    }
}

/// Chain one stopped engine run onto an operator-free machine run:
/// from the state after `taken` operator-free steps, a run of plain
/// steps that stopped (or took a full machine word of steps) at
/// `reached` extends the operator-free trace to the step count that is
/// returned.
pub proof fn lemma_chain_run_onto_auto(
    prog: Seq<Token>,
    base: MachineState,
    taken: nat,
    reached: MachineState,
) -> (t: nat)
    requires
        !run_steps_auto(prog, base, taken).suspended,
        exists|n: nat|
            #[trigger] run_steps(prog, run_steps_auto(prog, base, taken), n) == reached && (n
                >= usize::MAX || reached.suspended || reached.status.is_terminal()),
    ensures
        t >= taken,
        run_steps_auto(prog, base, t) == reached,
        !(reached.suspended || reached.status.is_terminal()) ==> t >= usize::MAX,
{
    let s = run_steps_auto(prog, base, taken);
    let n = choose|n: nat|
        #[trigger] run_steps(prog, s, n) == reached && (n >= usize::MAX || reached.suspended
            || reached.status.is_terminal());
    lemma_run_to_auto(prog, s, n);
    let m = choose|m: nat|
        m <= n && #[trigger] run_steps_auto(prog, s, m) == run_steps(prog, s, n) && (m == n
            || run_steps(prog, s, n).suspended || run_steps(prog, s, n).status.is_terminal());
    lemma_run_steps_auto_add(prog, base, taken, m);
    taken + m
}

/// A run that never suspends agrees with the operator-free run.
pub proof fn lemma_run_steps_auto_agrees(prog: Seq<Token>, s: MachineState, n: nat)
    requires
        forall|k: nat| k < n ==> !(#[trigger] run_steps(prog, s, k)).suspended,
    ensures
        run_steps_auto(prog, s, n) == run_steps(prog, s, n),
    decreases n,
{
    if n > 0 {
        lemma_run_steps_auto_agrees(prog, s, (n - 1) as nat);
    }
}

} // verus!
