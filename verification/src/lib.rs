//! An interactive interpreter for a minimal, tape-based programming
//! language, with a verified execution engine.
//!
//! The engine tokenizes source text once, then repeatedly dispatches the
//! current instruction against a growable byte tape, reading and writing
//! bytes through an I/O context supplied by the caller.  The engine's
//! behaviour is specified against a small-step abstract machine; see the
//! `machine` module.

use vstd::prelude::*;

pub mod bf;
pub mod buffer;
pub mod io;
pub mod interpreter;
pub mod ioctx;
pub mod machine;
pub mod render;
pub mod repl;
pub mod token;

use crate::interpreter::{ExecutionContext, ExecutionStatus, spec_is_terminal};
use crate::ioctx::{InMemoryIoCtx, IoCtx};
use crate::machine::{
    balanced, lemma_balanced_no_program_error, lemma_chain_run_onto_auto, lemma_no_internal_error,
    lemma_run_steps_auto_add, resume, run_steps_auto, step_auto, MachineState, MachineStatus,
};
use crate::token::spec_parse;

verus! {

/// The different ways the execution of a program can fail.
#[derive(Debug, PartialEq)]
pub enum Error<T> {
    /// The source program is malformed: a 'you' problem.
    ProgramError(T),

    /// The I/O context or the interactive command source failed: a 'me'
    /// problem.
    InternalError(T),
}

/// What `execute` promises of its result, against the machine state `m`
/// that the operator-free run reaches in `n` steps: the output bytes on
/// success, the exact message on an error, and - only after a full
/// machine word of steps - a catch-all for a run that never ended.
pub open spec fn execute_result_matches(
    r: Result<Vec<u8>, Error<String>>,
    m: MachineState,
    n: nat,
) -> bool {
    match r {
        Ok(out) => m.status is Terminated && out@ == m.output,
        Err(Error::ProgramError(e)) => m.status matches MachineStatus::ProgramError(msg) && e@
            == msg,
        Err(Error::InternalError(e)) => (m.status matches MachineStatus::InternalError(msg) && e@
            == msg) || (e@ == "unknown error occurred"@ && !m.status.is_terminal() && n
            >= usize::MAX),
    }
}

/// Execute a program on an in-memory I/O context pre-loaded with
/// `input`.  The output of the program (as placed by the output
/// instruction) is returned as a vector; a run that does not terminate
/// cleanly yields the error it ended with.  Breakpoints suspend a run,
/// and with no interactive operator attached here each suspension is
/// immediately resumed, so a breakpoint acts as a no-op.
pub fn execute(program: &str, input: &[u8]) -> (r: Result<Vec<u8>, Error<String>>)
    ensures
        exists|n: nat|
            execute_result_matches(
                r,
                #[trigger] run_steps_auto(spec_parse(program@), MachineState::init(input@), n),
                n,
            ),
        balanced(spec_parse(program@)) ==> !(r matches Err(Error::ProgramError(_))),
        r matches Err(Error::InternalError(e)) ==> e@ == "unknown error occurred"@,
{
    let ghost prog = spec_parse(program@);
    let ghost init = MachineState::init(input@);
    let mut mem = InMemoryIoCtx::default();
    if mem.write_input(input).is_err() {
        // an in-memory queue cannot fail; the verifier knows this arm is
        // unreachable
        return Err(Error::InternalError("unable to open buffer".to_owned()));
    }
    let mut ectx = ExecutionContext::new(mem, program);
    proof {
        assert(ectx.abs() =~= init);
    }
    // how many operator-free machine steps the run has taken so far
    let ghost mut taken: nat = 0;
    let mut st = ectx.execute();
    proof {
        taken = lemma_chain_run_onto_auto(prog, init, 0, ectx.abs());
    }
    let mut resumes: usize = 0;
    while ectx.is_suspended() && resumes < usize::MAX
        invariant
            ectx.wf(),
            ectx.program@ == prog,
            run_steps_auto(prog, init, taken) == ectx.abs(),
            taken >= resumes,
            st == ectx.status,
            ectx.suspended ==> ((ectx.status is InProgress) && ectx.program_ptr
                == ectx.saved_program_ptr),
            !ectx.suspended ==> (spec_is_terminal(ectx.status) || taken >= usize::MAX),
        decreases usize::MAX - resumes,
    {
        let ghost before = ectx.abs();
        ectx.feed_line("continue");
        proof {
            assert(ectx.abs() == resume(before));
            assert(step_auto(prog, before) == resume(before));
            lemma_run_steps_auto_add(prog, init, taken, 1);
            taken = taken + 1;
        }
        st = ectx.execute();
        proof {
            taken = lemma_chain_run_onto_auto(prog, init, taken, ectx.abs());
        }
        resumes = resumes + 1;
    }
    let ghost m = run_steps_auto(prog, init, taken);
    let mem = ectx.into_io_context();
    match st {
        ExecutionStatus::Terminated => {
            let mut mem = mem;
            let total = mem.output.len();
            match mem.read_output(total) {
                Ok(out) => {
                    proof {
                        assert(out@ =~= m.output);
                    }
                    Ok(out)
                },
                Err(_) => {
                    // an in-memory queue cannot fail
                    Err(Error::InternalError("unable to read buffer".to_owned()))
                },
            }
        },
        ExecutionStatus::ProgramError(e) => {
            proof {
                if balanced(prog) {
                    lemma_balanced_no_program_error(prog, input@, taken);
                }
            }
            Err(Error::ProgramError(e))
        },
        ExecutionStatus::InternalError(e) => {
            // the in-memory machine has no internal failures, so this
            // arm is unreachable
            proof {
                lemma_no_internal_error(prog, input@, taken);
            }
            Err(Error::InternalError(e))
        },
        _ => Err(Error::InternalError("unknown error occurred".to_owned())),
    }
}

} // verus!
