use bfi::bf::{decode_command, encode_command, run_interpreter, Command, ExecutionStatus, State};

const CHARS: [char; 10] = ['>', '<', '+', '-', '.', ',', '[', ']', '?', '!'];
const COMMANDS: [Command; 10] = [
    Command::PtrInc,
    Command::PtrDec,
    Command::ValInc,
    Command::ValDec,
    Command::PutChar,
    Command::GetChar,
    Command::LoopBeg,
    Command::LoopEnd,
    Command::DebugDump,
    Command::DebugBreakpoint,
];

#[test]
fn mod_decoding() {
    for (&c, &t) in CHARS.iter().zip(COMMANDS.iter()) {
        let decoded: Result<Command, String> = decode_command(c);
        assert_eq!(decoded.is_ok(), true);
        assert_eq!(decoded.unwrap(), t);
    }
}

#[test]
fn mod_encoding() {
    for (&c, &t) in CHARS.iter().zip(COMMANDS.iter()) {
        assert_eq!(encode_command(t), c);
    }
}

#[test]
fn simple_program() {
    let program: &'static str = "><++[-]";
    let target = State {
        data: vec![0, 0],
        data_ptr: 0,
        program_ptr: 7,
        loop_stack: vec![],
        status: ExecutionStatus::Terminated,
    };
    assert_eq!(target, run_interpreter(program));
}

#[test]
fn decode_command_names_the_character() {
    assert_eq!(decode_command('x'), Err("unsupported character: x".to_string()));
}

#[test]
fn run_interpreter_rejects_non_command_text() {
    let state = run_interpreter("+x+");
    assert_eq!(state.data, vec![0]);
    assert_eq!(state.data_ptr, 0);
    assert_eq!(state.program_ptr, 0);
    assert_eq!(state.status, ExecutionStatus::Error("unsupported character: x".to_string()));
}

#[test]
fn run_interpreter_reports_unmatched_open() {
    let state = run_interpreter("[");
    assert_eq!(
        state.status,
        ExecutionStatus::Error("'[' at program position 0 missing corresponding ']'".to_string())
    );
}

#[test]
fn run_interpreter_reports_unmatched_close() {
    let state = run_interpreter("]");
    assert_eq!(
        state.status,
        ExecutionStatus::Error("']' at program position 0 missing corresponding '['".to_string())
    );
    assert_eq!(state.data, vec![0]);
    assert_eq!(state.program_ptr, 0);
}

#[test]
fn run_interpreter_reports_open_loop_at_end() {
    let state = run_interpreter("+[");
    assert_eq!(
        state.status,
        ExecutionStatus::Error("unmatched '[' at program position(s): [1]".to_string())
    );
}
