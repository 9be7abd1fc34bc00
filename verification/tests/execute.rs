use bfi::{execute, Error};

static ADD_PROGRAM: &str = ",>,<[->+<]>.";

#[test]
fn test_addition() {
    for a in 0..=255 {
        for b in 0..=255 {
            let output: Vec<u8> = execute(ADD_PROGRAM, &[a, b]).unwrap();
            let expected_output: u8 = a.wrapping_add(b);
            assert_eq!(output.iter().nth(0).unwrap(), &expected_output);
        }
    }
}

#[test]
fn addition_scenario() {
    // byte-wise addition of two inputs with wraparound
    assert_eq!(execute(ADD_PROGRAM, &[3, 4]), Ok(vec![7]));
}

#[test]
fn cat_scenario() {
    // the classic echo program copies its input to its output verbatim
    let input = b"Some testing string!\n";
    assert_eq!(execute(",[.[-],]", input), Ok(input.to_vec()));
}

#[test]
fn hello_world_scenario() {
    let program = "+[-->-[>>+>-----<<]<--<---]>-.>>>+.>>..+++[.>]<<<<.+++.------.<<-.>>>>+.";
    assert_eq!(execute(program, b""), Ok(b"Hello, World!".to_vec()));
}

#[test]
fn unmatched_open_is_a_program_error() {
    match execute("[", b"") {
        Err(Error::ProgramError(m)) => {
            assert_eq!(m, "'[' at program position 0 missing corresponding ']'");
        }
        other => panic!("expected a program error, got {:?}", other),
    }
}

#[test]
fn unmatched_close_is_a_program_error() {
    match execute("]", b"") {
        Err(Error::ProgramError(m)) => {
            assert_eq!(m, "']' at program position 0 missing corresponding '['");
        }
        other => panic!("expected a program error, got {:?}", other),
    }
}

#[test]
fn open_loop_at_end_is_a_program_error() {
    // the `[` is entered with a nonzero guard, so the failure is only
    // found at the end of the program
    match execute("+[", b"") {
        Err(Error::ProgramError(m)) => {
            assert_eq!(m, "unmatched '[' at program position(s): [1]");
        }
        other => panic!("expected a program error, got {:?}", other),
    }
}

#[test]
fn breakpoints_are_no_ops_without_an_operator() {
    assert_eq!(execute("+%+.", b""), Ok(vec![2]));
}

#[test]
fn comments_are_ignored() {
    assert_eq!(execute("read one byte: , and print it: .", b"Z"), Ok(b"Z".to_vec()));
}

#[test]
fn output_of_empty_program_is_empty() {
    assert_eq!(execute("", b"unread"), Ok(vec![]));
}
