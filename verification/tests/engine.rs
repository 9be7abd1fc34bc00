use bfi::interpreter::{ExecutionContext, ExecutionStatus};
use bfi::ioctx::{InMemoryIoCtx, IoCtx};
use bfi::io::{ByteBuf, MockIOContext};
use bfi::repl::ReplResult;

fn fresh(program: &str) -> ExecutionContext<InMemoryIoCtx> {
    ExecutionContext::new(InMemoryIoCtx::default(), program)
}

fn fresh_with_input(program: &str, input: &[u8]) -> ExecutionContext<InMemoryIoCtx> {
    let mut ctx = InMemoryIoCtx::default();
    ctx.write_input(input).unwrap();
    ExecutionContext::new(ctx, program)
}

#[test]
fn wraparound_decrement_from_zero() {
    // starting from 0, one decrement yields 255
    let mut e = fresh("-");
    assert_eq!(e.execute(), ExecutionStatus::Terminated);
    assert_eq!(e.data, vec![255]);
}

#[test]
fn wraparound_increment_from_255() {
    // 255 reached by one decrement; one increment then yields 0
    let mut e = fresh("-+");
    assert_eq!(e.execute(), ExecutionStatus::Terminated);
    assert_eq!(e.data, vec![0]);
}

#[test]
fn tape_grows_right_on_demand() {
    let mut e = fresh(">>>");
    assert_eq!(e.execute(), ExecutionStatus::Terminated);
    assert_eq!(e.data, vec![0, 0, 0, 0]);
    assert_eq!(e.data_ptr, 3);
}

#[test]
fn tape_grows_left_keeping_the_pointer_valid() {
    // moving left of the origin inserts cells at the front; the data
    // pointer always indexes an existing cell and the tape never has
    // fewer than one cell
    let mut e = fresh("+<<");
    assert_eq!(e.execute(), ExecutionStatus::Terminated);
    assert_eq!(e.data, vec![0, 0, 1]);
    assert_eq!(e.data_ptr, 0);
}

#[test]
fn pointer_moves_cancel() {
    let mut e = fresh("><++[-]");
    assert_eq!(e.execute(), ExecutionStatus::Terminated);
    assert_eq!(e.data, vec![0, 0]);
    assert_eq!(e.data_ptr, 0);
    assert_eq!(e.loop_stack, Vec::<usize>::new());
}

#[test]
fn eof_leaves_the_cell_unchanged() {
    // executing the input instruction against an exhausted input queue
    // is not an error: the cell keeps its value and the run goes on
    let mut e = fresh("+++,+");
    assert_eq!(e.execute(), ExecutionStatus::Terminated);
    assert_eq!(e.data, vec![4]);
}

#[test]
fn input_is_read_byte_by_byte() {
    let mut e = fresh_with_input(",>,", &[7, 9]);
    assert_eq!(e.execute(), ExecutionStatus::Terminated);
    assert_eq!(e.data, vec![7, 9]);
}

#[test]
fn output_collects_in_the_context() {
    let mut e = fresh("+.+.");
    assert_eq!(e.execute(), ExecutionStatus::Terminated);
    let mut ctx = e.into_io_context();
    assert_eq!(ctx.read_output(16).unwrap(), vec![1, 2]);
}

#[test]
fn breakpoint_suspends_and_continue_resumes() {
    let mut e = fresh("%+");
    assert_eq!(e.execute(), ExecutionStatus::InProgress);
    assert!(e.is_suspended());
    // session commands mutate the live tape
    e.feed_line("+++");
    assert_eq!(e.data, vec![3]);
    // `continue` ends only the session; dispatch resumes after the
    // breakpoint
    e.feed_line("continue");
    assert!(!e.is_suspended());
    assert_eq!(e.execute(), ExecutionStatus::Terminated);
    assert_eq!(e.data, vec![4]);
}

#[test]
fn quit_ends_the_whole_run() {
    let mut e = fresh("%++++");
    e.execute();
    assert!(e.is_suspended());
    e.feed_line("quit");
    assert!(!e.is_suspended());
    assert_eq!(e.status, ExecutionStatus::Terminated);
    assert_eq!(e.data, vec![0]);
}

#[test]
fn quit_still_reports_open_loops() {
    let mut e = fresh("+[%");
    e.execute();
    assert!(e.is_suspended());
    e.feed_line("quit");
    assert_eq!(
        e.status,
        ExecutionStatus::ProgramError("unmatched '[' at program position(s): [1]".to_string())
    );
}

#[test]
fn session_source_failure_is_an_internal_error() {
    let mut e = fresh("%");
    e.execute();
    assert!(e.is_suspended());
    e.session_event(ReplResult::Error("line input failed".to_string()));
    assert!(!e.is_suspended());
    assert_eq!(
        e.status,
        ExecutionStatus::InternalError("line input failed".to_string())
    );
}

#[test]
fn session_quit_event_terminates() {
    let mut e = fresh("%+++");
    e.execute();
    e.session_event(ReplResult::Quit);
    assert_eq!(e.status, ExecutionStatus::Terminated);
}

#[test]
fn dump_reports_the_full_state() {
    let mut e = fresh("+>#");
    assert_eq!(e.execute(), ExecutionStatus::Terminated);
    let log = e.take_dump_log();
    assert_eq!(
        log,
        vec![
            "data: [1, 0]\ndata_ptr: 1\nprogram_ptr: 2\nloop_stack: []\nstatus: InProgress"
                .to_string()
        ]
    );
    assert!(e.take_dump_log().is_empty());
}

#[test]
fn in_memory_context_queues() {
    let mut ctx = InMemoryIoCtx::default();
    assert_eq!(ctx.write_input(&[1, 2, 3]).unwrap(), 3);
    assert_eq!(ctx.read_input(2).unwrap(), vec![1, 2]);
    assert_eq!(ctx.read_input(5).unwrap(), vec![3]);
    assert_eq!(ctx.read_input(5).unwrap(), Vec::<u8>::new());
    assert_eq!(ctx.write_output(&[9]).unwrap(), 1);
    ctx.flush_output().unwrap();
    assert_eq!(ctx.read_output(5).unwrap(), vec![9]);
    assert_eq!(ctx.read_output(5).unwrap(), Vec::<u8>::new());
}

#[test]
fn byte_buf_is_a_queue() {
    let mut b = ByteBuf::default();
    assert_eq!(b.write(&[10, 20, 30]), 3);
    assert_eq!(b.read(1), vec![10]);
    b.flush();
    assert_eq!(b.read(10), vec![20, 30]);
    assert_eq!(b.read(10), Vec::<u8>::new());
}

#[test]
fn mock_context_separates_the_queues() {
    let mut m = MockIOContext::new();
    m.input.write(&[5, 6]);
    assert_eq!(m.write(&[1]), 1);
    assert_eq!(m.read(10), vec![5, 6]);
    assert_eq!(m.output.read(10), vec![1]);
}
