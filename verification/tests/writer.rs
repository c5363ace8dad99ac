use nethopper::registry::{InputPoll, TaskRegistry};
use nethopper::writer::{WriteOutcome, Writer, WriterExit, WriterPoll, WriterStep, INPUT_WAIT_MS};

#[test]
fn writer_constants() {
    assert_eq!(INPUT_WAIT_MS, 50);
}

#[test]
fn a_fresh_writer_waits_for_input() {
    let mut writer = Writer::new();
    assert_eq!(writer.exit(), None);
    assert_eq!(writer.poll(false), WriterPoll::Receive);
}

#[test]
fn a_chunk_is_written_as_it_came() {
    let mut writer = Writer::new();
    assert_eq!(
        writer.on_input(InputPoll::Chunk(b"ls -l\n".to_vec())),
        WriterStep::Write(b"ls -l\n".to_vec())
    );
    assert_eq!(writer.on_write(WriteOutcome::Written { flushed: true }), WriterPoll::Receive);
    assert_eq!(writer.exit(), None);
}

#[test]
fn no_input_is_no_reason_to_stop() {
    let mut writer = Writer::new();
    assert_eq!(writer.on_input(InputPoll::Empty), WriterStep::Idle);
    assert_eq!(writer.poll(false), WriterPoll::Receive);
}

#[test]
fn a_channel_that_is_gone_stops_the_writer() {
    let mut writer = Writer::new();
    assert_eq!(writer.on_input(InputPoll::Disconnected), WriterStep::Stop(WriterExit::Disconnected));
    assert_eq!(writer.exit(), Some(WriterExit::Disconnected));
    assert_eq!(writer.poll(false), WriterPoll::Stop(WriterExit::Disconnected));
}

#[test]
fn a_failed_flush_does_not_stop_the_writer() {
    let mut writer = Writer::new();
    assert_eq!(writer.on_write(WriteOutcome::Written { flushed: false }), WriterPoll::Receive);
    assert_eq!(writer.exit(), None);
}

#[test]
fn a_failed_write_stops_the_writer() {
    let mut writer = Writer::new();
    assert_eq!(writer.on_write(WriteOutcome::Failed), WriterPoll::Stop(WriterExit::WriteFailed));
    assert_eq!(writer.exit(), Some(WriterExit::WriteFailed));
    assert_eq!(
        writer.on_input(InputPoll::Chunk(b"x".to_vec())),
        WriterStep::Stop(WriterExit::WriteFailed)
    );
}

#[test]
fn a_lock_that_cannot_be_taken_stops_the_writer() {
    let mut writer = Writer::new();
    assert_eq!(writer.on_write(WriteOutcome::LockFailed), WriterPoll::Stop(WriterExit::LockFailure));
    assert_eq!(writer.poll(false), WriterPoll::Stop(WriterExit::LockFailure));
}

#[test]
fn a_set_flag_stops_the_writer_before_the_next_wait() {
    let mut writer = Writer::new();
    assert_eq!(writer.poll(true), WriterPoll::Stop(WriterExit::Cancelled));
    assert_eq!(writer.poll(false), WriterPoll::Stop(WriterExit::Cancelled));
    assert_eq!(
        writer.on_input(InputPoll::Chunk(b"late".to_vec())),
        WriterStep::Stop(WriterExit::Cancelled)
    );
    assert_eq!(
        writer.on_write(WriteOutcome::Written { flushed: true }),
        WriterPoll::Stop(WriterExit::Cancelled)
    );
}

#[test]
fn queued_input_is_written_in_order() {
    let mut registry = TaskRegistry::new();
    registry.start("t1").unwrap();
    registry.deliver_input("t1", b"a\n".to_vec()).unwrap();
    registry.deliver_input("t1", b"b\n".to_vec()).unwrap();
    registry.deliver_input("t1", b"c\n".to_vec()).unwrap();
    let mut writer = Writer::new();
    let mut written: Vec<Vec<u8>> = Vec::new();
    loop {
        assert_eq!(writer.poll(registry.is_cancelled("t1")), WriterPoll::Receive);
        match writer.on_input(registry.receive("t1")) {
            WriterStep::Write(bytes) => {
                written.push(bytes);
                assert_eq!(writer.on_write(WriteOutcome::Written { flushed: true }), WriterPoll::Receive);
            }
            WriterStep::Idle => break,
            WriterStep::Stop(exit) => panic!("stopped: {:?}", exit),
        }
    }
    assert_eq!(written, vec![b"a\n".to_vec(), b"b\n".to_vec(), b"c\n".to_vec()]);
}
