use ark::pump::CopyAction;
use ark::pump::CopyEvent;
use ark::pump::CopyOutcome;
use ark::pump::CopyStream;
use ark::pump::Ending;
use ark::pump::COPY_BUFFER_SIZE;

/// Drive a copy loop over `chunks` read in turn, with a writer that never
/// fails, and return the bytes written and flushed plus the outcome.
fn run_copy(chunks: &[&[u8]]) -> (Vec<u8>, CopyOutcome) {
    let mut stream = CopyStream::new();
    let mut delivered = Vec::new();
    let mut pending: Vec<u8> = Vec::new();
    let mut next = 0;
    let mut action = CopyAction::Read;
    loop {
        let event = match action {
            CopyAction::Read => {
                let chunk = if next < chunks.len() { chunks[next].to_vec() } else { Vec::new() };
                next += 1;
                CopyEvent::Read(chunk)
            },
            CopyAction::WriteAll(bytes) => {
                pending = bytes;
                CopyEvent::Written
            },
            CopyAction::Flush => {
                delivered.extend_from_slice(&pending);
                CopyEvent::Flushed
            },
            CopyAction::Finish(outcome) => return (delivered, outcome),
        };
        action = stream.step(event);
    }
}

#[test]
fn copy_delivers_every_chunk_in_order() {
    let (delivered, outcome) = run_copy(&[b"Content-Length: 2\r\n\r\n", b"{}", b"x"]);
    assert_eq!(outcome, CopyOutcome::Completed);
    assert_eq!(delivered, b"Content-Length: 2\r\n\r\n{}x".to_vec());
}

#[test]
fn copy_of_empty_input_completes_at_once() {
    let (delivered, outcome) = run_copy(&[]);
    assert_eq!(outcome, CopyOutcome::Completed);
    assert!(delivered.is_empty());
}

#[test]
fn read_chunk_is_written_whole_then_flushed() {
    let mut stream = CopyStream::new();
    let action = stream.step(CopyEvent::Read(vec![1, 2, 3]));
    match action {
        CopyAction::WriteAll(bytes) => assert_eq!(bytes, vec![1, 2, 3]),
        _ => panic!("expected a write"),
    }
    assert!(matches!(stream.step(CopyEvent::Written), CopyAction::Flush));
    assert!(matches!(stream.step(CopyEvent::Flushed), CopyAction::Read));
    assert!(!stream.is_finished());
}

#[test]
fn read_failure_ends_copy_with_failure() {
    let mut stream = CopyStream::new();
    let action = stream.step(CopyEvent::ReadFailed);
    assert!(matches!(action, CopyAction::Finish(CopyOutcome::Failed)));
    assert!(stream.is_finished());
}

#[test]
fn write_failure_ends_copy_with_failure() {
    let mut stream = CopyStream::new();
    let _ = stream.step(CopyEvent::Read(vec![7]));
    let action = stream.step(CopyEvent::WriteFailed);
    assert!(matches!(action, CopyAction::Finish(CopyOutcome::Failed)));
}

#[test]
fn flush_failure_ends_copy_with_failure() {
    let mut stream = CopyStream::new();
    let _ = stream.step(CopyEvent::Read(vec![7]));
    let _ = stream.step(CopyEvent::Written);
    let action = stream.step(CopyEvent::FlushFailed);
    assert!(matches!(action, CopyAction::Finish(CopyOutcome::Failed)));
    assert!(stream.is_finished());
}

#[test]
fn copy_buffer_is_eight_kib() {
    assert_eq!(COPY_BUFFER_SIZE, 8192);
}

#[test]
fn endings_are_distinct() {
    assert_ne!(Ending::StdinClosed, Ending::TcpClosed);
    let copy = Ending::TcpClosed;
    assert_eq!(copy, Ending::TcpClosed);
}
