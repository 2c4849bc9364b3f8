use wiiland::diagnostics::{DiagnosticSender, MAX_RECORD_BYTES, QUEUE_RECORDS};

#[test]
fn stalled_writer_has_bounded_queue_and_does_not_block_producer() {
    let mut sender = DiagnosticSender::new();
    for _ in 0..QUEUE_RECORDS + 3 {
        sender.send("event");
    }
    assert_eq!(sender.dropped(), 3);
    sender.send(&"x".repeat(MAX_RECORD_BYTES + 1));
    assert_eq!(sender.dropped(), 4);
    assert_eq!(sender.len(), QUEUE_RECORDS);
}

#[test]
fn closed_consumer_counts_loss_without_panicking() {
    let mut sender = DiagnosticSender::new();
    sender.close();
    sender.send("event");
    assert_eq!(sender.dropped(), 1);
}

#[test]
fn the_writer_tells_of_losses_once() {
    let mut sender = DiagnosticSender::new();
    for _ in 0..QUEUE_RECORDS + 2 {
        sender.send("event");
    }
    let first = sender.take().unwrap();
    assert_eq!(first.notice.unwrap(), "wiilandd: diagnostics: dropped 2 records");
    assert_eq!(first.line, "event");
    assert!(sender.take().unwrap().notice.is_none());
}
