use httpmock_adapter::{LocalMockServerAdapter, ShutdownOutcome};
use std::sync::Arc;

#[test]
fn shutdown_sends_exactly_once() {
    let (tx, mut rx) = tokio::sync::oneshot::channel::<()>();
    let mut handle = LocalMockServerAdapter::new(tx, Arc::new(5u32));
    assert_eq!(handle.shutdown(), ShutdownOutcome::Sent);
    assert_eq!(rx.try_recv(), Ok(()));
    assert_eq!(handle.shutdown(), ShutdownOutcome::AlreadyFired);
    assert_eq!(handle.shutdown(), ShutdownOutcome::AlreadyFired);
}

#[test]
fn shutdown_after_receiver_is_gone_does_not_fail() {
    let (tx, rx) = tokio::sync::oneshot::channel::<()>();
    drop(rx);
    let mut handle = LocalMockServerAdapter::new(tx, Arc::new(()));
    assert_eq!(handle.shutdown(), ShutdownOutcome::ReceiverGone);
    assert_eq!(handle.shutdown(), ShutdownOutcome::AlreadyFired);
}
