use jlrs::channel::{RecvOutcome, RequestChannel, SendOutcome};
use jlrs::error::JlrsError;
use jlrs::persistent::submit;

#[test]
fn requests_leave_in_the_order_they_were_accepted() {
    let mut ch: RequestChannel<u32> = RequestChannel::new(8);
    for i in [5u32, 1, 4, 2, 3] {
        assert!(matches!(ch.try_send(i), SendOutcome::Sent));
    }
    let mut got = Vec::new();
    while let RecvOutcome::Message(m) = ch.try_recv() {
        got.push(m);
    }
    assert_eq!(got, vec![5, 1, 4, 2, 3]);
}

#[test]
fn capacity_one_makes_the_second_call_wait() {
    let mut ch: RequestChannel<&str> = RequestChannel::new(1);
    assert!(matches!(submit(&mut ch, "first"), Ok(None)));
    let second = match submit(&mut ch, "second") {
        Ok(Some(back)) => back,
        other => panic!("expected to wait, got {:?}", other),
    };
    assert_eq!(ch.len(), 1);
    assert!(matches!(ch.try_recv(), RecvOutcome::Message("first")));
    assert!(matches!(submit(&mut ch, second), Ok(None)));
    assert!(matches!(ch.try_recv(), RecvOutcome::Message("second")));
    assert!(matches!(ch.try_recv(), RecvOutcome::Empty));
}

#[test]
fn submitting_after_the_loop_exited_is_unavailable() {
    let mut ch: RequestChannel<u8> = RequestChannel::new(4);
    ch.close_receiver();
    assert!(!ch.receiver_open());
    assert!(matches!(submit(&mut ch, 1), Err(JlrsError::Unavailable)));
    assert!(matches!(ch.try_send(2), SendOutcome::Closed(2)));
    assert_eq!(ch.len(), 0);
}

#[test]
fn receiver_drains_before_it_sees_the_close() {
    let mut ch: RequestChannel<u8> = RequestChannel::new(2);
    assert!(matches!(ch.try_send(7), SendOutcome::Sent));
    ch.close_senders();
    assert!(matches!(ch.try_recv(), RecvOutcome::Message(7)));
    assert!(matches!(ch.try_recv(), RecvOutcome::Closed));
    assert_eq!(ch.capacity(), 2);
}
