use event_channel::channel;
use event_channel::sync_channel;
use event_channel::Event;
use event_channel::SendError;
use event_channel::TrySendError;

#[test]
fn drain_observes_send_order() {
    let (tx, mut rx) = channel::<u32>();
    rx.register();
    tx.send(&mut rx, 1).unwrap();
    tx.send(&mut rx, 2).unwrap();
    tx.send(&mut rx, 3).unwrap();
    let events = rx.process_events();
    assert_eq!(events.len(), 3);
    assert!(matches!(events[0], Event::Msg(1)));
    assert!(matches!(events[1], Event::Msg(2)));
    assert!(matches!(events[2], Event::Msg(3)));
}

#[test]
fn unbounded_send_succeeds_at_any_depth() {
    let (tx, mut rx) = channel::<u32>();
    rx.register();
    for i in 0..100u32 {
        tx.send(&mut rx, i).unwrap();
    }
    let events = rx.process_events();
    assert_eq!(events.len(), 100);
    for (i, evt) in events.into_iter().enumerate() {
        match evt {
            Event::Msg(v) => assert_eq!(v as usize, i),
            Event::Closed => panic!("no sender was released"),
        }
    }
}

#[test]
fn sync_full_then_drain_frees_space() {
    let (tx, mut rx) = sync_channel::<u32>(2);
    rx.register();
    tx.try_send(&mut rx, 10).unwrap();
    tx.try_send(&mut rx, 20).unwrap();
    match tx.try_send(&mut rx, 30) {
        Err(TrySendError::Full(v)) => assert_eq!(v, 30),
        _ => panic!("a third send into a channel of capacity 2 must report Full"),
    }
    let events = rx.process_events();
    assert_eq!(events.len(), 2);
    assert!(matches!(events[0], Event::Msg(10)));
    assert!(matches!(events[1], Event::Msg(20)));
    tx.try_send(&mut rx, 40).unwrap();
}

#[test]
fn partial_release_does_not_close() {
    let (tx, mut rx) = channel::<u32>();
    rx.register();
    let tx2 = tx.duplicate(&mut rx);
    tx.send(&mut rx, 1).unwrap();
    tx.send(&mut rx, 2).unwrap();
    tx.close(&mut rx);
    let events = rx.process_events();
    assert_eq!(events.len(), 2);
    assert!(matches!(events[0], Event::Msg(1)));
    assert!(matches!(events[1], Event::Msg(2)));
    tx2.close(&mut rx);
    let events = rx.process_events();
    assert_eq!(events.len(), 1);
    assert!(matches!(events[0], Event::Closed));
}

#[test]
fn closed_after_pending_messages() {
    let (tx, mut rx) = channel::<u32>();
    rx.register();
    tx.send(&mut rx, 7).unwrap();
    tx.close(&mut rx);
    let events = rx.process_events();
    assert_eq!(events.len(), 2);
    assert!(matches!(events[0], Event::Msg(7)));
    assert!(matches!(events[1], Event::Closed));
}

#[test]
fn drain_without_pending_is_noop() {
    let (tx, mut rx) = channel::<u32>();
    rx.register();
    assert!(rx.process_events().is_empty());
    tx.send(&mut rx, 1).unwrap();
    assert_eq!(rx.process_events().len(), 1);
    // the signal was consumed with the value: a second drain sees nothing
    assert!(rx.process_events().is_empty());
}

#[test]
fn spurious_wakeup_is_noop() {
    let (tx, mut rx) = channel::<u32>();
    rx.register();
    // a released duplicate leaves the signal pending with nothing queued
    let tx2 = tx.duplicate(&mut rx);
    tx2.close(&mut rx);
    assert!(rx.process_events().is_empty());
    tx.send(&mut rx, 5).unwrap();
    let events = rx.process_events();
    assert_eq!(events.len(), 1);
    assert!(matches!(events[0], Event::Msg(5)));
}

#[test]
fn unbounded_scenario() {
    let (tx, mut rx) = channel::<()>();
    rx.register();
    tx.send(&mut rx, ()).unwrap();
    let events = rx.process_events();
    assert_eq!(events.len(), 1);
    assert!(matches!(events[0], Event::Msg(())));
    tx.close(&mut rx);
    let events = rx.process_events();
    assert_eq!(events.len(), 1);
    assert!(matches!(events[0], Event::Closed));
}

#[test]
fn two_handles_two_values() {
    let (tx, mut rx) = channel::<u32>();
    rx.register();
    let tx2 = tx.duplicate(&mut rx);
    tx.send(&mut rx, 1).unwrap();
    tx2.send(&mut rx, 2).unwrap();
    let events = rx.process_events();
    assert_eq!(events.len(), 2);
    let mut values = Vec::new();
    for evt in events {
        match evt {
            Event::Msg(v) => values.push(v),
            Event::Closed => panic!("both handles are still alive"),
        }
    }
    assert!(values == vec![1, 2] || values == vec![2, 1]);
}

#[test]
fn send_after_consumer_close_fails() {
    let (tx, mut rx) = channel::<u32>();
    rx.close();
    match tx.send(&mut rx, 5) {
        Err(SendError(v)) => assert_eq!(v, 5),
        Ok(()) => panic!("a send without a consumer must fail"),
    }
}

#[test]
fn sync_send_after_consumer_close_fails() {
    let (tx, mut rx) = sync_channel::<u32>(4);
    rx.close();
    match tx.try_send(&mut rx, 6) {
        Err(TrySendError::Disconnected(v)) => assert_eq!(v, 6),
        _ => panic!("a non-blocking send without a consumer must report Disconnected"),
    }
    match tx.send(&mut rx, 7) {
        Err(SendError(v)) => assert_eq!(v, 7),
        Ok(()) => panic!("a blocking send without a consumer must fail"),
    }
}

#[test]
fn zero_capacity_is_always_full() {
    let (tx, mut rx) = sync_channel::<u32>(0);
    rx.register();
    match tx.try_send(&mut rx, 1) {
        Err(TrySendError::Full(v)) => assert_eq!(v, 1),
        _ => panic!("a channel of capacity 0 must refuse every non-blocking send"),
    }
}

#[test]
fn lifecycle_keeps_queue() {
    let (tx, mut rx) = channel::<u32>();
    rx.register();
    rx.reregister();
    tx.send(&mut rx, 3).unwrap();
    rx.unregister();
    rx.register();
    let events = rx.process_events();
    assert_eq!(events.len(), 1);
    assert!(matches!(events[0], Event::Msg(3)));
}

#[test]
fn consumer_close_discards_queued_values() {
    let (tx, mut rx) = channel::<u32>();
    rx.register();
    tx.send(&mut rx, 1).unwrap();
    tx.send(&mut rx, 2).unwrap();
    rx.close();
    // the values are gone, and the next send is refused
    assert!(tx.send(&mut rx, 3).is_err());
}
