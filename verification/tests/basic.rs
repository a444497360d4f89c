use event_channel::channel;
use event_channel::sync_channel;
use event_channel::Event;

#[test]
fn basic_channel() {
    let (tx, mut rx) = channel::<()>();

    // (got_msg, got_closed)
    let mut got = (false, false);

    rx.register();

    // nothing is sent, nothing is received
    for evt in rx.process_events() {
        match evt {
            Event::Msg(()) => {
                got.0 = true;
            }
            Event::Closed => {
                got.1 = true;
            }
        }
    }
    assert_eq!(got, (false, false));

    // a message is sent
    tx.send(&mut rx, ()).unwrap();
    for evt in rx.process_events() {
        match evt {
            Event::Msg(()) => {
                got.0 = true;
            }
            Event::Closed => {
                got.1 = true;
            }
        }
    }
    assert_eq!(got, (true, false));

    // the sender is dropped
    tx.close(&mut rx);
    for evt in rx.process_events() {
        match evt {
            Event::Msg(()) => {
                got.0 = true;
            }
            Event::Closed => {
                got.1 = true;
            }
        }
    }
    assert_eq!(got, (true, true));
}

#[test]
fn basic_sync_channel() {
    let (tx, mut rx) = sync_channel::<()>(2);

    let mut received = (0u32, false);

    rx.register();

    // nothing is sent, nothing is received
    for evt in rx.process_events() {
        match evt {
            Event::Msg(()) => {
                received.0 += 1;
            }
            Event::Closed => {
                received.1 = true;
            }
        }
    }
    assert_eq!(received.0, 0);
    assert!(!received.1);

    // fill the channel
    tx.send(&mut rx, ()).unwrap();
    tx.send(&mut rx, ()).unwrap();
    assert!(tx.try_send(&mut rx, ()).is_err());

    // empty it
    for evt in rx.process_events() {
        match evt {
            Event::Msg(()) => {
                received.0 += 1;
            }
            Event::Closed => {
                received.1 = true;
            }
        }
    }
    assert_eq!(received.0, 2);
    assert!(!received.1);

    // send a final message and drop the sender
    tx.send(&mut rx, ()).unwrap();
    tx.close(&mut rx);

    // final read of the channel
    for evt in rx.process_events() {
        match evt {
            Event::Msg(()) => {
                received.0 += 1;
            }
            Event::Closed => {
                received.1 = true;
            }
        }
    }
    assert_eq!(received.0, 3);
    assert!(received.1);
}
