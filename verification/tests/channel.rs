use composable::channel::{channel, Polled, Receiver, Shared};

#[test]
fn values_arrive_in_order_and_in_batches() {
    let mut shared: Shared<u32> = Shared::new();
    let mut receiver: Receiver<u32> = Receiver::new();

    assert!(!shared.send(1));
    assert!(!shared.send(2));
    assert!(!shared.send(3));

    // The first poll hands out the oldest value and buffers the rest.
    assert!(matches!(receiver.poll_next(&mut shared, false), Polled::Ready(Some(1))));
    assert!(matches!(receiver.poll_next(&mut shared, false), Polled::Ready(Some(2))));
    assert!(matches!(receiver.poll_next(&mut shared, false), Polled::Ready(Some(3))));
}

#[test]
fn an_empty_channel_parks_the_receiver_once() {
    let mut shared: Shared<u32> = Shared::new();
    let mut receiver: Receiver<u32> = Receiver::new();

    assert!(matches!(receiver.poll_next(&mut shared, false), Polled::Pending));

    // The first send after parking must fire the waker; later sends must
    // not, until the receiver parks again.
    assert!(shared.send(7));
    assert!(!shared.send(8));

    assert!(matches!(receiver.poll_next(&mut shared, false), Polled::Ready(Some(7))));
    assert!(matches!(receiver.poll_next(&mut shared, false), Polled::Ready(Some(8))));
}

#[test]
fn a_disconnected_empty_channel_ends_the_stream() {
    let (mut shared, mut receiver): (Shared<u32>, Receiver<u32>) = channel();

    assert!(matches!(receiver.poll_next(&mut shared, true), Polled::Ready(None)));

    // Values still queued are handed out before the end of the stream.
    shared.send(9);
    assert!(matches!(receiver.poll_next(&mut shared, true), Polled::Ready(Some(9))));
    assert!(matches!(receiver.poll_next(&mut shared, true), Polled::Ready(None)));
}
