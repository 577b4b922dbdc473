use composable::scheduler::{should_wake, DelayState, Elapsed, Queue, Scheduler};

#[test]
fn queue_orders_deadlines() {
    let mut queue: Queue<char> = Queue::new();
    queue.insert(5, 'a');
    queue.insert(2, 'b');
    queue.insert(9, 'c');

    assert_eq!(queue.peek_next(), Some(2));
    assert_eq!(queue.len(), 3);

    assert_eq!(queue.drain_until(4), vec!['b']);
    assert_eq!(queue.peek_next(), Some(5));
    assert_eq!(queue.drain_until(9), vec!['a', 'c']);
    assert_eq!(queue.peek_next(), None);
    assert_eq!(queue.len(), 0);
}

#[test]
fn equal_deadlines_fire_in_registration_order() {
    let mut queue: Queue<char> = Queue::new();
    queue.insert(3, 'x');
    queue.insert(3, 'y');
    queue.insert(1, 'w');
    queue.insert(3, 'z');

    assert_eq!(queue.drain_until(3), vec!['w', 'x', 'y', 'z']);
}

/// Deadlines registered in either order fire soonest first.
#[test]
fn earlier_deadlines_fire_no_later() {
    let mut queue: Queue<&str> = Queue::new();
    queue.insert(8, "late");
    queue.insert(2, "early");
    assert_eq!(queue.drain_until(10), vec!["early", "late"]);

    let mut queue: Queue<&str> = Queue::new();
    queue.insert(2, "early");
    queue.insert(8, "late");
    assert_eq!(queue.drain_until(10), vec!["early", "late"]);
}

#[test]
fn a_drain_leaves_later_deadlines_queued() {
    let mut queue: Queue<u32> = Queue::new();
    queue.insert(1, 10);
    queue.insert(6, 60);
    assert_eq!(queue.drain_until(5), vec![10]);
    assert_eq!(queue.peek_next(), Some(6));
}

#[test]
fn registration_wakes_the_poller_only_when_sooner() {
    assert!(should_wake(None, 9));
    assert!(should_wake(Some(10), 9));
    assert!(!should_wake(Some(9), 9));
    assert!(!should_wake(Some(3), 9));
}

#[test]
fn only_waiting_entries_fire_when_elapsed() {
    assert_eq!(DelayState::Waiting.on_elapsed(), (DelayState::Ready, Elapsed::Fire));
    assert_eq!(DelayState::New.on_elapsed(), (DelayState::New, Elapsed::Keep));
    assert_eq!(DelayState::Ready.on_elapsed(), (DelayState::Ready, Elapsed::Discard));
    assert_eq!(DelayState::Done.on_elapsed(), (DelayState::Done, Elapsed::Discard));
}

#[test]
fn the_registry_wakes_the_poller_for_sooner_deadlines() {
    let mut scheduler: Scheduler<char> = Scheduler::new();
    assert!(scheduler.add(5, 'a'));
    assert!(!scheduler.add(7, 'b'));
    assert!(scheduler.add(2, 'c'));

    assert_eq!(scheduler.peek_next(), Some(2));
    assert_eq!(scheduler.drain_until(6), vec!['c', 'a']);
    assert_eq!(scheduler.peek_next(), Some(7));
}
