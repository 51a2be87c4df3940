use std::sync::{Arc, Mutex, Weak};
use std::time::{Duration, Instant};

use blatann::publisher::{Downgrade, Publisher, Subscriber, WeakSubscriber};
use blatann::subscription::{HandlerOutcome, SubscriberAction};
use blatann::waitable::{take_pending, AsyncEventHandler, EventArgs, EventWaitable, WaitError, Waitable};

struct WeakRef<S, E>(Weak<dyn Subscriber<S, E>>);

impl<S, E> Clone for WeakRef<S, E> {
    fn clone(&self) -> Self {
        WeakRef(self.0.clone())
    }
}

impl<S, E> WeakSubscriber<S, E> for WeakRef<S, E> {
    fn deliver(&self, sender: Arc<S>, event: E) -> HandlerOutcome {
        match self.0.upgrade() {
            Some(handler) => HandlerOutcome::Handled(handler.handle(sender, event)),
            None => HandlerOutcome::Dropped,
        }
    }
}

impl<S: 'static, E: 'static, T: Subscriber<S, E> + 'static> Downgrade<T> for WeakRef<S, E> {
    fn downgrade(handler: &Arc<T>) -> Self {
        let weak: Weak<T> = Arc::downgrade(handler);
        WeakRef(weak)
    }
}

#[derive(Debug, PartialEq)]
struct Link {
    channel: u32,
}

type Callback = Box<dyn FnOnce(EventArgs<Link, u32>)>;
type Connect = Publisher<WeakRef<Link, u32>>;
type ConnectWaitable = EventWaitable<Link, u32, Callback>;

#[test]
fn wait_timeout_without_event_times_out() {
    let publisher: Connect = Publisher::new("Connect");
    let waitable: Arc<ConnectWaitable> = EventWaitable::new(&publisher);
    let start = Instant::now();
    let result = waitable.wait_timeout(Duration::from_millis(100));
    let elapsed = start.elapsed();
    assert!(matches!(result, Err(WaitError::Timeout)));
    assert!(elapsed >= Duration::from_millis(90));
    assert_eq!(publisher.subscriber_count(), 1);
}

#[test]
fn waitable_delivers_to_waiter_and_every_callback_once() {
    let publisher: Connect = Publisher::new("Connect");
    let waitable: Arc<ConnectWaitable> = EventWaitable::new(&publisher);
    let seen = Arc::new(Mutex::new(Vec::new()));
    for tag in 0..3u32 {
        let seen = seen.clone();
        waitable.then(Box::new(move |(sender, event): EventArgs<Link, u32>| {
            seen.lock().unwrap().push((tag, sender.channel, event));
        }));
    }
    publisher.dispatch(Arc::new(Link { channel: 11 }), 42);
    let (sender, event) = waitable.wait().unwrap();
    assert_eq!(sender.channel, 11);
    assert_eq!(event, 42);
    assert_eq!(*seen.lock().unwrap(), vec![(0, 11, 42), (1, 11, 42), (2, 11, 42)]);
    assert_eq!(publisher.subscriber_count(), 0);

    publisher.dispatch(Arc::new(Link { channel: 12 }), 43);
    assert_eq!(seen.lock().unwrap().len(), 3);
    assert!(matches!(waitable.wait(), Err(WaitError::ChannelClosed)));
}

#[test]
fn timeout_does_not_consume_the_event() {
    let publisher: Connect = Publisher::new("Connect");
    let waitable: Arc<ConnectWaitable> = EventWaitable::new(&publisher);
    let count = Arc::new(Mutex::new(0u32));
    let c = count.clone();
    waitable.then(Box::new(move |(_sender, event): EventArgs<Link, u32>| {
        *c.lock().unwrap() += event;
    }));
    assert!(matches!(waitable.wait_timeout(Duration::from_millis(10)), Err(WaitError::Timeout)));
    assert_eq!(publisher.subscriber_count(), 1);
    publisher.dispatch(Arc::new(Link { channel: 1 }), 5);
    let (_sender, event) = waitable.wait().unwrap();
    assert_eq!(event, 5);
    assert_eq!(*count.lock().unwrap(), 5);
    assert!(matches!(waitable.wait_timeout(Duration::from_millis(10)), Err(WaitError::ChannelClosed)));
}

#[test]
fn dropped_waitable_is_reaped() {
    let publisher: Connect = Publisher::new("Connect");
    let waitable: Arc<ConnectWaitable> = EventWaitable::new(&publisher);
    assert_eq!(publisher.subscriber_count(), 1);
    drop(waitable);
    publisher.dispatch(Arc::new(Link { channel: 1 }), 1);
    assert_eq!(publisher.subscriber_count(), 0);
}

#[test]
fn fire_asks_to_unsubscribe() {
    let publisher: Connect = Publisher::new("Connect");
    let waitable: Arc<ConnectWaitable> = EventWaitable::new(&publisher);
    let action = waitable.fire(Arc::new(Link { channel: 3 }), 9);
    assert_eq!(action, Some(SubscriberAction::Unsubscribe));
    let (sender, event) = waitable.wait_timeout(Duration::from_millis(10)).unwrap();
    assert_eq!((sender.channel, event), (3, 9));
    assert!(matches!(waitable.wait(), Err(WaitError::ChannelClosed)));
}

#[test]
fn take_pending_empties_the_queue() {
    let mut pending = vec![1, 2, 3];
    let taken = take_pending(&mut pending);
    assert_eq!(taken, vec![1, 2, 3]);
    assert!(pending.is_empty());
    assert!(take_pending(&mut pending).is_empty());
}
