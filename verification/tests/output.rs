use smog::portal::output::{OutBack, OutEvent, OutPortal};
use smog::{driver, CoroPoll, Driver, PollError, Storage};

async fn create_machine(mut portal: OutBack<u64>, input: &[u32]) -> u64 {
    let mut values = Vec::new();
    for value in input.iter().take(2) {
        let value = u64::from(*value) * 2;
        portal.send(value).await;
        values.push(value);
    }

    values.iter().sum()
}

#[test]
fn output_test_valid() {
    let mut driver = driver(|back| create_machine(back, &[150, 52, 666]));

    assert_eq!(Ok(CoroPoll::Event(OutEvent::Yielded(300))), driver.poll());
    assert_eq!(Ok(CoroPoll::Event(OutEvent::Yielded(104))), driver.poll());
    assert_eq!(Ok(CoroPoll::Result(404)), driver.poll());
}

#[test]
fn output_test_poll_after_completion() {
    let mut driver = driver(|back| create_machine(back, &[150, 52, 666]));

    assert_eq!(Ok(CoroPoll::Event(OutEvent::Yielded(300))), driver.poll());
    assert_eq!(Ok(CoroPoll::Event(OutEvent::Yielded(104))), driver.poll());
    assert_eq!(Ok(CoroPoll::Result(404)), driver.poll());

    // Polling after completion is refused.
    assert_eq!(Err(PollError::Finished), driver.poll());
}

#[test]
fn output_with_portal_pair() {
    let (front, back) = OutPortal::new();
    let mut storage = Storage::new(front);
    storage.supply_future(create_machine(back, &[150, 52, 666]));
    let mut coro = Driver::new(Box::new(storage));

    assert_eq!(Ok(CoroPoll::Event(OutEvent::Yielded(300))), coro.poll());
    assert_eq!(Ok(CoroPoll::Event(OutEvent::Yielded(104))), coro.poll());
    assert_eq!(Ok(CoroPoll::Result(404)), coro.poll());
}

#[test]
fn event_pending_at_completion_comes_before_the_result() {
    // The coroutine leaves a value in the portal without awaiting its send, and completes.
    let mut driver = driver(|mut back: OutBack<u32>| async move {
        let _ = back.send(7);
        back
    });

    assert_eq!(Ok(CoroPoll::Event(OutEvent::Yielded(7))), driver.poll().map(|p| match p {
        CoroPoll::Event(e) => CoroPoll::Event(e),
        CoroPoll::Result(_) => CoroPoll::Result(()),
    }));
    assert!(matches!(driver.poll(), Ok(CoroPoll::Result(_))));
    assert!(driver.is_finished());
    assert_eq!(Err(PollError::Finished), driver.poll().map(|_| ()));
}
