use smog::portal::inout::{InOutBack, InOutEvent, InOutPortal};
use smog::{CoroPoll, Driver, PollError, Storage};

async fn create_machine(mut portal: InOutBack<u32, u64>) -> u64 {
    const ROOT_VALUE: u64 = 13;
    portal.send(ROOT_VALUE).await;

    let mut values = Vec::new();
    while values.len() < 2 {
        let value = u64::from(portal.receive().await) * 2;
        portal.send(value).await;
        values.push(value);
    }

    values.iter().sum()
}

#[test]
fn event_test_valid() {
    let (front, back) = InOutPortal::new();
    let mut storage = Storage::new(front);
    storage.supply_future(create_machine(back));
    let mut coro = Driver::new(&mut storage);

    assert_eq!(Ok(CoroPoll::Event(InOutEvent::Yielded(13))), coro.poll());
    assert_eq!(Ok(CoroPoll::Event(InOutEvent::Awaiting)), coro.poll());
    coro.portal().provide(150);
    assert_eq!(Ok(CoroPoll::Event(InOutEvent::Yielded(300))), coro.poll());
    assert_eq!(Ok(CoroPoll::Event(InOutEvent::Awaiting)), coro.poll());
    coro.portal().provide(52);
    assert_eq!(Ok(CoroPoll::Event(InOutEvent::Yielded(104))), coro.poll());
    assert_eq!(Ok(CoroPoll::Result(404)), coro.poll());
}

#[test]
fn event_test_poll_after_completion() {
    let (front, back) = InOutPortal::new();
    let mut storage = Storage::new(front);
    storage.supply_future(create_machine(back));
    let mut coro = Driver::new(&mut storage);

    assert_eq!(Ok(CoroPoll::Event(InOutEvent::Yielded(13))), coro.poll());
    assert_eq!(Ok(CoroPoll::Event(InOutEvent::Awaiting)), coro.poll());
    coro.portal().provide(150);
    assert_eq!(Ok(CoroPoll::Event(InOutEvent::Yielded(300))), coro.poll());
    assert_eq!(Ok(CoroPoll::Event(InOutEvent::Awaiting)), coro.poll());
    coro.portal().provide(52);
    assert_eq!(Ok(CoroPoll::Event(InOutEvent::Yielded(104))), coro.poll());
    assert_eq!(Ok(CoroPoll::Result(404)), coro.poll());

    assert_eq!(Err(PollError::Finished), coro.poll());
}

#[test]
fn event_test_poll_after_await() {
    let (front, back) = InOutPortal::new();
    let mut storage = Storage::new(front);
    storage.supply_future(create_machine(back));
    let mut coro = Driver::new(&mut storage);

    assert_eq!(Ok(CoroPoll::Event(InOutEvent::Yielded(13))), coro.poll());
    assert_eq!(Ok(CoroPoll::Event(InOutEvent::Awaiting)), coro.poll());
    assert_eq!(Err(PollError::Stalled), coro.poll());
}

#[test]
fn portal_closes_once_the_result_is_out() {
    let (front, back) = InOutPortal::new();
    let mut storage = Storage::new(front);
    storage.supply_future(create_machine(back));
    {
        let mut coro = Driver::new(&mut storage);
        assert_eq!(Ok(CoroPoll::Event(InOutEvent::Yielded(13))), coro.poll());
        assert_eq!(Ok(CoroPoll::Event(InOutEvent::Awaiting)), coro.poll());
        coro.portal().provide(150);
        assert_eq!(Ok(CoroPoll::Event(InOutEvent::Yielded(300))), coro.poll());
        assert_eq!(Ok(CoroPoll::Event(InOutEvent::Awaiting)), coro.poll());
        coro.portal().provide(52);
        assert_eq!(Ok(CoroPoll::Event(InOutEvent::Yielded(104))), coro.poll());
        assert_eq!(Ok(CoroPoll::Result(404)), coro.poll());
        // The portal is closed once the coroutine has completed.
        assert!(!coro.portal().accepts_input());
    }
}
