use smog::builder::BuilderStep1;
use smog::portal::input::{InBack, InEvent};
use smog::{CoroPoll, PollError};

async fn create_machine(mut portal: InBack<u32>) -> u64 {
    let mut values = Vec::new();
    while values.len() < 2 {
        let value = u64::from(portal.receive().await) * 2;
        values.push(value);
    }

    values.iter().sum()
}

#[test]
fn input_test_valid() {
    let mut driver = BuilderStep1::default().function(create_machine);

    assert_eq!(Ok(CoroPoll::Event(InEvent::Awaiting)), driver.poll());
    driver.portal().provide(150);
    assert_eq!(Ok(CoroPoll::Event(InEvent::Awaiting)), driver.poll());
    driver.portal().provide(52);
    assert_eq!(Ok(CoroPoll::Result(404)), driver.poll());
}

/// Like `input_test_valid`, but without the poll before the first input.
#[test]
fn test_valid_without_prepoll() {
    let mut driver = BuilderStep1::default().function(create_machine);

    driver.portal().provide(150);
    assert_eq!(Ok(CoroPoll::Event(InEvent::Awaiting)), driver.poll());
    driver.portal().provide(52);
    assert_eq!(Ok(CoroPoll::Result(404)), driver.poll());
}

#[test]
fn input_test_poll_after_completion() {
    let mut driver = BuilderStep1::default().function(create_machine);

    assert_eq!(Ok(CoroPoll::Event(InEvent::Awaiting)), driver.poll());
    driver.portal().provide(150);
    assert_eq!(Ok(CoroPoll::Event(InEvent::Awaiting)), driver.poll());
    driver.portal().provide(52);
    assert_eq!(Ok(CoroPoll::Result(404)), driver.poll());

    // Polling after completion is refused.
    assert_eq!(Err(PollError::Finished), driver.poll());
}

#[test]
fn input_test_provide_without_await() {
    let mut driver = BuilderStep1::default().function(create_machine);

    driver.portal().provide(150);
    assert_eq!(Ok(CoroPoll::Event(InEvent::Awaiting)), driver.poll());
    driver.portal().provide(52);
    assert_eq!(Ok(CoroPoll::Result(404)), driver.poll());
}

#[test]
fn input_test_poll_after_await() {
    let mut driver = BuilderStep1::default().function(create_machine);

    assert_eq!(Ok(CoroPoll::Event(InEvent::Awaiting)), driver.poll());

    // Polling again without providing input: the portal has no event and the coroutine cannot advance.
    assert_eq!(Err(PollError::Stalled), driver.poll());
}

#[test]
fn provide_twice_is_not_accepted() {
    let mut driver = BuilderStep1::default().function(create_machine);

    assert!(driver.portal().accepts_input());
    driver.portal().provide(150);
    // The first value has not been taken yet: the slot is occupied.
    assert!(!driver.portal().accepts_input());
    assert_eq!(Ok(CoroPoll::Event(InEvent::Awaiting)), driver.poll());
    assert!(driver.portal().accepts_input());
    driver.portal().provide(52);
    assert_eq!(Ok(CoroPoll::Result(404)), driver.poll());
    // The coroutine has completed: its portal is closed.
    assert!(!driver.portal().accepts_input());
}

/// A coroutine that never completes and never uses its portal stalls the driver.
#[test]
fn test_infinite_loop_future() {
    struct InfiniteLoopFuture;

    impl std::future::Future for InfiniteLoopFuture {
        type Output = ();

        fn poll(self: std::pin::Pin<&mut Self>, _cx: &mut std::task::Context<'_>) -> std::task::Poll<()> {
            std::task::Poll::Pending
        }
    }

    let coro = |_: InBack<u32>| async {
        InfiniteLoopFuture.await;
    };

    let mut driver = smog::driver(coro);
    assert_eq!(Err(PollError::Stalled), driver.poll());
}
