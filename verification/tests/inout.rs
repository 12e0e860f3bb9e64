use smog::builder::BuilderStep1;
use smog::portal::inout::{DriverExt, InOutBack, InOutEvent, InOutFront};
use smog::{CoroPoll, PollError};

async fn create_machine(mut portal: InOutBack<u32, u64>) -> u64 {
    const ROOT_VALUE: u64 = 13;
    portal.send(ROOT_VALUE).await;

    let mut values = Vec::new();
    while values.len() < 2 {
        let value = u64::from(portal.receive().await) * 2;
        portal.send(value).await;
        values.push(value);
    }

    values.iter().sum()
}

#[test]
fn inout_test_valid() {
    let mut driver = BuilderStep1::default().function(create_machine);

    assert_eq!(Ok(CoroPoll::Event(InOutEvent::Yielded(13))), driver.poll());
    assert_eq!(Ok(CoroPoll::Event(InOutEvent::Awaiting)), driver.poll());
    driver.portal().provide(150);
    assert_eq!(Ok(CoroPoll::Event(InOutEvent::Yielded(300))), driver.poll());
    assert_eq!(Ok(CoroPoll::Event(InOutEvent::Awaiting)), driver.poll());
    driver.portal().provide(52);
    assert_eq!(Ok(CoroPoll::Event(InOutEvent::Yielded(104))), driver.poll());
    assert_eq!(Ok(CoroPoll::Result(404)), driver.poll());
}

#[test]
fn inout_test_poll_after_completion() {
    let mut driver = BuilderStep1::default().function(create_machine);

    assert_eq!(Ok(CoroPoll::Event(InOutEvent::Yielded(13))), driver.poll());
    assert_eq!(Ok(CoroPoll::Event(InOutEvent::Awaiting)), driver.poll());
    driver.portal().provide(150);
    assert_eq!(Ok(CoroPoll::Event(InOutEvent::Yielded(300))), driver.poll());
    assert_eq!(Ok(CoroPoll::Event(InOutEvent::Awaiting)), driver.poll());
    driver.portal().provide(52);
    assert_eq!(Ok(CoroPoll::Event(InOutEvent::Yielded(104))), driver.poll());
    assert_eq!(Ok(CoroPoll::Result(404)), driver.poll());

    // Polling after completion is refused.
    assert!(driver.is_finished());
    assert_eq!(Err(PollError::Finished), driver.poll());
}

#[test]
fn inout_test_provide_without_await_1() {
    let mut driver = BuilderStep1::default().function(create_machine);

    // Input provided before the driver has been polled.
    driver.portal().provide(150);
    assert_eq!(Ok(CoroPoll::Event(InOutEvent::Yielded(13))), driver.poll());
    // No await here, since the input was provided early.
    assert_eq!(Ok(CoroPoll::Event(InOutEvent::Yielded(300))), driver.poll());
    assert_eq!(Ok(CoroPoll::Event(InOutEvent::Awaiting)), driver.poll());
    driver.portal().provide(52);
    assert_eq!(Ok(CoroPoll::Event(InOutEvent::Yielded(104))), driver.poll());
    assert_eq!(Ok(CoroPoll::Result(404)), driver.poll());
}

#[test]
fn inout_test_provide_without_await_2() {
    let mut driver = BuilderStep1::default().function(create_machine);

    assert_eq!(Ok(CoroPoll::Event(InOutEvent::Yielded(13))), driver.poll());

    // Input provided before the coroutine has reached its await.
    driver.portal().provide(150);
    // No await here, since the input was provided early.
    assert_eq!(Ok(CoroPoll::Event(InOutEvent::Yielded(300))), driver.poll());
    assert_eq!(Ok(CoroPoll::Event(InOutEvent::Awaiting)), driver.poll());
    driver.portal().provide(52);
    assert_eq!(Ok(CoroPoll::Event(InOutEvent::Yielded(104))), driver.poll());
    assert_eq!(Ok(CoroPoll::Result(404)), driver.poll());
}

#[test]
fn inout_test_poll_after_await() {
    let mut storage = smog::Storage::new(Default::default());
    let mut driver = BuilderStep1::default().storage(&mut storage).function(create_machine);

    assert_eq!(Ok(CoroPoll::Event(InOutEvent::Yielded(13))), driver.poll());
    assert_eq!(Ok(CoroPoll::Event(InOutEvent::Awaiting)), driver.poll());

    // Polling again without providing input: the portal has no event and the coroutine cannot advance.
    assert_eq!(Err(PollError::Stalled), driver.poll());
}

fn drain<St, Fut>(drive: &mut smog::portal::inout::InOutDrive<'_, St, Fut>) -> Vec<u64>
where
    St: smog::AsStorage<Front = smog::portal::inout::InOutFront<u32, u64>, Future = Fut>,
    Fut: std::future::Future,
{
    let mut outputs = Vec::new();
    while let Ok(Some(output)) = drive.next() {
        outputs.push(output);
    }
    outputs
}

#[test]
fn test_facade() {
    let mut facade = BuilderStep1::default().function(create_machine).facade();

    assert!(!facade.has_finished());

    // The facade assumes that either nothing is yielded before the first await or that the caller does not
    // care whether the yield belongs to the input or is an initial yield.

    assert_eq!(drain(&mut facade.drive(150)), vec![13, 300]);
    assert!(!facade.has_finished());

    assert_eq!(drain(&mut facade.drive(52)), vec![104]);
    assert!(facade.has_finished());
    assert_eq!(404, facade.finalize().expect("expected a result"));
}

fn run_to_completion<St>(driver: &mut smog::Driver<St>)
where
    St: smog::AsStorage<Front = smog::portal::inout::InOutFront<u32, u64>>,
    St::Future: std::future::Future<Output = u64>,
{
    assert_eq!(Ok(CoroPoll::Event(InOutEvent::Yielded(13))), driver.poll());
    assert_eq!(Ok(CoroPoll::Event(InOutEvent::Awaiting)), driver.poll());
    driver.portal().provide(1);
    assert_eq!(Ok(CoroPoll::Event(InOutEvent::Yielded(2))), driver.poll());
    assert_eq!(Ok(CoroPoll::Event(InOutEvent::Awaiting)), driver.poll());
    driver.portal().provide(2);
    assert_eq!(Ok(CoroPoll::Event(InOutEvent::Yielded(4))), driver.poll());
    assert_eq!(Ok(CoroPoll::Result(6)), driver.poll());
    assert!(driver.is_finished());
}

#[test]
fn builder_paths() {
    let mut d = BuilderStep1::default().coro(create_machine);
    run_to_completion(&mut d);

    let mut d = BuilderStep1::default().front(InOutFront::default()).coro(create_machine);
    run_to_completion(&mut d);

    let storage = Box::new(smog::Storage::new(InOutFront::default()));
    let mut d = BuilderStep1::default().storage(storage).front(InOutFront::default()).function(create_machine);
    run_to_completion(&mut d);

    let mut storage = smog::Storage::default();
    let mut d = BuilderStep1::default().storage(&mut storage).coro(create_machine);
    run_to_completion(&mut d);

    let mut d = smog::driver_with_storage(Box::new(smog::Storage::new(InOutFront::default())), create_machine);
    run_to_completion(&mut d);
}

#[test]
fn facade_from_driver_function() {
    let mut facade = smog::driver(create_machine).facade();
    assert_eq!(drain(&mut facade.drive(150)), vec![13, 300]);
    // The coroutine awaits again: a second input is accepted.
    assert_eq!(drain(&mut facade.drive(52)), vec![104]);
    assert!(facade.has_finished());
    assert_eq!(Some(404), facade.finalize());
}

#[test]
fn input_is_accepted_once_until_taken() {
    let (front, back) = smog::portal::inout::InOutPortal::new();
    let mut storage = smog::Storage::new(front);
    storage.supply_future(create_machine(back));
    let mut driver = smog::Driver::new(Box::new(storage));
    driver.portal().provide(150);
    // The first value waits in the slot until the coroutine takes it.
    assert!(!driver.portal().accepts_input());
    assert_eq!(Ok(CoroPoll::Event(InOutEvent::Yielded(13))), driver.poll());
    assert_eq!(Ok(CoroPoll::Event(InOutEvent::Yielded(300))), driver.poll());
    assert_eq!(Ok(CoroPoll::Event(InOutEvent::Awaiting)), driver.poll());
    assert!(driver.portal().accepts_input());
}
