use smog::portal::inout::{InOutEvent, InOutState};
use smog::portal::input::{InEvent, InState, ProvideError};
use smog::portal::output::{OutEvent, OutState};
use smog::{settle, CoroPoll, CoroState, PollError};

#[test]
fn provided_value_is_received() {
    // Provided after the await was reported.
    let mut s: InState<u32> = InState::AwaitingConfirmed;
    assert_eq!(Ok(()), s.provide(150));
    assert!(s.begin_receive());
    assert_eq!(Some(150), s.poll_receive());
    assert!(matches!(s, InState::Neutral));
    assert_eq!(None, s.poll_receive());

    // Provided before the receive started.
    let mut s: InState<u32> = InState::Neutral;
    assert_eq!(Ok(()), s.provide(52));
    assert!(s.begin_receive());
    assert!(matches!(s, InState::FrontProvided(52)));
    assert_eq!(Some(52), s.poll_receive());
    assert!(matches!(s, InState::Neutral));
}

#[test]
fn await_reported_once() {
    let mut s: InState<u32> = InState::Neutral;
    assert!(s.begin_receive());
    assert_eq!(None, s.poll_receive());
    assert_eq!(Some(InEvent::Awaiting), s.poll_front());
    assert_eq!(None, s.poll_front());
    assert!(matches!(s, InState::AwaitingConfirmed));
}

#[test]
fn refused_provides() {
    let mut s: InState<u32> = InState::AwaitingSignalled;
    assert_eq!(Err(ProvideError::NotYetConfirmed), s.provide(1));
    assert!(matches!(s, InState::AwaitingSignalled));

    let mut s: InState<u32> = InState::FrontProvided(3);
    assert_eq!(Err(ProvideError::SlotOccupied), s.provide(1));
    assert!(matches!(s, InState::FrontProvided(3)));

    let mut s: InState<u32> = InState::Closed;
    assert_eq!(Err(ProvideError::Closed), s.provide(1));
    assert!(matches!(s, InState::Closed));
}

#[test]
fn refused_receives() {
    let mut s: InState<u32> = InState::AwaitingSignalled;
    assert!(!s.begin_receive());
    let mut s: InState<u32> = InState::AwaitingConfirmed;
    assert!(!s.begin_receive());
    let mut s: InState<u32> = InState::Closed;
    assert!(!s.begin_receive());
    assert!(matches!(s, InState::Closed));
}

#[test]
fn sent_value_is_yielded_once() {
    let mut s: OutState<u64> = OutState::Neutral;
    assert!(s.begin_send(300));
    assert!(!s.is_send_complete());
    assert!(!s.begin_send(7));
    assert_eq!(Some(OutEvent::Yielded(300)), s.poll_front());
    assert!(s.is_send_complete());
    assert_eq!(None, s.poll_front());

    let mut s: OutState<u64> = OutState::Closed;
    assert!(!s.begin_send(1));
    assert!(!s.is_send_complete());
}

#[test]
fn yield_before_await() {
    let mut s: InOutState<u32, u64> = InOutState { input: InState::AwaitingSignalled, output: OutState::Yielded(13) };
    assert_eq!(Some(InOutEvent::Yielded(13)), s.poll_front());
    assert!(matches!(s.input, InState::AwaitingSignalled));
    assert_eq!(Some(InOutEvent::Awaiting), s.poll_front());
    assert_eq!(None, s.poll_front());
    assert_eq!(Ok(()), s.provide(150));
    assert!(matches!(s.input, InState::FrontProvided(150)));
    assert!(matches!(s.output, OutState::Neutral));
}

#[test]
fn settle_decisions() {
    let (state, report) = settle::<u8, u64>(None, Some(1));
    assert!(matches!(state, CoroState::InProgress));
    assert_eq!(Ok(CoroPoll::Event(1)), report);

    let (state, report) = settle::<u8, u64>(None, None);
    assert!(matches!(state, CoroState::InProgress));
    assert_eq!(Err(PollError::Stalled), report);

    let (state, report) = settle::<u8, u64>(Some(404), Some(2));
    assert!(matches!(state, CoroState::Ready(404)));
    assert_eq!(Ok(CoroPoll::Event(2)), report);

    let (state, report) = settle::<u8, u64>(Some(404), None);
    assert!(matches!(state, CoroState::Finished));
    assert_eq!(Ok(CoroPoll::Result(404)), report);
}
