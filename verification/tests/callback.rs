use std::cell::RefCell;
use std::rc::Rc;
use zeroconf::callback::UserCallback;
use zeroconf::error::Error;
use zeroconf::future::{FuturePoll, FutureState, FutureStep};

type Seen = RefCell<Vec<(Result<u32, Error>, Option<Rc<String>>)>>;

#[test]
fn invoke_callback_without_callback_drops_the_result() {
    let mut slot: UserCallback<fn(Result<u32, Error>, Option<Rc<String>>), Rc<String>> =
        UserCallback::new();
    assert!(!slot.has_callback());
    assert!(!slot.invoke_callback(Ok(1)));
    assert!(!slot.invoke_callback(Err(Error::BrowserError("lost".into()))));
    slot.set_context(Rc::new("context".to_string()));
    assert!(!slot.invoke_callback(Ok(2)));
}

#[test]
fn invoke_callback_hands_over_the_result_and_the_context() {
    let seen: Seen = RefCell::new(Vec::new());
    let mut slot = UserCallback::new();
    slot.set_callback(|result: Result<u32, Error>, context: Option<Rc<String>>| {
        seen.borrow_mut().push((result, context));
    });
    assert!(slot.has_callback());
    assert!(slot.context().is_none());

    assert!(slot.invoke_callback(Ok(7)));
    slot.set_context(Rc::new("context".to_string()));
    assert_eq!(slot.context().unwrap().as_str(), "context");
    assert!(slot.invoke_callback(Err(Error::ServiceError("failed".into()))));

    let seen = seen.borrow();
    assert_eq!(seen.len(), 2);
    assert_eq!(seen[0], (Ok(7), None));
    assert_eq!(seen[1].0, Err(Error::ServiceError("failed".into())));
    assert_eq!(seen[1].1.as_ref().unwrap().as_str(), "context");
}

#[test]
fn invoke_callback_shares_the_context() {
    let context = Rc::new("shared".to_string());
    let mut slot = UserCallback::new();
    slot.set_callback(|_: Result<u32, Error>, given: Option<Rc<String>>| {
        assert_eq!(Rc::strong_count(given.as_ref().unwrap()), 3);
    });
    slot.set_context(context.clone());
    assert!(slot.invoke_callback(Ok(0)));
    assert_eq!(Rc::strong_count(&context), 2);
}

#[test]
fn set_callback_replaces_the_callback() {
    let first = RefCell::new(0);
    let second = RefCell::new(0);
    let mut slot: UserCallback<Box<dyn Fn(Result<u32, Error>, Option<u8>) + '_>, u8> =
        UserCallback::new();
    slot.set_callback(Box::new(|_, _| *first.borrow_mut() += 1));
    slot.invoke_callback(Ok(1));
    slot.set_callback(Box::new(|_, _| *second.borrow_mut() += 1));
    slot.invoke_callback(Ok(2));
    slot.invoke_callback(Ok(3));
    assert_eq!(*first.borrow(), 1);
    assert_eq!(*second.borrow(), 2);
}

#[test]
fn future_starts_then_polls_then_completes() {
    let mut state: FutureState<u32> = FutureState::new();
    assert_eq!(state.poll(), FutureStep::Start);
    assert_eq!(state.started(Ok(())), FuturePoll::Pending);
    assert_eq!(state.poll(), FutureStep::PollEventLoop);
    assert_eq!(state.polled(Ok(())), FuturePoll::Pending);
    assert_eq!(state.poll(), FutureStep::PollEventLoop);
    state.record(Ok(5));
    assert_eq!(state.poll(), FutureStep::Ready(Ok(5)));
    assert_eq!(state.poll(), FutureStep::PollEventLoop);
}

#[test]
fn future_completes_with_the_first_result() {
    let mut state: FutureState<u32> = FutureState::new();
    state.started(Ok(()));
    state.record(Err(Error::BrowserError("first".into())));
    state.record(Ok(2));
    assert_eq!(
        state.poll(),
        FutureStep::Ready(Err(Error::BrowserError("first".into())))
    );
    state.record(Ok(3));
    assert_eq!(state.poll(), FutureStep::Ready(Ok(3)));
}

#[test]
fn future_completes_with_the_error_of_starting_or_polling() {
    let mut state: FutureState<u32> = FutureState::new();
    let error = Error::SystemError {
        code: -1,
        message: "select(): returned error status".into(),
    };
    assert_eq!(
        state.started(Err(error.clone())),
        FuturePoll::Ready(Err(error.clone()))
    );
    assert_eq!(state.poll(), FutureStep::Start);
    assert_eq!(state.started(Ok(())), FuturePoll::Pending);
    assert_eq!(
        state.polled(Err(error.clone())),
        FuturePoll::Ready(Err(error))
    );
    assert_eq!(state.poll(), FutureStep::PollEventLoop);
}

#[test]
fn future_returns_a_result_before_starting() {
    let mut state: FutureState<u32> = FutureState::new();
    state.record(Ok(1));
    assert_eq!(state.poll(), FutureStep::Ready(Ok(1)));
    assert_eq!(state.poll(), FutureStep::Start);
}
