use haveno_basic_bootstrap::error::{Error, ProtocolError, TransportError};
use haveno_basic_bootstrap::events::{after, ApplicationEventHandler, EventManager, LifecycleEvent};
use std::cell::RefCell;

struct Life {
    seen: RefCell<Vec<&'static str>>,
    fail_at: Option<&'static str>,
}

impl Life {
    fn note(&self, event: &'static str) -> Result<(), Error> {
        self.seen.borrow_mut().push(event);
        if self.fail_at == Some(event) {
            Err(Error::Transport(TransportError::Timeout))
        } else {
            Ok(())
        }
    }
}

impl ApplicationEventHandler for Life {
    fn on_application_start(&self) -> Result<(), Error> {
        self.note("start")
    }

    fn on_data_update(&self) -> Result<(), Error> {
        self.note("update")
    }

    fn on_application_shutdown(&self) -> Result<(), Error> {
        self.note("shutdown")
    }
}

struct Idle;

impl ApplicationEventHandler for Idle {}

#[test]
fn events_are_raised_in_order() {
    let manager = EventManager::new(Life { seen: RefCell::new(vec![]), fail_at: None });
    assert_eq!(manager.dispatch(), Ok(()));
    assert_eq!(*manager.handler.seen.borrow(), vec!["start", "update", "shutdown"]);
}

#[test]
fn first_failure_ends_the_run() {
    for (fail_at, seen) in [
        ("start", vec!["start"]),
        ("update", vec!["start", "update"]),
        ("shutdown", vec!["start", "update", "shutdown"]),
    ] {
        let manager =
            EventManager::new(Life { seen: RefCell::new(vec![]), fail_at: Some(fail_at) });
        assert_eq!(manager.dispatch(), Err(Error::Transport(TransportError::Timeout)));
        assert_eq!(*manager.handler.seen.borrow(), seen);
    }
}

#[test]
fn events_that_nobody_cares_for_succeed() {
    assert_eq!(EventManager::new(Idle).dispatch(), Ok(()));
    assert_eq!(Idle.on_application_start(), Ok(()));
    assert_eq!(Idle.on_data_update(), Ok(()));
    assert_eq!(Idle.on_application_shutdown(), Ok(()));
}

#[test]
fn what_follows_an_event() {
    let failure = Error::Protocol(ProtocolError::HandshakeOutOfOrder);
    assert_eq!(after(LifecycleEvent::Start, Ok(())), Ok(Some(LifecycleEvent::DataUpdate)));
    assert_eq!(after(LifecycleEvent::DataUpdate, Ok(())), Ok(Some(LifecycleEvent::Shutdown)));
    assert_eq!(after(LifecycleEvent::Shutdown, Ok(())), Ok(None));
    assert_eq!(after(LifecycleEvent::Start, Err(failure)), Err(failure));
    assert_eq!(after(LifecycleEvent::Shutdown, Err(failure)), Err(failure));
}
