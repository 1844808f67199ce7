//! The events of the application's life and the bootstrap they start.

pub mod bootstrap;

use crate::error::Error;
use vstd::prelude::*;

verus! {

/// What an application does at the events of its life. An event that an
/// application does not care for succeeds without doing anything.
pub trait ApplicationEventHandler {
    fn on_application_start(&self) -> (done: Result<(), Error>)
        default_ensures
            done == Ok::<(), Error>(()),
    {
        Ok(())
    }

    fn on_data_update(&self) -> (done: Result<(), Error>)
        default_ensures
            done == Ok::<(), Error>(()),
    {
        Ok(())
    }

    fn on_application_shutdown(&self) -> (done: Result<(), Error>)
        default_ensures
            done == Ok::<(), Error>(()),
    {
        Ok(())
    }
}

/// The events of an application's life, in their order.
#[derive(Clone, Copy, Debug, PartialEq, Eq, Structural)]
pub enum LifecycleEvent {
    Start,
    DataUpdate,
    Shutdown,
}

/// What follows an event that has been handled: the next event, or
/// nothing after the last, unless the handler failed; then its failure
/// ends the run.
pub open spec fn spec_after(event: LifecycleEvent, done: Result<(), Error>) -> Result<
    Option<LifecycleEvent>,
    Error,
> {
    match done {
        Err(reason) => Err(reason),
        Ok(_) => Ok(
            match event {
                LifecycleEvent::Start => Some(LifecycleEvent::DataUpdate),
                LifecycleEvent::DataUpdate => Some(LifecycleEvent::Shutdown),
                LifecycleEvent::Shutdown => None,
            },
        ),
    }
}

/// What follows an event that has been handled.
pub fn after(event: LifecycleEvent, done: Result<(), Error>) -> (next: Result<
    Option<LifecycleEvent>,
    Error,
>)
    ensures
        next == spec_after(event, done),
{
    match done {
        Err(reason) => Err(reason),
        Ok(_) => Ok(
            match event {
                LifecycleEvent::Start => Some(LifecycleEvent::DataUpdate),
                LifecycleEvent::DataUpdate => Some(LifecycleEvent::Shutdown),
                LifecycleEvent::Shutdown => None,
            },
        ),
    }
}

/// Whether `done` is an outcome that the handler's own method for
/// `event` can have, by that method's contract.
pub open spec fn answers<H: ApplicationEventHandler>(
    handler: &H,
    event: LifecycleEvent,
    done: Result<(), Error>,
) -> bool {
    match event {
        LifecycleEvent::Start => call_ensures(H::on_application_start, (handler,), done),
        LifecycleEvent::DataUpdate => call_ensures(H::on_data_update, (handler,), done),
        LifecycleEvent::Shutdown => call_ensures(H::on_application_shutdown, (handler,), done),
    }
}

/// Whether the handler succeeded at `event`.
pub open spec fn succeeded<H: ApplicationEventHandler>(handler: &H, event: LifecycleEvent) -> bool {
    answers(handler, event, Ok::<(), Error>(()))
}

/// Whether `done` is what a run through the events comes to: success
/// after the handler succeeded at all three, or the failure of the first
/// event at which it failed, the events before it having succeeded.
pub open spec fn run_comes_to<H: ApplicationEventHandler>(
    handler: &H,
    done: Result<(), Error>,
) -> bool {
    match done {
        Ok(_) => succeeded(handler, LifecycleEvent::Start) && succeeded(
            handler,
            LifecycleEvent::DataUpdate,
        ) && succeeded(handler, LifecycleEvent::Shutdown),
        Err(_) => answers(handler, LifecycleEvent::Start, done) || (succeeded(
            handler,
            LifecycleEvent::Start,
        ) && answers(handler, LifecycleEvent::DataUpdate, done)) || (succeeded(
            handler,
            LifecycleEvent::Start,
        ) && succeeded(handler, LifecycleEvent::DataUpdate) && answers(
            handler,
            LifecycleEvent::Shutdown,
            done,
        )),
    }
}

/// Whether every event before `event` has been raised and succeeded.
spec fn reached<H: ApplicationEventHandler>(handler: &H, event: LifecycleEvent) -> bool {
    match event {
        LifecycleEvent::Start => true,
        LifecycleEvent::DataUpdate => succeeded(handler, LifecycleEvent::Start),
        LifecycleEvent::Shutdown => succeeded(handler, LifecycleEvent::Start) && succeeded(
            handler,
            LifecycleEvent::DataUpdate,
        ),
    }
}

/// Runs an application through the events of its life.
pub struct EventManager<H: ApplicationEventHandler> {
    pub handler: H,
}

impl<H: ApplicationEventHandler> EventManager<H> {
    /// A manager that raises the events on `handler`.
    pub fn new(handler: H) -> (manager: EventManager<H>)
        ensures
            manager.handler == handler,
    {
        EventManager { handler }
    }

    /// Hands the handler one event: calls its method for that event and
    /// gives back what the method gave.
    fn raise(&self, event: LifecycleEvent) -> (done: Result<(), Error>)
        ensures
            answers(&self.handler, event, done),
    {
        match event {
            LifecycleEvent::Start => self.handler.on_application_start(),
            LifecycleEvent::DataUpdate => self.handler.on_data_update(),
            LifecycleEvent::Shutdown => self.handler.on_application_shutdown(),
        }
    }

    /// Raises start, data update and shutdown in this order and stops at
    /// the first that fails, with its failure.
    pub fn dispatch(&self) -> (done: Result<(), Error>)
        ensures
            run_comes_to(&self.handler, done),
    {
        let mut event = LifecycleEvent::Start;
        let mut left: u8 = 3;
        loop
            invariant
                left == match event {
                    LifecycleEvent::Start => 3u8,
                    LifecycleEvent::DataUpdate => 2u8,
                    LifecycleEvent::Shutdown => 1u8,
                },
                reached(&self.handler, event),
            decreases left,
        {
            let raised = self.raise(event);
            proof {
                if let Ok(unit) = raised {
                    assert(unit == ());
                    assert(raised == Ok::<(), Error>(unit));
                }
            }
            match after(event, raised) {
                Err(reason) => {
                    return Err(reason);
                },
                Ok(None) => {
                    return Ok(());
                },
                Ok(Some(next)) => {
                    event = next;
                    left = left - 1;
                },
            }
        }
    }
}

} // verus!
