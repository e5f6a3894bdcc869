use vstd::prelude::*;

use crate::component::{handle_component_event, Component};
use crate::error::Error;
use crate::input::{Event, KeyCode};

verus! {

/// What woke the run loop: the redraw timer, an input event, or the news that
/// the input channel was closed.
pub enum Wake {
    Tick,
    Input(Event),
    Closed(crossbeam_channel::RecvError),
}

/// Where a session stands: still running, or ended, cleanly or with an error.
#[derive(Debug)]
pub enum Status {
    Running,
    Terminated(Result<(), Error>),
}

/// The one event that ends a session when no component consumes it: Escape
/// with no modifier held.
pub open spec fn is_quit_event(event: Event) -> bool {
    match event {
        Event::Key(KeyCode::Esc, mods) => mods.is_none_spec(),
        _ => false,
    }
}

/// The status after `wake`, given whether the root component consumed it.
pub open spec fn next_status(wake: Wake, handled: bool) -> Status {
    match wake {
        Wake::Tick => Status::Running,
        Wake::Input(event) => if !handled && is_quit_event(event) {
            Status::Terminated(Ok(()))
        } else {
            Status::Running
        },
        Wake::Closed(e) => Status::Terminated(Err(Error::Receive(e))),
    }
}

/// The loop's own policy for an event that no component consumed: whether it
/// ends the session.
pub fn handle_global_event(event: &Event) -> (quit: bool)
    ensures
        quit == is_quit_event(*event),
{
    match event {
        Event::Key(KeyCode::Esc, mods) => mods.is_empty(),
        _ => false,
    }
}

/// The status after `wake`, given whether the root component consumed it.
pub fn transition(wake: Wake, handled: bool) -> (r: Status)
    ensures
        r == next_status(wake, handled),
{
    match wake {
        Wake::Tick => Status::Running,
        Wake::Input(event) => if !handled && handle_global_event(&event) {
            Status::Terminated(Ok(()))
        } else {
            Status::Running
        },
        Wake::Closed(e) => Status::Terminated(Err(Error::Receive(e))),
    }
}

/// The decisions of a session around one root component.
///
/// The caller renders `root()` while the session runs, waits for the next
/// timer tick or input event, and hands it to `deliver`.
pub struct RunLoop<T: Component> {
    root: T,
    status: Status,
}

impl<T: Component> RunLoop<T> {
    pub closed spec fn component(&self) -> T {
        self.root
    }

    pub closed spec fn state(&self) -> Status {
        self.status
    }

    pub open spec fn running(&self) -> bool {
        self.state() is Running
    }

    /// A running session around `root`.
    pub fn new(root: T) -> (r: RunLoop<T>)
        ensures
            r.running(),
            r.component() == root,
    {
        RunLoop { root, status: Status::Running }
    }

    pub fn root(&self) -> (r: &T)
        ensures
            *r == self.component(),
    {
        &self.root
    }

    pub fn status(&self) -> (r: &Status)
        ensures
            *r == self.state(),
    {
        &self.status
    }

    pub fn is_running(&self) -> (r: bool)
        ensures
            r == self.running(),
    {
        match self.status {
            Status::Running => true,
            Status::Terminated(_) => false,
        }
    }

    /// Handles one wake-up of a running session and returns whether the root
    /// component consumed it. Only an input event reaches the component, and
    /// the global policy applies only to an event that it left alone.
    pub fn deliver(&mut self, wake: Wake) -> (handled: bool)
        requires
            old(self).running(),
        ensures
            final(self).state() == next_status(wake, handled),
            !(wake is Input) ==> !handled && final(self).component() == old(self).component(),
            (wake is Input && wake->Input_0 is Resize) ==> !handled && final(self).component()
                == old(self).component(),
            (wake is Input && wake->Input_0 is Key) ==> exists|m: &mut T|
                *m == old(self).component() && *final(m) == final(self).component()
                    && call_ensures(
                    T::key_event,
                    (m, wake->Input_0->Key_0, wake->Input_0->Key_1),
                    handled,
                ),
            (wake is Input && wake->Input_0 is Mouse) ==> exists|m: &mut T|
                *m == old(self).component() && *final(m) == final(self).component()
                    && call_ensures(T::mouse_event, (m, wake->Input_0->Mouse_0), handled),
    {
        let handled = match &wake {
            Wake::Input(event) => handle_component_event(&mut self.root, *event),
            _ => false,
        };
        self.status = transition(wake, handled);
        handled
    }

    /// The session's result once it has ended, or `None` while it runs.
    pub fn into_result(self) -> (r: Option<Result<(), Error>>)
        ensures
            match self.state() {
                Status::Running => r is None,
                Status::Terminated(res) => r == Some(res),
            },
    {
        match self.status {
            Status::Running => None,
            Status::Terminated(res) => Some(res),
        }
    }
}

/// A key event that the root component consumes never ends the session, not
/// even Escape.
pub proof fn consumed_key_never_quits(code: KeyCode, mods: crate::input::KeyModifiers)
    ensures
        next_status(Wake::Input(Event::Key(code, mods)), true) == Status::Running,
{
}

/// Escape with no modifier, left alone by the root component, ends the
/// session cleanly.
pub proof fn unconsumed_escape_quits(mods: crate::input::KeyModifiers)
    requires
        mods.is_none_spec(),
    ensures
        next_status(Wake::Input(Event::Key(KeyCode::Esc, mods)), false) == Status::Terminated(
            Ok(()),
        ),
{
}

/// A closed input channel ends the session with the receive error, whatever
/// else holds.
pub proof fn closed_channel_fails(e: crossbeam_channel::RecvError, handled: bool)
    ensures
        next_status(Wake::Closed(e), handled) == Status::Terminated(Err(Error::Receive(e))),
{
}

/// A wake-up ends the session cleanly exactly when it is Escape with no
/// modifier held that the root component left alone.
pub proof fn clean_end_exactly_on_unconsumed_escape(wake: Wake, handled: bool)
    ensures
        next_status(wake, handled) == Status::Terminated(Ok(())) <==> (wake is Input && !handled
            && is_quit_event(wake->Input_0)),
{
}

/// A timer tick never ends the session.
pub proof fn tick_keeps_running(handled: bool)
    ensures
        next_status(Wake::Tick, handled) == Status::Running,
{
}

} // verus!
