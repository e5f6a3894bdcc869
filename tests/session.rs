use crossbeam_channel::RecvError;
use turmoil::prelude::{BoundedBuffer, Component, Event, KeyCode, KeyModifiers, MouseButton, MouseEvent, MouseEventKind, Rect};
use turmoil::session::transition;
use turmoil::{handle_component_event, handle_global_event, Error, RunLoop, Status, Wake};

struct Flag {
    seen_a: bool,
    keys: u32,
    mice: u32,
}

impl Flag {
    fn new() -> Self {
        Flag { seen_a: false, keys: 0, mice: 0 }
    }
}

impl Component for Flag {
    fn key_event(&mut self, key: KeyCode, _mods: KeyModifiers) -> bool {
        self.keys += 1;
        if key == KeyCode::Char('a') {
            self.seen_a = true;
            return true;
        }
        false
    }

    fn mouse_event(&mut self, _event: MouseEvent) -> bool {
        self.mice += 1;
        true
    }

    fn draw(&self, _area: Rect, _buf: &mut BoundedBuffer<'_>) {}
}

struct Greedy;

impl Component for Greedy {
    fn key_event(&mut self, _key: KeyCode, _mods: KeyModifiers) -> bool {
        true
    }

    fn draw(&self, _area: Rect, _buf: &mut BoundedBuffer<'_>) {}
}

struct Idle;

impl Component for Idle {
    fn draw(&self, _area: Rect, _buf: &mut BoundedBuffer<'_>) {}
}

fn key(code: KeyCode) -> Event {
    Event::Key(code, KeyModifiers::none())
}

fn shift() -> KeyModifiers {
    KeyModifiers { shift: true, control: false, alt: false }
}

fn is_running(s: &Status) -> bool {
    matches!(s, Status::Running)
}

fn is_clean_end(s: &Status) -> bool {
    matches!(s, Status::Terminated(Ok(())))
}

#[test]
fn key_a_then_escape() {
    let mut session = RunLoop::new(Flag::new());
    assert!(session.deliver(Wake::Input(key(KeyCode::Char('a')))));
    assert!(session.is_running());
    assert!(session.root().seen_a);
    assert!(!session.deliver(Wake::Input(key(KeyCode::Esc))));
    assert!(!session.is_running());
    assert!(is_clean_end(session.status()));
    assert!(matches!(session.into_result(), Some(Ok(()))));
}

#[test]
fn consumed_escape_does_not_quit() {
    let mut session = RunLoop::new(Greedy);
    assert!(session.deliver(Wake::Input(key(KeyCode::Esc))));
    assert!(session.is_running());
    assert!(session.into_result().is_none());
}

#[test]
fn unconsumed_escape_quits_cleanly() {
    let mut session = RunLoop::new(Idle);
    assert!(!session.deliver(Wake::Input(key(KeyCode::Esc))));
    assert!(is_clean_end(session.status()));
}

#[test]
fn escape_with_a_modifier_does_not_quit() {
    let mut session = RunLoop::new(Idle);
    session.deliver(Wake::Input(Event::Key(KeyCode::Esc, shift())));
    assert!(session.is_running());
}

#[test]
fn closed_channel_fails_with_receive_error() {
    let mut session = RunLoop::new(Idle);
    assert!(!session.deliver(Wake::Closed(RecvError)));
    assert!(!session.is_running());
    assert!(matches!(session.status(), Status::Terminated(Err(Error::Receive(_)))));
    assert!(matches!(session.into_result(), Some(Err(Error::Receive(RecvError)))));
}

#[test]
fn tick_keeps_running_and_reaches_no_handler() {
    let mut session = RunLoop::new(Flag::new());
    assert!(!session.deliver(Wake::Tick));
    assert!(session.is_running());
    assert_eq!(session.root().keys, 0);
}

#[test]
fn other_keys_are_discarded() {
    let mut session = RunLoop::new(Idle);
    assert!(!session.deliver(Wake::Input(key(KeyCode::Char('q')))));
    assert!(!session.deliver(Wake::Input(key(KeyCode::Enter))));
    assert!(session.is_running());
}

#[test]
fn resize_is_never_consumed() {
    let mut session = RunLoop::new(Flag::new());
    assert!(!session.deliver(Wake::Input(Event::Resize(80, 24))));
    assert!(session.is_running());
    assert_eq!(session.root().keys, 0);
    assert_eq!(session.root().mice, 0);
}

#[test]
fn dispatch_by_event_kind() {
    let mut flag = Flag::new();
    let mouse = MouseEvent {
        kind: MouseEventKind::Down(MouseButton::Left),
        column: 3,
        row: 4,
        modifiers: KeyModifiers::none(),
    };
    assert!(handle_component_event(&mut flag, Event::Mouse(mouse)));
    assert_eq!(flag.mice, 1);
    assert!(!handle_component_event(&mut flag, key(KeyCode::Left)));
    assert_eq!(flag.keys, 1);
    assert!(!handle_component_event(&mut flag, Event::Resize(1, 1)));
    assert_eq!((flag.keys, flag.mice), (1, 1));
}

#[test]
fn default_handlers_consume_nothing() {
    let mut idle = Idle;
    assert!(!idle.key_event(KeyCode::Char('x'), KeyModifiers::none()));
    let mouse = MouseEvent { kind: MouseEventKind::Moved, column: 0, row: 0, modifiers: KeyModifiers::none() };
    assert!(!idle.mouse_event(mouse));
}

#[test]
fn global_policy() {
    assert!(handle_global_event(&key(KeyCode::Esc)));
    assert!(!handle_global_event(&Event::Key(KeyCode::Esc, shift())));
    assert!(!handle_global_event(&key(KeyCode::Char('q'))));
    assert!(!handle_global_event(&Event::Resize(0, 0)));
}

#[test]
fn transitions() {
    assert!(is_running(&transition(Wake::Tick, false)));
    assert!(is_running(&transition(Wake::Input(key(KeyCode::Esc)), true)));
    assert!(is_clean_end(&transition(Wake::Input(key(KeyCode::Esc)), false)));
    assert!(matches!(transition(Wake::Closed(RecvError), false), Status::Terminated(Err(Error::Receive(_)))));
}

#[test]
fn modifiers() {
    assert!(KeyModifiers::none().is_empty());
    assert!(!shift().is_empty());
    assert!(!KeyModifiers { shift: false, control: false, alt: true }.is_empty());
}

#[test]
fn default_handlers_leave_the_session_running_on_other_keys() {
    let mut session = RunLoop::new(Idle);
    let mouse = MouseEvent { kind: MouseEventKind::ScrollUp, column: 1, row: 1, modifiers: KeyModifiers::none() };
    assert!(!session.deliver(Wake::Input(Event::Mouse(mouse))));
    assert!(!session.deliver(Wake::Input(key(KeyCode::F(1)))));
    assert!(session.is_running());
}
