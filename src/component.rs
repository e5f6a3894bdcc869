use vstd::prelude::*;

use crate::geometry::Rect;
use crate::input::{Event, KeyCode, KeyModifiers, MouseEvent};
use crate::surface::BoundedBuffer;

verus! {

/// A unit of the user interface: it reacts to input and paints itself.
///
/// The input handlers return whether they consumed the event; by default they
/// consume nothing. `draw` paints the current state into `area` and changes
/// nothing but the surface.
pub trait Component: Sized {
    fn key_event(&mut self, key: KeyCode, mods: KeyModifiers) -> (handled: bool)
        default_ensures
            !handled,
            *final(self) == *old(self),
    {
        false
    }

    fn mouse_event(&mut self, event: MouseEvent) -> (handled: bool)
        default_ensures
            !handled,
            *final(self) == *old(self),
    {
        false
    }

    fn draw(&self, area: Rect, buf: &mut BoundedBuffer<'_>)
        requires
            old(buf).wf(),
        ensures
            final(buf).wf(),
            final(buf).area() == old(buf).area(),
    ;
}

/// Hands `event` to the component: keys to `key_event`, mouse actions to
/// `mouse_event`. A resize reaches no handler and is never consumed.
pub fn handle_component_event<T: Component>(main: &mut T, event: Event) -> (handled: bool)
    ensures
        event is Resize ==> !handled && *final(main) == *old(main),
        event is Key ==> exists|m: &mut T|
            *m == *old(main) && *final(m) == *final(main) && call_ensures(
                T::key_event,
                (m, event->Key_0, event->Key_1),
                handled,
            ),
        event is Mouse ==> exists|m: &mut T|
            *m == *old(main) && *final(m) == *final(main) && call_ensures(
                T::mouse_event,
                (m, event->Mouse_0),
                handled,
            ),
{
    match event {
        Event::Key(code, modifiers) => main.key_event(code, modifiers),
        Event::Mouse(m) => main.mouse_event(m),
        Event::Resize(_, _) => false,
    }
}

} // verus!
