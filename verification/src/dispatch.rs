//! The input dispatcher: one wire event in, one batch for one device out.

use vstd::prelude::*;

verus! {

use crate::error::Error;
use crate::input_event::RawEvent;
use crate::mouse::{RelativeMouse, VirtualMouse};
use crate::protocol::InputEvent;
use crate::stylus::VirtualStylus;
use crate::touch::VirtualTouchscreen;

/// Which device a batch is for.
#[derive(Debug, Clone, Copy, PartialEq, Eq, Structural)]
pub enum DispatchTarget {
    /// The multitouch screen
    Touchscreen,
    /// The absolute pointer
    Pointer,
    /// The relative wheel device
    Wheel,
    /// No device: the event is not dispatched
    Nothing,
    /// The stylus tablet
    Stylus,
}

/// The four virtual devices behind the dispatcher.
pub struct InputDispatcher {
    /// The multitouch screen
    pub touchscreen: VirtualTouchscreen,
    /// The absolute pointer
    pub mouse: VirtualMouse,
    /// The relative wheel device
    pub scroll_mouse: RelativeMouse,
    /// The stylus tablet
    pub stylus: VirtualStylus,
}

impl InputDispatcher {
    /// All devices well-formed.
    pub open spec fn wf(&self) -> bool {
        &&& self.touchscreen.wf()
        &&& self.mouse.wf()
        &&& self.scroll_mouse.step == 15000000
        &&& self.stylus.wf()
    }

    /// Whether the event's coordinates are inside the normalized range.
    pub open spec fn event_in_range(event: InputEvent) -> bool {
        match event {
            InputEvent::TouchStart { id, x, y } => x <= 1000000 && y <= 1000000,
            InputEvent::TouchMove { id, x, y } => x <= 1000000 && y <= 1000000,
            InputEvent::MouseDown { button, x, y } => x <= 1000000 && y <= 1000000,
            InputEvent::MouseUp { button, x, y } => x <= 1000000 && y <= 1000000,
            InputEvent::MouseMove { x, y } => x <= 1000000 && y <= 1000000,
            InputEvent::Scroll { dx, dy } => -30000000000000 <= dx <= 30000000000000
                && -30000000000000 <= dy <= 30000000000000,
            InputEvent::PenHover { x, y, pressure, tilt_x, tilt_y } => x <= 1000000 && y
                <= 1000000,
            InputEvent::PenDown { x, y, pressure, tilt_x, tilt_y, button } => x <= 1000000 && y
                <= 1000000,
            InputEvent::PenMove { x, y, pressure, tilt_x, tilt_y } => x <= 1000000 && y
                <= 1000000,
            InputEvent::PenUp { x, y } => x <= 1000000 && y <= 1000000,
            _ => true,
        }
    }

    /// The device an event belongs to: touches to the touchscreen, mouse
    /// moves and buttons to the pointer, scrolls to the wheel, pen events
    /// to the stylus, and keyboard events to no device.
    pub open spec fn target_of(event: InputEvent) -> DispatchTarget {
        match event {
            InputEvent::TouchStart { .. } => DispatchTarget::Touchscreen,
            InputEvent::TouchMove { .. } => DispatchTarget::Touchscreen,
            InputEvent::TouchEnd { .. } => DispatchTarget::Touchscreen,
            InputEvent::TouchCancel { .. } => DispatchTarget::Touchscreen,
            InputEvent::MouseDown { .. } => DispatchTarget::Pointer,
            InputEvent::MouseUp { .. } => DispatchTarget::Pointer,
            InputEvent::MouseMove { .. } => DispatchTarget::Pointer,
            InputEvent::Scroll { .. } => DispatchTarget::Wheel,
            InputEvent::KeyDown { .. } => DispatchTarget::Nothing,
            InputEvent::KeyUp { .. } => DispatchTarget::Nothing,
            InputEvent::PenHover { .. } => DispatchTarget::Stylus,
            InputEvent::PenDown { .. } => DispatchTarget::Stylus,
            InputEvent::PenMove { .. } => DispatchTarget::Stylus,
            InputEvent::PenUp { .. } => DispatchTarget::Stylus,
            InputEvent::PenButtonEvent { .. } => DispatchTarget::Stylus,
        }
    }

    /// Dispatches one event to its device and hands back the batch to
    /// emit there. Only the targeted device's state changes; keyboard
    /// events are deliberately not dispatched.
    pub fn dispatch(&mut self, event: &InputEvent) -> (r: Result<
        (DispatchTarget, Vec<RawEvent>),
        Error,
    >)
        requires
            old(self).wf(),
            Self::event_in_range(*event),
        ensures
            final(self).wf(),
            r matches Ok(out) ==> out.0 == Self::target_of(*event),
            Self::target_of(*event) != DispatchTarget::Touchscreen ==> final(self).touchscreen
                == old(self).touchscreen,
            Self::target_of(*event) != DispatchTarget::Pointer ==> final(self).mouse == old(
                self,
            ).mouse,
            Self::target_of(*event) != DispatchTarget::Stylus ==> final(self).stylus == old(
                self,
            ).stylus,
            final(self).scroll_mouse == old(self).scroll_mouse,
            Self::target_of(*event) == DispatchTarget::Nothing ==> *final(self) == *old(self) && (
            r matches Ok(out) ==> out.1@.len() == 0),
    {
        match event {
            InputEvent::TouchStart { id, x, y } => {
                match self.touchscreen.touch_start(*id, *x, *y) {
                    Ok(events) => Ok((DispatchTarget::Touchscreen, events)),
                    Err(e) => Err(e),
                }
            },
            InputEvent::TouchMove { id, x, y } => {
                match self.touchscreen.touch_move(*id, *x, *y) {
                    Ok(events) => Ok((DispatchTarget::Touchscreen, events)),
                    Err(e) => Err(e),
                }
            },
            InputEvent::TouchEnd { id } => {
                match self.touchscreen.touch_end(*id) {
                    Ok(events) => Ok((DispatchTarget::Touchscreen, events)),
                    Err(e) => Err(e),
                }
            },
            InputEvent::TouchCancel { id } => {
                match self.touchscreen.touch_cancel(*id) {
                    Ok(events) => Ok((DispatchTarget::Touchscreen, events)),
                    Err(e) => Err(e),
                }
            },
            InputEvent::MouseDown { button, x, y } => {
                match self.mouse.mouse_down(*button, *x, *y) {
                    Ok(events) => Ok((DispatchTarget::Pointer, events)),
                    Err(e) => Err(e),
                }
            },
            InputEvent::MouseUp { button, x, y } => {
                match self.mouse.mouse_up(*button, *x, *y) {
                    Ok(events) => Ok((DispatchTarget::Pointer, events)),
                    Err(e) => Err(e),
                }
            },
            InputEvent::MouseMove { x, y } => {
                match self.mouse.mouse_move(*x, *y) {
                    Ok(events) => Ok((DispatchTarget::Pointer, events)),
                    Err(e) => Err(e),
                }
            },
            InputEvent::Scroll { dx, dy } => {
                match self.scroll_mouse.scroll(*dx, *dy) {
                    Ok(events) => Ok((DispatchTarget::Wheel, events)),
                    Err(e) => Err(e),
                }
            },
            InputEvent::KeyDown { .. } => Ok((DispatchTarget::Nothing, Vec::new())),
            InputEvent::KeyUp { .. } => Ok((DispatchTarget::Nothing, Vec::new())),
            InputEvent::PenHover { x, y, pressure, tilt_x, tilt_y } => {
                match self.stylus.pen_hover(*x, *y, *pressure, *tilt_x, *tilt_y) {
                    Ok(events) => Ok((DispatchTarget::Stylus, events)),
                    Err(e) => Err(e),
                }
            },
            InputEvent::PenDown { x, y, pressure, tilt_x, tilt_y, button } => {
                match self.stylus.pen_down(*x, *y, *pressure, *tilt_x, *tilt_y, *button) {
                    Ok(events) => Ok((DispatchTarget::Stylus, events)),
                    Err(e) => Err(e),
                }
            },
            InputEvent::PenMove { x, y, pressure, tilt_x, tilt_y } => {
                match self.stylus.pen_move(*x, *y, *pressure, *tilt_x, *tilt_y) {
                    Ok(events) => Ok((DispatchTarget::Stylus, events)),
                    Err(e) => Err(e),
                }
            },
            InputEvent::PenUp { x, y } => {
                match self.stylus.pen_up(*x, *y) {
                    Ok(events) => Ok((DispatchTarget::Stylus, events)),
                    Err(e) => Err(e),
                }
            },
            InputEvent::PenButtonEvent { button, pressed } => {
                match self.stylus.pen_button(*button, *pressed) {
                    Ok(events) => Ok((DispatchTarget::Stylus, events)),
                    Err(e) => Err(e),
                }
            },
        }
    }
}

} // verus!
