//! Virtual pointer: an absolute-positioned mouse with three buttons, and a
//! separate relative wheel device for scrolling.

use vstd::prelude::*;

verus! {

use crate::error::Error;
use crate::input_event::{
    abs_event,
    key_event,
    mk_abs,
    mk_key,
    mk_rel,
    mk_syn,
    rel_event,
    syn_event,
    to_abs_coord,
    abs_coord,
    RawEvent,
    ABS_X,
    ABS_Y,
    BTN_LEFT,
    BTN_MIDDLE,
    BTN_RIGHT,
    REL_HWHEEL,
    REL_WHEEL,
};

/// The key code of a button index: 0 left, 1 middle, 2 right.
pub open spec fn spec_button_key(button: u8) -> Option<u16> {
    if button == 0 {
        Some(BTN_LEFT)
    } else if button == 1 {
        Some(BTN_MIDDLE)
    } else if button == 2 {
        Some(BTN_RIGHT)
    } else {
        None
    }
}

/// The batch a pointer move emits.
pub open spec fn mouse_move_events(ax: i32, ay: i32) -> Seq<RawEvent> {
    seq![abs_event(ABS_X, ax), abs_event(ABS_Y, ay), syn_event()]
}

/// The batch a button transition emits: position, then the key change.
pub open spec fn mouse_button_events(ax: i32, ay: i32, code: u16, pressed: bool) -> Seq<RawEvent> {
    seq![
        abs_event(ABS_X, ax),
        abs_event(ABS_Y, ay),
        key_event(
            code,
            if pressed {
                1i32
            } else {
                0i32
            },
        ),
        syn_event(),
    ]
}

/// The virtual absolute pointer: geometry and the held state of its three
/// buttons.
pub struct VirtualMouse {
    /// Device width in pixels
    pub width: u32,
    /// Device height in pixels
    pub height: u32,
    /// Horizontal device offset
    pub offset_x: i32,
    /// Vertical device offset
    pub offset_y: i32,
    /// Which of left, middle and right are held
    pub button_states: [bool; 3],
}

impl VirtualMouse {
    /// Geometry small enough for device coordinates.
    pub open spec fn wf(&self) -> bool {
        &&& self.offset_x + self.width <= i32::MAX
        &&& 0 <= self.offset_x + self.width
        &&& self.offset_y + self.height <= i32::MAX
        &&& 0 <= self.offset_y + self.height
    }

    /// A pointer with no buttons held.
    pub fn new(width: u32, height: u32, offset_x: i32, offset_y: i32) -> (r: Result<Self, Error>)
        requires
            offset_x + width <= i32::MAX,
            0 <= offset_x + width,
            offset_y + height <= i32::MAX,
            0 <= offset_y + height,
        ensures
            r matches Ok(m) ==> {
                &&& m.wf()
                &&& m.width == width
                &&& m.height == height
                &&& m.offset_x == offset_x
                &&& m.offset_y == offset_y
                &&& m.button_states@ == seq![false, false, false]
            },
            r is Ok,
    {
        let r = VirtualMouse { width, height, offset_x, offset_y, button_states: [false, false, false] };
        proof {
            assert(r.button_states@ =~= seq![false, false, false]);
        }
        Ok(r)
    }

    /// The key code of a button index, when there is one.
    fn button_key(button: u8) -> (r: Option<u16>)
        ensures
            r == spec_button_key(button),
    {
        if button == 0 {
            Some(BTN_LEFT)
        } else if button == 1 {
            Some(BTN_MIDDLE)
        } else if button == 2 {
            Some(BTN_RIGHT)
        } else {
            None
        }
    }

    /// Moves the pointer: absolute position and the closing marker.
    pub fn mouse_move(&mut self, x: u32, y: u32) -> (r: Result<Vec<RawEvent>, Error>)
        requires
            old(self).wf(),
            x <= 1000000,
            y <= 1000000,
        ensures
            *final(self) == *old(self),
            r matches Ok(events) ==> events@ == mouse_move_events(
                abs_coord(x, old(self).width, old(self).offset_x) as i32,
                abs_coord(y, old(self).height, old(self).offset_y) as i32,
            ),
            r is Ok,
    {
        let ax = to_abs_coord(x, self.width, self.offset_x);
        let ay = to_abs_coord(y, self.height, self.offset_y);
        let mut events: Vec<RawEvent> = Vec::new();
        events.push(mk_abs(ABS_X, ax));
        events.push(mk_abs(ABS_Y, ay));
        events.push(mk_syn());
        proof {
            assert(events@ =~= mouse_move_events(ax, ay));
        }
        Ok(events)
    }

    /// Presses a button at a position. Fails with `InputError` exactly when
    /// the button index is not 0, 1 or 2.
    pub fn mouse_down(&mut self, button: u8, x: u32, y: u32) -> (r: Result<Vec<RawEvent>, Error>)
        requires
            old(self).wf(),
            x <= 1000000,
            y <= 1000000,
        ensures
            final(self).wf(),
            final(self).width == old(self).width && final(self).height == old(self).height
                && final(self).offset_x == old(self).offset_x && final(self).offset_y == old(
                self,
            ).offset_y,
            r is Err <==> button >= 3,
            r matches Err(e) ==> e is InputError && *final(self) == *old(self),
            r matches Ok(events) ==> {
                &&& spec_button_key(button) matches Some(code) && events@ == mouse_button_events(
                    abs_coord(x, old(self).width, old(self).offset_x) as i32,
                    abs_coord(y, old(self).height, old(self).offset_y) as i32,
                    code,
                    true,
                )
                &&& final(self).button_states@ == old(self).button_states@.update(
                    button as int,
                    true,
                )
            },
    {
        let code = match Self::button_key(button) {
            Some(c) => c,
            None => {
                return Err(Error::InputError("no such button".to_owned()));
            },
        };
        self.button_states[button as usize] = true;
        let ax = to_abs_coord(x, self.width, self.offset_x);
        let ay = to_abs_coord(y, self.height, self.offset_y);
        let mut events: Vec<RawEvent> = Vec::new();
        events.push(mk_abs(ABS_X, ax));
        events.push(mk_abs(ABS_Y, ay));
        events.push(mk_key(code, 1));
        events.push(mk_syn());
        proof {
            assert(events@ =~= mouse_button_events(ax, ay, code, true));
        }
        Ok(events)
    }

    /// Releases a button at a position. Fails with `InputError` exactly
    /// when the button index is not 0, 1 or 2.
    pub fn mouse_up(&mut self, button: u8, x: u32, y: u32) -> (r: Result<Vec<RawEvent>, Error>)
        requires
            old(self).wf(),
            x <= 1000000,
            y <= 1000000,
        ensures
            final(self).wf(),
            final(self).width == old(self).width && final(self).height == old(self).height
                && final(self).offset_x == old(self).offset_x && final(self).offset_y == old(
                self,
            ).offset_y,
            r is Err <==> button >= 3,
            r matches Err(e) ==> e is InputError && *final(self) == *old(self),
            r matches Ok(events) ==> {
                &&& spec_button_key(button) matches Some(code) && events@ == mouse_button_events(
                    abs_coord(x, old(self).width, old(self).offset_x) as i32,
                    abs_coord(y, old(self).height, old(self).offset_y) as i32,
                    code,
                    false,
                )
                &&& final(self).button_states@ == old(self).button_states@.update(
                    button as int,
                    false,
                )
            },
    {
        let code = match Self::button_key(button) {
            Some(c) => c,
            None => {
                return Err(Error::InputError("no such button".to_owned()));
            },
        };
        self.button_states[button as usize] = false;
        let ax = to_abs_coord(x, self.width, self.offset_x);
        let ay = to_abs_coord(y, self.height, self.offset_y);
        let mut events: Vec<RawEvent> = Vec::new();
        events.push(mk_abs(ABS_X, ax));
        events.push(mk_abs(ABS_Y, ay));
        events.push(mk_key(code, 0));
        events.push(mk_syn());
        proof {
            assert(events@ =~= mouse_button_events(ax, ay, code, false));
        }
        Ok(events)
    }

    /// The absolute pointer has no wheel: a scroll emits nothing here. The
    /// relative wheel device handles scrolling.
    pub fn scroll(&mut self, dx: i64, dy: i64) -> (r: Result<Vec<RawEvent>, Error>)
        ensures
            *final(self) == *old(self),
            r matches Ok(events) ==> events@.len() == 0,
            r is Ok,
    {
        let _ = dx;
        let _ = dy;
        Ok(Vec::new())
    }

    /// A click: the press batch followed by the release batch.
    pub fn click(&mut self, button: u8, x: u32, y: u32) -> (r: Result<Vec<RawEvent>, Error>)
        requires
            old(self).wf(),
            x <= 1000000,
            y <= 1000000,
        ensures
            final(self).wf(),
            r is Err <==> button >= 3,
            r matches Ok(events) ==> (spec_button_key(button) matches Some(code) && events@
                == mouse_button_events(
                abs_coord(x, old(self).width, old(self).offset_x) as i32,
                abs_coord(y, old(self).height, old(self).offset_y) as i32,
                code,
                true,
            ) + mouse_button_events(
                abs_coord(x, old(self).width, old(self).offset_x) as i32,
                abs_coord(y, old(self).height, old(self).offset_y) as i32,
                code,
                false,
            )),
    {
        let mut events = match self.mouse_down(button, x, y) {
            Ok(e) => e,
            Err(e) => {
                return Err(e);
            },
        };
        let up = match self.mouse_up(button, x, y) {
            Ok(e) => e,
            Err(e) => {
                return Err(e);
            },
        };
        let mut all = events;
        all.extend_from_slice(up.as_slice());
        Ok(all)
    }

    /// Whether a button is held; an index past the third is never held.
    pub fn is_button_pressed(&self, button: u8) -> (r: bool)
        ensures
            r == if button < 3 {
                self.button_states@[button as int]
            } else {
                false
            },
    {
        if button < 3 {
            self.button_states[button as usize]
        } else {
            false
        }
    }
}

/// Rounding division toward the nearest integer, ties away from zero.
pub open spec fn round_div(n: int, d: int) -> int {
    if n >= 0 {
        (n + d / 2) / d
    } else {
        -((-n + d / 2) / d)
    }
}

/// The batch a scroll emits: the vertical wheel step when it is not zero,
/// the horizontal one when it is not zero, and the closing marker.
pub open spec fn scroll_events(sx: i32, sy: i32) -> Seq<RawEvent> {
    (if sy != 0 {
        seq![rel_event(REL_WHEEL, sy)]
    } else {
        Seq::<RawEvent>::empty()
    }) + (if sx != 0 {
        seq![rel_event(REL_HWHEEL, sx)]
    } else {
        Seq::<RawEvent>::empty()
    }) + seq![syn_event()]
}

/// The relative wheel device used for scrolling.
pub struct RelativeMouse {
    /// How many scroll-delta millionths make one wheel step
    pub step: i64,
}

impl RelativeMouse {
    /// A wheel device: fifteen units of wire delta per step.
    pub fn new() -> (r: Result<Self, Error>)
        ensures
            r matches Ok(m) ==> m.step == 15000000,
            r is Ok,
    {
        Ok(RelativeMouse { step: 15000000 })
    }

    /// Scrolls: each wheel axis moves by the delta, negated, divided by
    /// fifteen units and rounded to the nearest step; zero steps are
    /// suppressed, and a scroll with no step at all emits nothing.
    pub fn scroll(&mut self, dx: i64, dy: i64) -> (r: Result<Vec<RawEvent>, Error>)
        requires
            old(self).step == 15000000,
            -30000000000000 <= dx <= 30000000000000,
            -30000000000000 <= dy <= 30000000000000,
        ensures
            *final(self) == *old(self),
            r is Ok,
            r matches Ok(events) ==> {
                &&& round_div(-dx as int, 15000000) == 0 && round_div(-dy as int, 15000000) == 0 ==> events@.len()
                    == 0
                &&& !(round_div(-dx as int, 15000000) == 0 && round_div(-dy as int, 15000000) == 0) ==> events@
                    == scroll_events(
                    round_div(-dx as int, 15000000) as i32,
                    round_div(-dy as int, 15000000) as i32,
                )
            },
    {
        let sx = Self::round_steps(-dx);
        let sy = Self::round_steps(-dy);
        if sx == 0 && sy == 0 {
            return Ok(Vec::new());
        }
        let mut events: Vec<RawEvent> = Vec::new();
        if sy != 0 {
            events.push(mk_rel(REL_WHEEL, sy));
        }
        if sx != 0 {
            events.push(mk_rel(REL_HWHEEL, sx));
        }
        events.push(mk_syn());
        proof {
            assert(events@ =~= scroll_events(sx, sy));
        }
        Ok(events)
    }

    /// One axis delta in millionths, rounded to whole wheel steps of
    /// fifteen units each.
    fn round_steps(n: i64) -> (r: i32)
        requires
            -30000000000000 <= n <= 30000000000000,
        ensures
            r == round_div(n as int, 15000000),
    {
        if n >= 0 {
            ((n + 7500000) / 15000000) as i32
        } else {
            let q = ((-n + 7500000) / 15000000) as i32;
            -q
        }
    }
}

} // verus!
