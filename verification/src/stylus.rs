//! Virtual stylus: a tablet-class pen with pressure, tilt and an eraser
//! end, as a verified tool-state machine.
//!
//! The pen is out of range, hovering, or down on the surface. Hovering
//! raises the tool key; touching sets distance zero and presses
//! `BTN_TOUCH`; switching between pen and eraser lowers the old tool key
//! before the new one rises.

use vstd::prelude::*;

verus! {

use crate::error::Error;
use crate::input_event::{
    abs_event,
    key_event,
    mk_abs,
    mk_key,
    mk_syn,
    syn_event,
    to_abs_coord,
    abs_coord,
    RawEvent,
    ABS_DISTANCE,
    ABS_PRESSURE,
    ABS_TILT_X,
    ABS_TILT_Y,
    ABS_X,
    ABS_Y,
    BTN_STYLUS,
    BTN_STYLUS2,
    BTN_TOOL_PEN,
    BTN_TOOL_RUBBER,
    BTN_TOUCH,
};
use crate::protocol::PenButton;

/// Highest pressure level the device reports.
pub const MAX_PRESSURE: i32 = 4095;

/// Coordinate resolution multiplier for sub-pixel precision.
pub const RESOLUTION: i32 = 10;

/// The tool key of a mode: eraser or pen.
pub open spec fn tool_code(eraser: bool) -> u16 {
    if eraser {
        BTN_TOOL_RUBBER
    } else {
        BTN_TOOL_PEN
    }
}

/// Pressure in millionths mapped onto the device range 0 to 4095.
pub open spec fn spec_pressure(p: u32) -> i32 {
    (((if p > 1000000 {
        1000000int
    } else {
        p as int
    }) * 4095) / 1000000) as i32
}

/// A tilt angle clamped to -90 to 90 degrees.
pub open spec fn spec_tilt(t: i32) -> i32 {
    if t < -90 {
        -90i32
    } else if t > 90 {
        90i32
    } else {
        t
    }
}

/// A device coordinate scaled by the resolution multiplier.
pub open spec fn pen_coord(norm: u32, size: u32, offset: i32) -> int {
    abs_coord(norm, size, offset) * 10
}

/// The batch a hover emits: the tool key when the pen just came into
/// range, position, zero pressure, tilt, hover distance, and the marker.
pub open spec fn pen_hover_events(
    was_in_range: bool,
    eraser: bool,
    ax: i32,
    ay: i32,
    tx: i32,
    ty: i32,
) -> Seq<RawEvent> {
    (if !was_in_range {
        seq![key_event(tool_code(eraser), 1)]
    } else {
        Seq::<RawEvent>::empty()
    }) + seq![
        abs_event(ABS_X, ax),
        abs_event(ABS_Y, ay),
        abs_event(ABS_PRESSURE, 0),
        abs_event(ABS_TILT_X, tx),
        abs_event(ABS_TILT_Y, ty),
        abs_event(ABS_DISTANCE, 50),
        syn_event(),
    ]
}

/// The batch a pen-down emits: the old tool key lowered on a tool switch
/// in range, the active tool key raised, position, pressure, tilt, contact
/// distance, `BTN_TOUCH`, and the marker.
pub open spec fn pen_down_events(
    was_in_range: bool,
    old_eraser: bool,
    new_eraser: bool,
    ax: i32,
    ay: i32,
    p: i32,
    tx: i32,
    ty: i32,
) -> Seq<RawEvent> {
    (if new_eraser != old_eraser && was_in_range {
        seq![key_event(tool_code(old_eraser), 0)]
    } else {
        Seq::<RawEvent>::empty()
    }) + seq![
        key_event(tool_code(new_eraser), 1),
        abs_event(ABS_X, ax),
        abs_event(ABS_Y, ay),
        abs_event(ABS_PRESSURE, p),
        abs_event(ABS_TILT_X, tx),
        abs_event(ABS_TILT_Y, ty),
        abs_event(ABS_DISTANCE, 0),
        key_event(BTN_TOUCH, 1),
        syn_event(),
    ]
}

/// The batch a pen-move emits while the tip is down.
pub open spec fn pen_move_events(ax: i32, ay: i32, p: i32, tx: i32, ty: i32) -> Seq<RawEvent> {
    seq![
        abs_event(ABS_X, ax),
        abs_event(ABS_Y, ay),
        abs_event(ABS_PRESSURE, p),
        abs_event(ABS_TILT_X, tx),
        abs_event(ABS_TILT_Y, ty),
        syn_event(),
    ]
}

/// The batch a pen-up emits: final position, zero pressure, hover
/// distance, `BTN_TOUCH` released, and the marker.
pub open spec fn pen_up_events(ax: i32, ay: i32) -> Seq<RawEvent> {
    seq![
        abs_event(ABS_X, ax),
        abs_event(ABS_Y, ay),
        abs_event(ABS_PRESSURE, 0),
        abs_event(ABS_DISTANCE, 50),
        key_event(BTN_TOUCH, 0),
        syn_event(),
    ]
}

/// The batch a pen-leave emits: contact released when the tip was down,
/// held barrel buttons released, the tool key lowered, and the marker.
pub open spec fn pen_leave_events(
    tip_down: bool,
    button1: bool,
    button2: bool,
    eraser: bool,
) -> Seq<RawEvent> {
    (if tip_down {
        seq![key_event(BTN_TOUCH, 0)]
    } else {
        Seq::<RawEvent>::empty()
    }) + (if button1 {
        seq![key_event(BTN_STYLUS, 0)]
    } else {
        Seq::<RawEvent>::empty()
    }) + (if button2 {
        seq![key_event(BTN_STYLUS2, 0)]
    } else {
        Seq::<RawEvent>::empty()
    }) + seq![key_event(tool_code(eraser), 0), syn_event()]
}

/// The virtual stylus: geometry and the tool-state machine.
pub struct VirtualStylus {
    /// Device width in pixels
    pub width: u32,
    /// Device height in pixels
    pub height: u32,
    /// Horizontal device offset
    pub offset_x: i32,
    /// Vertical device offset
    pub offset_y: i32,
    /// Whether the pen is in range of the surface
    pub in_range: bool,
    /// Whether the tip is down on the surface
    pub tip_down: bool,
    /// Whether the eraser end is the active tool
    pub eraser_mode: bool,
    /// Whether the first barrel button is held
    pub stylus_button1: bool,
    /// Whether the second barrel button is held
    pub stylus_button2: bool,
}

impl VirtualStylus {
    /// Geometry small enough for resolution-scaled device coordinates, and
    /// the tip only down while the pen is in range. (A barrel button may be
    /// held out of range: the wire accepts a button press at any time.)
    pub open spec fn wf(&self) -> bool {
        &&& (self.offset_x + self.width) * 10 <= i32::MAX
        &&& 0 <= self.offset_x + self.width
        &&& (self.offset_y + self.height) * 10 <= i32::MAX
        &&& 0 <= self.offset_y + self.height
        &&& -214748364 <= self.offset_x
        &&& -214748364 <= self.offset_y
        &&& (!self.in_range ==> !self.tip_down)
    }

    /// A stylus out of range with no buttons held, in pen mode.
    pub fn new(width: u32, height: u32, offset_x: i32, offset_y: i32) -> (r: Result<Self, Error>)
        requires
            (offset_x + width) * 10 <= i32::MAX,
            0 <= offset_x + width,
            (offset_y + height) * 10 <= i32::MAX,
            0 <= offset_y + height,
            -214748364 <= offset_x,
            -214748364 <= offset_y,
        ensures
            r matches Ok(s) ==> {
                &&& s.wf()
                &&& s.width == width
                &&& s.height == height
                &&& s.offset_x == offset_x
                &&& s.offset_y == offset_y
                &&& !s.in_range
                &&& !s.tip_down
                &&& !s.eraser_mode
                &&& !s.stylus_button1
                &&& !s.stylus_button2
            },
            r is Ok,
    {
        Ok(
            VirtualStylus {
                width,
                height,
                offset_x,
                offset_y,
                in_range: false,
                tip_down: false,
                eraser_mode: false,
                stylus_button1: false,
                stylus_button2: false,
            },
        )
    }

    /// The resolution-scaled device coordinate of a normalized position.
    fn to_pen_coord(&self, norm: u32, size: u32, offset: i32) -> (r: i32)
        requires
            norm <= 1000000,
            (offset + size) * 10 <= i32::MAX,
            0 <= offset + size,
            -214748364 <= offset,
        ensures
            r == pen_coord(norm, size, offset),
    {
        let base = to_abs_coord(norm, size, offset);
        proof {
            assert((norm as int) * (size as int) / 1000000 <= size) by (nonlinear_arith)
                requires
                    0 <= norm <= 1000000,
                    0 <= size,
            ;
            assert(abs_coord(norm, size, offset) <= offset + size);
            assert((norm as int) * (size as int) / 1000000 >= 0) by (nonlinear_arith)
                requires
                    0 <= norm,
                    0 <= size,
            ;
            assert(abs_coord(norm, size, offset) >= offset);
            assert((offset + size) * 10 <= i32::MAX ==> abs_coord(norm, size, offset) * 10 <= i32::MAX)
                by (nonlinear_arith)
                requires
                    abs_coord(norm, size, offset) <= offset + size,
            ;
            assert(-214748364 <= offset ==> abs_coord(norm, size, offset) * 10 >= i32::MIN)
                by (nonlinear_arith)
                requires
                    abs_coord(norm, size, offset) >= offset,
            ;
        }
        base * RESOLUTION
    }

    /// Pressure in millionths mapped onto the device range.
    fn to_pressure(&self, pressure: u32) -> (r: i32)
        ensures
            r == spec_pressure(pressure),
    {
        let clamped: u64 = if pressure > 1000000 {
            1000000
        } else {
            pressure as u64
        };
        ((clamped * 4095) / 1000000) as i32
    }

    /// A tilt angle clamped to the device range of -90 to 90 degrees.
    fn to_tilt(&self, tilt: i32) -> (r: i32)
        ensures
            r == spec_tilt(tilt),
    {
        if tilt < -90 {
            -90
        } else if tilt > 90 {
            90
        } else {
            tilt
        }
    }

    /// Hovers the pen: it comes into range with its current tool when it
    /// was out, and reports position, tilt, zero pressure and hover
    /// distance.
    pub fn pen_hover(&mut self, x: u32, y: u32, _pressure: u32, tilt_x: i32, tilt_y: i32) -> (r:
        Result<Vec<RawEvent>, Error>)
        requires
            old(self).wf(),
            x <= 1000000,
            y <= 1000000,
        ensures
            r is Ok,
            final(self).wf(),
            *final(self) == (VirtualStylus { in_range: true, ..*old(self) }),
            r matches Ok(events) ==> events@ == pen_hover_events(
                old(self).in_range,
                old(self).eraser_mode,
                pen_coord(x, old(self).width, old(self).offset_x) as i32,
                pen_coord(y, old(self).height, old(self).offset_y) as i32,
                spec_tilt(tilt_x),
                spec_tilt(tilt_y),
            ),
    {
        let ax = self.to_pen_coord(x, self.width, self.offset_x);
        let ay = self.to_pen_coord(y, self.height, self.offset_y);
        let tx = self.to_tilt(tilt_x);
        let ty = self.to_tilt(tilt_y);

        let mut events: Vec<RawEvent> = Vec::new();
        let was_in_range = self.in_range;
        if !self.in_range {
            self.in_range = true;
            if self.eraser_mode {
                events.push(mk_key(BTN_TOOL_RUBBER, 1));
            } else {
                events.push(mk_key(BTN_TOOL_PEN, 1));
            }
        }
        events.push(mk_abs(ABS_X, ax));
        events.push(mk_abs(ABS_Y, ay));
        events.push(mk_abs(ABS_PRESSURE, 0));
        events.push(mk_abs(ABS_TILT_X, tx));
        events.push(mk_abs(ABS_TILT_Y, ty));
        events.push(mk_abs(ABS_DISTANCE, 50));
        events.push(mk_syn());
        proof {
            assert(events@ =~= pen_hover_events(
                was_in_range,
                self.eraser_mode,
                ax,
                ay,
                tx,
                ty,
            ));
        }
        Ok(events)
    }

    /// Puts the tip down: a tool switch lowers the outgoing tool key first,
    /// the active tool key rises, and the batch carries position, pressure,
    /// tilt, contact distance and `BTN_TOUCH`.
    pub fn pen_down(
        &mut self,
        x: u32,
        y: u32,
        pressure: u32,
        tilt_x: i32,
        tilt_y: i32,
        button: PenButton,
    ) -> (r: Result<Vec<RawEvent>, Error>)
        requires
            old(self).wf(),
            x <= 1000000,
            y <= 1000000,
        ensures
            r is Ok,
            final(self).wf(),
            *final(self) == (VirtualStylus {
                in_range: true,
                tip_down: true,
                eraser_mode: button is Eraser,
                ..*old(self)
            }),
            r matches Ok(events) ==> events@ == pen_down_events(
                old(self).in_range,
                old(self).eraser_mode,
                button is Eraser,
                pen_coord(x, old(self).width, old(self).offset_x) as i32,
                pen_coord(y, old(self).height, old(self).offset_y) as i32,
                spec_pressure(pressure),
                spec_tilt(tilt_x),
                spec_tilt(tilt_y),
            ),
    {
        let ax = self.to_pen_coord(x, self.width, self.offset_x);
        let ay = self.to_pen_coord(y, self.height, self.offset_y);
        let p = self.to_pressure(pressure);
        let tx = self.to_tilt(tilt_x);
        let ty = self.to_tilt(tilt_y);

        let mut events: Vec<RawEvent> = Vec::new();
        let was_in_range = self.in_range;
        let old_eraser = self.eraser_mode;
        let new_eraser = match button {
            PenButton::Eraser => true,
            _ => false,
        };
        if new_eraser != old_eraser {
            if self.in_range {
                if old_eraser {
                    events.push(mk_key(BTN_TOOL_RUBBER, 0));
                } else {
                    events.push(mk_key(BTN_TOOL_PEN, 0));
                }
            }
            self.eraser_mode = new_eraser;
        }
        if !self.in_range {
            self.in_range = true;
        }
        if self.eraser_mode {
            events.push(mk_key(BTN_TOOL_RUBBER, 1));
        } else {
            events.push(mk_key(BTN_TOOL_PEN, 1));
        }
        events.push(mk_abs(ABS_X, ax));
        events.push(mk_abs(ABS_Y, ay));
        events.push(mk_abs(ABS_PRESSURE, p));
        events.push(mk_abs(ABS_TILT_X, tx));
        events.push(mk_abs(ABS_TILT_Y, ty));
        events.push(mk_abs(ABS_DISTANCE, 0));
        events.push(mk_key(BTN_TOUCH, 1));
        events.push(mk_syn());
        self.tip_down = true;
        proof {
            assert(events@ =~= pen_down_events(
                was_in_range,
                old_eraser,
                new_eraser,
                ax,
                ay,
                p,
                tx,
                ty,
            ));
        }
        Ok(events)
    }

    /// Moves the pen: a move with the tip up degrades to a hover, a move
    /// with the tip down updates position, pressure and tilt.
    pub fn pen_move(&mut self, x: u32, y: u32, pressure: u32, tilt_x: i32, tilt_y: i32) -> (r:
        Result<Vec<RawEvent>, Error>)
        requires
            old(self).wf(),
            x <= 1000000,
            y <= 1000000,
        ensures
            r is Ok,
            final(self).wf(),
            !old(self).tip_down ==> *final(self) == (VirtualStylus {
                in_range: true,
                ..*old(self)
            }) && (r matches Ok(events) ==> events@ == pen_hover_events(
                old(self).in_range,
                old(self).eraser_mode,
                pen_coord(x, old(self).width, old(self).offset_x) as i32,
                pen_coord(y, old(self).height, old(self).offset_y) as i32,
                spec_tilt(tilt_x),
                spec_tilt(tilt_y),
            )),
            old(self).tip_down ==> *final(self) == *old(self) && (r matches Ok(events) ==> events@
                == pen_move_events(
                pen_coord(x, old(self).width, old(self).offset_x) as i32,
                pen_coord(y, old(self).height, old(self).offset_y) as i32,
                spec_pressure(pressure),
                spec_tilt(tilt_x),
                spec_tilt(tilt_y),
            )),
    {
        if !self.tip_down {
            return self.pen_hover(x, y, pressure, tilt_x, tilt_y);
        }
        let ax = self.to_pen_coord(x, self.width, self.offset_x);
        let ay = self.to_pen_coord(y, self.height, self.offset_y);
        let p = self.to_pressure(pressure);
        let tx = self.to_tilt(tilt_x);
        let ty = self.to_tilt(tilt_y);

        let mut events: Vec<RawEvent> = Vec::new();
        events.push(mk_abs(ABS_X, ax));
        events.push(mk_abs(ABS_Y, ay));
        events.push(mk_abs(ABS_PRESSURE, p));
        events.push(mk_abs(ABS_TILT_X, tx));
        events.push(mk_abs(ABS_TILT_Y, ty));
        events.push(mk_syn());
        proof {
            assert(events@ =~= pen_move_events(ax, ay, p, tx, ty));
        }
        Ok(events)
    }

    /// Lifts the tip: with the tip up nothing is emitted; otherwise the pen
    /// returns to hovering with zero pressure and `BTN_TOUCH` released.
    pub fn pen_up(&mut self, x: u32, y: u32) -> (r: Result<Vec<RawEvent>, Error>)
        requires
            old(self).wf(),
            x <= 1000000,
            y <= 1000000,
        ensures
            r is Ok,
            final(self).wf(),
            *final(self) == (VirtualStylus { tip_down: false, ..*old(self) }),
            r matches Ok(events) ==> events@ == (if old(self).tip_down {
                pen_up_events(
                    pen_coord(x, old(self).width, old(self).offset_x) as i32,
                    pen_coord(y, old(self).height, old(self).offset_y) as i32,
                )
            } else {
                Seq::<RawEvent>::empty()
            }),
    {
        if !self.tip_down {
            let events: Vec<RawEvent> = Vec::new();
            proof {
                assert(events@ =~= Seq::<RawEvent>::empty());
            }
            return Ok(events);
        }
        let ax = self.to_pen_coord(x, self.width, self.offset_x);
        let ay = self.to_pen_coord(y, self.height, self.offset_y);

        let mut events: Vec<RawEvent> = Vec::new();
        events.push(mk_abs(ABS_X, ax));
        events.push(mk_abs(ABS_Y, ay));
        events.push(mk_abs(ABS_PRESSURE, 0));
        events.push(mk_abs(ABS_DISTANCE, 50));
        events.push(mk_key(BTN_TOUCH, 0));
        events.push(mk_syn());
        self.tip_down = false;
        proof {
            assert(events@ =~= pen_up_events(ax, ay));
        }
        Ok(events)
    }

    /// Takes the pen out of range: contact and held buttons are released,
    /// the tool key lowered, and the whole tool state cleared.
    pub fn pen_leave(&mut self) -> (r: Result<Vec<RawEvent>, Error>)
        requires
            old(self).wf(),
        ensures
            r is Ok,
            final(self).wf(),
            !old(self).in_range ==> *final(self) == *old(self) && (r matches Ok(events) ==> events@
                =~= Seq::<RawEvent>::empty()),
            old(self).in_range ==> *final(self) == (VirtualStylus {
                in_range: false,
                tip_down: false,
                stylus_button1: false,
                stylus_button2: false,
                ..*old(self)
            }) && (r matches Ok(events) ==> events@ == pen_leave_events(
                old(self).tip_down,
                old(self).stylus_button1,
                old(self).stylus_button2,
                old(self).eraser_mode,
            )),
    {
        if !self.in_range {
            return Ok(Vec::new());
        }
        let mut events: Vec<RawEvent> = Vec::new();
        let tip_down = self.tip_down;
        let button1 = self.stylus_button1;
        let button2 = self.stylus_button2;
        if self.tip_down {
            events.push(mk_key(BTN_TOUCH, 0));
            self.tip_down = false;
        }
        if self.stylus_button1 {
            events.push(mk_key(BTN_STYLUS, 0));
            self.stylus_button1 = false;
        }
        if self.stylus_button2 {
            events.push(mk_key(BTN_STYLUS2, 0));
            self.stylus_button2 = false;
        }
        if self.eraser_mode {
            events.push(mk_key(BTN_TOOL_RUBBER, 0));
        } else {
            events.push(mk_key(BTN_TOOL_PEN, 0));
        }
        events.push(mk_syn());
        self.in_range = false;
        proof {
            assert(events@ =~= pen_leave_events(tip_down, button1, button2, self.eraser_mode));
        }
        Ok(events)
    }

    /// A barrel button changes state: only the secondary and tertiary
    /// buttons reach the device, and only a real transition emits.
    pub fn pen_button(&mut self, button: PenButton, pressed: bool) -> (r: Result<
        Vec<RawEvent>,
        Error,
    >)
        requires
            old(self).wf(),
        ensures
            r is Ok,
            final(self).wf(),
            button is Primary || button is Eraser ==> *final(self) == *old(self) && (r matches Ok(
                events,
            ) ==> events@.len() == 0),
            button is Secondary ==> *final(self) == (VirtualStylus {
                stylus_button1: pressed,
                ..*old(self)
            }) && (r matches Ok(events) ==> events@ == (if old(self).stylus_button1 != pressed {
                seq![
                    key_event(
                        BTN_STYLUS,
                        if pressed {
                            1i32
                        } else {
                            0i32
                        },
                    ),
                    syn_event(),
                ]
            } else {
                Seq::<RawEvent>::empty()
            })),
            button is Tertiary ==> *final(self) == (VirtualStylus {
                stylus_button2: pressed,
                ..*old(self)
            }) && (r matches Ok(events) ==> events@ == (if old(self).stylus_button2 != pressed {
                seq![
                    key_event(
                        BTN_STYLUS2,
                        if pressed {
                            1i32
                        } else {
                            0i32
                        },
                    ),
                    syn_event(),
                ]
            } else {
                Seq::<RawEvent>::empty()
            })),
    {
        match button {
            PenButton::Secondary => {
                if self.stylus_button1 == pressed {
                    return Ok(Vec::new());
                }
                self.stylus_button1 = pressed;
                let mut events: Vec<RawEvent> = Vec::new();
                events.push(mk_key(BTN_STYLUS, if pressed { 1 } else { 0 }));
                events.push(mk_syn());
                proof {
                    assert(events@ =~= seq![
                        key_event(
                            BTN_STYLUS,
                            if pressed {
                                1i32
                            } else {
                                0i32
                            },
                        ),
                        syn_event(),
                    ]);
                }
                Ok(events)
            },
            PenButton::Tertiary => {
                if self.stylus_button2 == pressed {
                    return Ok(Vec::new());
                }
                self.stylus_button2 = pressed;
                let mut events: Vec<RawEvent> = Vec::new();
                events.push(mk_key(BTN_STYLUS2, if pressed { 1 } else { 0 }));
                events.push(mk_syn());
                proof {
                    assert(events@ =~= seq![
                        key_event(
                            BTN_STYLUS2,
                            if pressed {
                                1i32
                            } else {
                                0i32
                            },
                        ),
                        syn_event(),
                    ]);
                }
                Ok(events)
            },
            _ => Ok(Vec::new()),
        }
    }

    /// Whether the pen is in range.
    pub fn is_in_range(&self) -> (r: bool)
        ensures
            r == self.in_range,
    {
        self.in_range
    }

    /// Whether the tip is down.
    pub fn is_tip_down(&self) -> (r: bool)
        ensures
            r == self.tip_down,
    {
        self.tip_down
    }
}

} // verus!
