//! Touch, pointer and stylus dispatch.

use linglide::dispatch::{DispatchTarget, InputDispatcher};
use linglide::input_event::{
    RawEvent, ABS_MT_SLOT, ABS_X, ABS_Y, BTN_LEFT, BTN_STYLUS, BTN_TOOL_PEN, BTN_TOOL_RUBBER,
    BTN_TOUCH, EV_ABS, EV_KEY, EV_REL, EV_SYN, REL_HWHEEL, REL_WHEEL,
};
use linglide::mouse::{RelativeMouse, VirtualMouse};
use linglide::protocol::{InputEvent, Modifiers, PenButton};
use linglide::stylus::VirtualStylus;
use linglide::touch::VirtualTouchscreen;

fn btn_touch_releases(events: &[RawEvent]) -> usize {
    events.iter().filter(|e| e.event_type == EV_KEY && e.code == BTN_TOUCH && e.value == 0).count()
}

fn slot_of(events: &[RawEvent]) -> i32 {
    events.iter().find(|e| e.event_type == EV_ABS && e.code == ABS_MT_SLOT).unwrap().value
}

#[test]
fn test_multitouch_slots_and_release() {
    let mut ts = VirtualTouchscreen::new(1920, 1080, 0, 0).unwrap();

    let start7 = ts.touch_start(7, 500000, 500000).unwrap();
    assert_eq!(slot_of(&start7), 0);
    let start9 = ts.touch_start(9, 250000, 750000).unwrap();
    assert_eq!(slot_of(&start9), 1);
    assert_eq!(ts.active_touch_count(), 2);

    let end7 = ts.touch_end(7).unwrap();
    assert_eq!(btn_touch_releases(&end7), 0); // one contact remains
    let end9 = ts.touch_end(9).unwrap();
    assert_eq!(btn_touch_releases(&end9), 1); // the last lift releases
    assert_eq!(ts.active_touch_count(), 0);
}

#[test]
fn test_touch_positions_and_errors() {
    let mut ts = VirtualTouchscreen::new(1920, 1080, 0, 0).unwrap();
    let start = ts.touch_start(1, 500000, 500000).unwrap();
    let x = start.iter().find(|e| e.event_type == EV_ABS && e.code == ABS_X).unwrap();
    let y = start.iter().find(|e| e.event_type == EV_ABS && e.code == ABS_Y).unwrap();
    assert_eq!(x.value, 960);
    assert_eq!(y.value, 540);
    assert_eq!(start.last().unwrap().event_type, EV_SYN);

    assert!(ts.touch_move(1, 100000, 100000).is_ok());
    assert!(ts.touch_move(2, 0, 0).is_err()); // unknown id
    assert!(ts.touch_end(2).is_err());
    assert!(ts.touch_cancel(1).is_ok());
}

#[test]
fn test_touch_slots_exhausted() {
    let mut ts = VirtualTouchscreen::new(100, 100, 0, 0).unwrap();
    for id in 0..10 {
        assert!(ts.touch_start(id, 0, 0).is_ok());
    }
    assert!(ts.touch_start(99, 0, 0).is_err());
}

#[test]
fn test_mouse_buttons() {
    let mut mouse = VirtualMouse::new(1920, 1080, 0, 0).unwrap();
    let down = mouse.mouse_down(0, 500000, 500000).unwrap();
    assert_eq!(down[0], RawEvent { event_type: EV_ABS, code: ABS_X, value: 960 });
    assert_eq!(down[1], RawEvent { event_type: EV_ABS, code: ABS_Y, value: 540 });
    assert_eq!(down[2], RawEvent { event_type: EV_KEY, code: BTN_LEFT, value: 1 });
    assert_eq!(down[3].event_type, EV_SYN);
    assert!(mouse.is_button_pressed(0));

    let up = mouse.mouse_up(0, 500000, 500000).unwrap();
    assert_eq!(up[2], RawEvent { event_type: EV_KEY, code: BTN_LEFT, value: 0 });
    assert!(!mouse.is_button_pressed(0));

    assert!(mouse.mouse_down(3, 0, 0).is_err()); // no such button
    assert!(mouse.mouse_move(0, 0).is_ok());
    assert_eq!(mouse.scroll(0, -15_000_000).unwrap().len(), 0); // no wheel here
}

#[test]
fn test_scroll_wheel_rounding_and_suppression() {
    let mut wheel = RelativeMouse::new().unwrap();

    // a wire delta of -15 units scrolls one step up
    let events = wheel.scroll(0, -15_000_000).unwrap();
    assert_eq!(events[0], RawEvent { event_type: EV_REL, code: REL_WHEEL, value: 1 });
    assert_eq!(events.last().unwrap().event_type, EV_SYN);

    // half a step rounds away from zero
    let events = wheel.scroll(7_500_000, 0).unwrap();
    assert_eq!(events[0], RawEvent { event_type: EV_REL, code: REL_HWHEEL, value: -1 });

    // tiny deltas are suppressed entirely
    assert_eq!(wheel.scroll(1_000_000, -1_000_000).unwrap().len(), 0);
}

#[test]
fn test_stylus_tool_state_machine() {
    let mut pen = VirtualStylus::new(1920, 1080, 0, 0).unwrap();

    // hovering brings the pen tool into range
    let hover = pen.pen_hover(500000, 500000, 0, 0, 0).unwrap();
    assert_eq!(hover[0], RawEvent { event_type: EV_KEY, code: BTN_TOOL_PEN, value: 1 });
    assert!(pen.is_in_range());
    assert!(!pen.is_tip_down());

    // a second hover does not raise the tool key again
    let hover2 = pen.pen_hover(500000, 500000, 0, 0, 0).unwrap();
    assert!(hover2.iter().all(|e| !(e.event_type == EV_KEY && e.code == BTN_TOOL_PEN)));

    // touching with the eraser lowers the pen tool first
    let down = pen.pen_down(500000, 500000, 500000, 10, -10, PenButton::Eraser).unwrap();
    assert_eq!(down[0], RawEvent { event_type: EV_KEY, code: BTN_TOOL_PEN, value: 0 });
    assert_eq!(down[1], RawEvent { event_type: EV_KEY, code: BTN_TOOL_RUBBER, value: 1 });
    assert!(down.iter().any(|e| e.event_type == EV_KEY && e.code == BTN_TOUCH && e.value == 1));
    assert!(pen.is_tip_down());

    // pressure scales onto 0 to 4095
    let p = down.iter().find(|e| e.event_type == EV_ABS && e.code == 24).unwrap();
    assert_eq!(p.value, 2047); // floor(0.5 * 4095)

    // moving with the tip down updates position; lifting releases contact
    assert!(pen.pen_move(600000, 600000, 500000, 0, 0).is_ok());
    let up = pen.pen_up(600000, 600000).unwrap();
    assert!(up.iter().any(|e| e.event_type == EV_KEY && e.code == BTN_TOUCH && e.value == 0));
    assert!(!pen.is_tip_down());

    // a second lift emits nothing
    assert_eq!(pen.pen_up(600000, 600000).unwrap().len(), 0);

    // leaving lowers the active tool
    let leave = pen.pen_leave().unwrap();
    assert!(leave.iter().any(|e| e.event_type == EV_KEY && e.code == BTN_TOOL_RUBBER && e.value == 0));
    assert!(!pen.is_in_range());
}

#[test]
fn test_stylus_coordinates_scaled_by_resolution() {
    let mut pen = VirtualStylus::new(1920, 1080, 0, 0).unwrap();
    let hover = pen.pen_hover(500000, 500000, 0, 0, 0).unwrap();
    let x = hover.iter().find(|e| e.event_type == EV_ABS && e.code == ABS_X).unwrap();
    let y = hover.iter().find(|e| e.event_type == EV_ABS && e.code == ABS_Y).unwrap();
    assert_eq!(x.value, 9600);
    assert_eq!(y.value, 5400);
}

#[test]
fn test_stylus_barrel_buttons_emit_only_on_change() {
    let mut pen = VirtualStylus::new(100, 100, 0, 0).unwrap();
    let press = pen.pen_button(PenButton::Secondary, true).unwrap();
    assert_eq!(press[0], RawEvent { event_type: EV_KEY, code: BTN_STYLUS, value: 1 });
    assert_eq!(pen.pen_button(PenButton::Secondary, true).unwrap().len(), 0);
    let release = pen.pen_button(PenButton::Secondary, false).unwrap();
    assert_eq!(release[0], RawEvent { event_type: EV_KEY, code: BTN_STYLUS, value: 0 });
    // primary and eraser never reach the barrel keys
    assert_eq!(pen.pen_button(PenButton::Primary, true).unwrap().len(), 0);
    assert_eq!(pen.pen_button(PenButton::Eraser, true).unwrap().len(), 0);
}

#[test]
fn test_dispatcher_routes_and_drops_keyboard() {
    let mut dispatcher = InputDispatcher {
        touchscreen: VirtualTouchscreen::new(1920, 1080, 0, 0).unwrap(),
        mouse: VirtualMouse::new(1920, 1080, 0, 0).unwrap(),
        scroll_mouse: RelativeMouse::new().unwrap(),
        stylus: VirtualStylus::new(1920, 1080, 0, 0).unwrap(),
    };

    let (target, events) = dispatcher.dispatch(&InputEvent::TouchStart {
        id: 7,
        x: 500000,
        y: 500000,
    }).unwrap();
    assert_eq!(target, DispatchTarget::Touchscreen);
    assert!(!events.is_empty());

    let (target, _) = dispatcher.dispatch(&InputEvent::MouseMove { x: 0, y: 0 }).unwrap();
    assert_eq!(target, DispatchTarget::Pointer);

    let (target, _) = dispatcher.dispatch(&InputEvent::Scroll { dx: 0, dy: -15_000_000 }).unwrap();
    assert_eq!(target, DispatchTarget::Wheel);

    let (target, _) = dispatcher.dispatch(&InputEvent::PenUp { x: 0, y: 0 }).unwrap();
    assert_eq!(target, DispatchTarget::Stylus);

    let (target, events) = dispatcher.dispatch(&InputEvent::KeyDown {
        key: "a".to_string(),
        modifiers: Modifiers { ctrl: false, alt: false, shift: false, meta: false },
    }).unwrap();
    assert_eq!(target, DispatchTarget::Nothing);
    assert!(events.is_empty());
}
