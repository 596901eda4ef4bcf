//! Virtual touchscreen: multitouch protocol B as a verified state machine.
//!
//! Each concurrent contact occupies a slot. A touch start picks the lowest
//! free slot and a fresh tracking id; a touch end frees the slot, and
//! `BTN_TOUCH` is released exactly when the last contact lifts.

use vstd::prelude::*;

verus! {

use crate::error::Error;
use crate::input_event::{
    abs_event,
    key_event,
    mk_abs,
    mk_key,
    mk_syn,
    syn_event,
    to_abs_coord,
    abs_coord,
    RawEvent,
    ABS_MT_POSITION_X,
    ABS_MT_POSITION_Y,
    ABS_MT_SLOT,
    ABS_MT_TRACKING_ID,
    ABS_X,
    ABS_Y,
    BTN_TOUCH,
};

/// The batch a touch start emits: slot, fresh tracking id, contact and
/// single-touch positions, contact down, and the closing marker.
pub open spec fn touch_start_events(slot: u32, tracking_id: u32, ax: i32, ay: i32) -> Seq<
    RawEvent,
> {
    seq![
        abs_event(ABS_MT_SLOT, slot as i32),
        abs_event(ABS_MT_TRACKING_ID, tracking_id as i32),
        abs_event(ABS_MT_POSITION_X, ax),
        abs_event(ABS_MT_POSITION_Y, ay),
        abs_event(ABS_X, ax),
        abs_event(ABS_Y, ay),
        key_event(BTN_TOUCH, 1),
        syn_event(),
    ]
}

/// The batch a touch move emits: slot, positions, and the closing marker.
pub open spec fn touch_move_events(slot: u32, ax: i32, ay: i32) -> Seq<RawEvent> {
    seq![
        abs_event(ABS_MT_SLOT, slot as i32),
        abs_event(ABS_MT_POSITION_X, ax),
        abs_event(ABS_MT_POSITION_Y, ay),
        abs_event(ABS_X, ax),
        abs_event(ABS_Y, ay),
        syn_event(),
    ]
}

/// The batch a touch end emits: slot, tracking id cleared, the contact key
/// released exactly when no contact remains, and the closing marker.
pub open spec fn touch_end_events(slot: u32, now_empty: bool) -> Seq<RawEvent> {
    seq![abs_event(ABS_MT_SLOT, slot as i32), abs_event(ABS_MT_TRACKING_ID, -1i32)] + (if now_empty {
        seq![key_event(BTN_TOUCH, 0)]
    } else {
        Seq::<RawEvent>::empty()
    }) + seq![syn_event()]
}

/// Law: the contact-release event `BTN_TOUCH = 0` stands in a touch-end
/// batch exactly when the batch was emitted with no contact remaining.
pub proof fn lemma_btn_touch_release_means_idle(slot: u32, now_empty: bool)
    ensures
        touch_end_events(slot, now_empty).contains(key_event(BTN_TOUCH, 0)) <==> now_empty,
{
    let evs = touch_end_events(slot, now_empty);
    if now_empty {
        assert(evs[2] == key_event(BTN_TOUCH, 0));
        assert(evs.contains(key_event(BTN_TOUCH, 0)));
    } else {
        assert forall|i: int| 0 <= i < evs.len() implies evs[i] != key_event(BTN_TOUCH, 0) by {
            assert(evs.len() == 3);
        }
        if evs.contains(key_event(BTN_TOUCH, 0)) {
            let i = choose|i: int| 0 <= i < evs.len() && evs[i] == key_event(BTN_TOUCH, 0);
        }
    }
}

/// One of the wire touch ids is active.
pub open spec fn touch_id_active(touches: Seq<(u32, u32)>, id: u32) -> bool {
    exists|i: int| 0 <= i < touches.len() && (#[trigger] touches[i]).0 == id
}

/// One of the slots is occupied.
pub open spec fn slot_used(touches: Seq<(u32, u32)>, slot: u32) -> bool {
    exists|i: int| 0 <= i < touches.len() && (#[trigger] touches[i]).1 == slot
}

/// The virtual touchscreen state: geometry, the active contacts as pairs of
/// wire id and slot, the slot count and the next tracking id.
pub struct VirtualTouchscreen {
    /// Device width in pixels
    pub width: u32,
    /// Device height in pixels
    pub height: u32,
    /// Active contacts: wire id paired with its slot
    pub active_touches: Vec<(u32, u32)>,
    /// Number of slots the device offers
    pub max_slots: u32,
    /// Next tracking id to assign
    pub next_tracking_id: u32,
    /// Horizontal device offset
    pub offset_x: i32,
    /// Vertical device offset
    pub offset_y: i32,
}

impl VirtualTouchscreen {
    /// Well-formed: ids and slots unique, slots within range, geometry and
    /// tracking ids small enough for device coordinates.
    pub open spec fn wf(&self) -> bool {
        &&& forall|i: int, j: int|
            0 <= i < j < self.active_touches@.len() ==> (#[trigger] self.active_touches@[i]).0 != (
            #[trigger] self.active_touches@[j]).0 && self.active_touches@[i].1
                != self.active_touches@[j].1
        &&& forall|i: int|
            0 <= i < self.active_touches@.len() ==> (#[trigger] self.active_touches@[i]).1
                < self.max_slots
        &&& 1 <= self.max_slots <= 1000
        &&& self.next_tracking_id < 65536
        &&& self.offset_x + self.width <= i32::MAX
        &&& 0 <= self.offset_x + self.width
        &&& self.offset_y + self.height <= i32::MAX
        &&& 0 <= self.offset_y + self.height
    }

    /// A touchscreen with ten slots, no contacts and tracking ids from 0.
    pub fn new(width: u32, height: u32, offset_x: i32, offset_y: i32) -> (r: Result<Self, Error>)
        requires
            offset_x + width <= i32::MAX,
            0 <= offset_x + width,
            offset_y + height <= i32::MAX,
            0 <= offset_y + height,
        ensures
            r matches Ok(t) ==> {
                &&& t.wf()
                &&& t.width == width
                &&& t.height == height
                &&& t.offset_x == offset_x
                &&& t.offset_y == offset_y
                &&& t.max_slots == 10
                &&& t.next_tracking_id == 0
                &&& t.active_touches@.len() == 0
            },
            r is Ok,
    {
        Ok(
            VirtualTouchscreen {
                width,
                height,
                active_touches: Vec::new(),
                max_slots: 10,
                next_tracking_id: 0,
                offset_x,
                offset_y,
            },
        )
    }

    /// The lowest free slot, or none when every slot is occupied.
    fn find_free_slot(&self) -> (r: Option<u32>)
        requires
            self.wf(),
        ensures
            match r {
                Some(slot) => slot < self.max_slots && !slot_used(self.active_touches@, slot)
                    && forall|s: u32|
                    s < slot ==> slot_used(self.active_touches@, s),
                None => forall|s: u32| s < self.max_slots ==> slot_used(self.active_touches@, s),
            },
    {
        let mut slot: u32 = 0;
        while slot < self.max_slots
            invariant
                self.wf(),
                slot <= self.max_slots,
                forall|s: u32| s < slot ==> slot_used(self.active_touches@, s),
            decreases self.max_slots - slot,
        {
            let mut used = false;
            let mut i: usize = 0;
            while i < self.active_touches.len()
                invariant
                    i <= self.active_touches@.len(),
                    used <==> exists|j: int|
                        0 <= j < i && (#[trigger] self.active_touches@[j]).1 == slot,
                decreases self.active_touches@.len() - i,
            {
                if self.active_touches[i].1 == slot {
                    used = true;
                }
                i = i + 1;
            }
            if !used {
                proof {
                    assert(!slot_used(self.active_touches@, slot));
                }
                return Some(slot);
            }
            slot = slot + 1;
        }
        None
    }

    /// The index of the contact with this wire id, when active.
    fn find_touch(&self, id: u32) -> (r: Option<usize>)
        ensures
            match r {
                Some(i) => i < self.active_touches@.len() && self.active_touches@[i as int].0
                    == id,
                None => !touch_id_active(self.active_touches@, id),
            },
    {
        let mut i: usize = 0;
        while i < self.active_touches.len()
            invariant
                i <= self.active_touches@.len(),
                forall|j: int| 0 <= j < i ==> (#[trigger] self.active_touches@[j]).0 != id,
            decreases self.active_touches@.len() - i,
        {
            if self.active_touches[i].0 == id {
                return Some(i);
            }
            i = i + 1;
        }
        None
    }

    /// Starts a contact: the lowest free slot is taken, a fresh tracking id
    /// assigned, and the batch selects the slot, sets positions, presses
    /// `BTN_TOUCH` and closes with a marker. A new id joins the end of the
    /// contact table; an id already active takes the new slot in place, as
    /// a map insert would. Fails with `InputError` exactly when every slot
    /// is occupied.
    pub fn touch_start(&mut self, id: u32, x: u32, y: u32) -> (r: Result<Vec<RawEvent>, Error>)
        requires
            old(self).wf(),
            x <= 1000000,
            y <= 1000000,
        ensures
            final(self).wf(),
            final(self).width == old(self).width && final(self).height == old(self).height
                && final(self).offset_x == old(self).offset_x && final(self).offset_y == old(
                self,
            ).offset_y && final(self).max_slots == old(self).max_slots,
            r is Err <==> (forall|s: u32|
                s < old(self).max_slots ==> slot_used(old(self).active_touches@, s)),
            r matches Err(e) ==> e is InputError && *final(self) == *old(self),
            r matches Ok(events) ==> {
                &&& exists|slot: u32|
                    {
                        &&& slot < old(self).max_slots
                        &&& !slot_used(old(self).active_touches@, slot)
                        &&& (forall|s: u32| s < slot ==> slot_used(old(self).active_touches@, s))
                        &&& events@ == touch_start_events(
                            slot,
                            old(self).next_tracking_id,
                            abs_coord(x, old(self).width, old(self).offset_x) as i32,
                            abs_coord(y, old(self).height, old(self).offset_y) as i32,
                        )
                        &&& (!touch_id_active(old(self).active_touches@, id) ==> final(self).active_touches@ == old(self).active_touches@.push((id, slot)))
                        &&& (touch_id_active(old(self).active_touches@, id) ==> exists|i: int|
                            0 <= i < old(self).active_touches@.len() && (#[trigger] old(
                                self,
                            ).active_touches@[i]).0 == id && final(self).active_touches@ == old(
                                self,
                            ).active_touches@.update(i, (id, slot)))
                        &&& touch_id_active(final(self).active_touches@, id)
                        &&& slot_used(final(self).active_touches@, slot)
                    }
                &&& final(self).next_tracking_id == (old(self).next_tracking_id + 1) % 65536
            },
    {
        let slot = match self.find_free_slot() {
            Some(s) => s,
            None => {
                return Err(Error::InputError("no free touch slot".to_owned()));
            },
        };
        let tracking_id = self.next_tracking_id;
        self.next_tracking_id = if self.next_tracking_id == 65535 {
            0
        } else {
            self.next_tracking_id + 1
        };

        match self.find_touch(id) {
            Some(i) => {
                self.active_touches.remove(i);
                self.active_touches.insert(i, (id, slot));
                proof {
                    assert(self.active_touches@ =~= old(self).active_touches@.update(
                        i as int,
                        (id, slot),
                    ));
                    assert(self.active_touches@[i as int].0 == id && self.active_touches@[
                    i as int].1 == slot);
                    assert(touch_id_active(self.active_touches@, id));
                    assert(slot_used(self.active_touches@, slot));
                }
            },
            None => {
                self.active_touches.push((id, slot));
                proof {
                    assert(self.active_touches@[self.active_touches@.len() - 1].0 == id
                        && self.active_touches@[self.active_touches@.len() - 1].1 == slot);
                    assert(touch_id_active(self.active_touches@, id));
                    assert(slot_used(self.active_touches@, slot));
                }
            },
        }

        let ax = to_abs_coord(x, self.width, self.offset_x);
        let ay = to_abs_coord(y, self.height, self.offset_y);

        let mut events: Vec<RawEvent> = Vec::new();
        events.push(mk_abs(ABS_MT_SLOT, slot as i32));
        events.push(mk_abs(ABS_MT_TRACKING_ID, tracking_id as i32));
        events.push(mk_abs(ABS_MT_POSITION_X, ax));
        events.push(mk_abs(ABS_MT_POSITION_Y, ay));
        events.push(mk_abs(ABS_X, ax));
        events.push(mk_abs(ABS_Y, ay));
        events.push(mk_key(BTN_TOUCH, 1));
        events.push(mk_syn());
        proof {
            assert(events@ =~= touch_start_events(slot, tracking_id, ax, ay));
        }
        Ok(events)
    }

    /// Moves a contact: the batch re-selects its slot and updates the
    /// positions. Fails with `InputError` exactly when the id is unknown;
    /// the contact table never changes.
    pub fn touch_move(&mut self, id: u32, x: u32, y: u32) -> (r: Result<Vec<RawEvent>, Error>)
        requires
            old(self).wf(),
            x <= 1000000,
            y <= 1000000,
        ensures
            final(self).wf(),
            *final(self) == *old(self),
            r is Err <==> !touch_id_active(old(self).active_touches@, id),
            r matches Err(e) ==> e is InputError,
            r matches Ok(events) ==> exists|i: int|
                {
                    &&& 0 <= i < old(self).active_touches@.len()
                    &&& (#[trigger] old(self).active_touches@[i]).0 == id
                    &&& events@ == touch_move_events(
                        old(self).active_touches@[i].1,
                        abs_coord(x, old(self).width, old(self).offset_x) as i32,
                        abs_coord(y, old(self).height, old(self).offset_y) as i32,
                    )
                },
    {
        let i = match self.find_touch(id) {
            Some(i) => i,
            None => {
                return Err(Error::InputError("unknown touch id".to_owned()));
            },
        };
        let slot = self.active_touches[i].1;
        let ax = to_abs_coord(x, self.width, self.offset_x);
        let ay = to_abs_coord(y, self.height, self.offset_y);

        let mut events: Vec<RawEvent> = Vec::new();
        events.push(mk_abs(ABS_MT_SLOT, slot as i32));
        events.push(mk_abs(ABS_MT_POSITION_X, ax));
        events.push(mk_abs(ABS_MT_POSITION_Y, ay));
        events.push(mk_abs(ABS_X, ax));
        events.push(mk_abs(ABS_Y, ay));
        events.push(mk_syn());
        proof {
            assert(events@ =~= touch_move_events(slot, ax, ay));
        }
        Ok(events)
    }

    /// Ends a contact: its slot is freed and the tracking id cleared; when
    /// the last contact lifts, and only then, `BTN_TOUCH` is released.
    /// Fails with `InputError` exactly when the id is unknown.
    pub fn touch_end(&mut self, id: u32) -> (r: Result<Vec<RawEvent>, Error>)
        requires
            old(self).wf(),
        ensures
            final(self).wf(),
            final(self).width == old(self).width && final(self).height == old(self).height
                && final(self).offset_x == old(self).offset_x && final(self).offset_y == old(
                self,
            ).offset_y && final(self).max_slots == old(self).max_slots && final(self).next_tracking_id == old(self).next_tracking_id,
            r is Err <==> !touch_id_active(old(self).active_touches@, id),
            r matches Err(e) ==> e is InputError && *final(self) == *old(self),
            r matches Ok(events) ==> exists|i: int|
                {
                    &&& 0 <= i < old(self).active_touches@.len()
                    &&& (#[trigger] old(self).active_touches@[i]).0 == id
                    &&& final(self).active_touches@ == old(self).active_touches@.remove(i)
                    &&& events@ == touch_end_events(
                        old(self).active_touches@[i].1,
                        final(self).active_touches@.len() == 0,
                    )
                    &&& !touch_id_active(final(self).active_touches@, id)
                },
    {
        let i = match self.find_touch(id) {
            Some(i) => i,
            None => {
                return Err(Error::InputError("unknown touch id".to_owned()));
            },
        };
        let slot = self.active_touches[i].1;
        self.active_touches.remove(i);

        let mut events: Vec<RawEvent> = Vec::new();
        events.push(mk_abs(ABS_MT_SLOT, slot as i32));
        events.push(mk_abs(ABS_MT_TRACKING_ID, -1i32));
        let now_empty = self.active_touches.len() == 0;
        if now_empty {
            events.push(mk_key(BTN_TOUCH, 0));
        }
        events.push(mk_syn());
        proof {
            assert(events@ =~= touch_end_events(slot, now_empty));
            assert forall|j: int|
                0 <= j < self.active_touches@.len() implies (#[trigger] self.active_touches@[j]).0
                != id by {
                if j < i {
                    assert(self.active_touches@[j] == old(self).active_touches@[j]);
                } else {
                    assert(self.active_touches@[j] == old(self).active_touches@[j + 1]);
                }
            }
        }
        Ok(events)
    }

    /// Cancels a contact: the same as ending it.
    pub fn touch_cancel(&mut self, id: u32) -> (r: Result<Vec<RawEvent>, Error>)
        requires
            old(self).wf(),
        ensures
            final(self).wf(),
            r is Err <==> !touch_id_active(old(self).active_touches@, id),
            r matches Ok(events) ==> final(self).active_touches@.len() == old(self).active_touches@.len() - 1,
    {
        self.touch_end(id)
    }

    /// How many contacts are active.
    pub fn active_touch_count(&self) -> (r: usize)
        ensures
            r == self.active_touches@.len(),
    {
        self.active_touches.len()
    }
}

} // verus!
