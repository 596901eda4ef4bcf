//! Lossy multi-consumer segment fan-out with late-joiner priming.
//!
//! The broadcaster keeps the last few published segments in a window;
//! each subscriber reads them through a cursor of its own. A subscriber
//! that falls behind the window is told how many segments it lost and
//! continues from the window's tail, re-primed with the last keyframe.

use vstd::prelude::*;

verus! {

use crate::pipeline::StreamSegment;

/// Codec identification handed to a new viewer.
pub struct CodecConfig {
    /// WebCodecs codec string such as `avc1.42c01f`
    pub codec_string: String,
    /// Raw `avcC` record bytes
    pub avcc_data: Vec<u8>,
}

/// Two segments that hold the same bytes, flags and sequence number.
pub open spec fn seg_eqv(a: StreamSegment, b: StreamSegment) -> bool {
    &&& a.data@ == b.data@
    &&& a.is_init == b.is_init
    &&& a.is_keyframe == b.is_keyframe
    &&& a.sequence == b.sequence
}

/// Copies a segment, byte for byte.
pub fn clone_segment(seg: &StreamSegment) -> (r: StreamSegment)
    ensures
        seg_eqv(*seg, r),
{
    let data = seg.data.clone();
    proof {
        assert(data@ =~= seg.data@);
    }
    StreamSegment { data, is_init: seg.is_init, is_keyframe: seg.is_keyframe, sequence: seg.sequence }
}

/// The fan-out state: a bounded window over the full publication history,
/// and the caches that prime a late joiner.
pub struct SegmentBroadcaster {
    /// How far a subscriber may fall behind before it is lagged
    pub window: usize,
    /// The last `window` published segments
    pub buffer: Vec<StreamSegment>,
    /// Publication index of `buffer[0]`
    pub head: u64,
    /// The one-time initialization segment bytes
    pub init_segment: Option<Vec<u8>>,
    /// The most recent published keyframe segment
    pub keyframe_segment: Option<StreamSegment>,
    /// Publication index of the cached keyframe segment
    pub keyframe_index: u64,
    /// The full publication history
    pub published: Ghost<Seq<StreamSegment>>,
}

impl SegmentBroadcaster {
    /// Everything published so far.
    pub open spec fn history(&self) -> Seq<StreamSegment> {
        self.published@
    }

    /// Well-formed: the buffer is the tail of the history, bounded by the
    /// window; sequence numbers grow strictly along the history; and the
    /// keyframe cache, when set, is a keyframe out of the history.
    pub open spec fn wf(&self) -> bool {
        &&& 1 <= self.window
        &&& self.buffer@.len() <= self.window
        &&& self.head + self.buffer@.len() == self.history().len()
        &&& self.buffer@ == self.history().subrange(
            self.head as int,
            self.history().len() as int,
        )
        &&& forall|i: int, j: int|
            0 <= i < j < self.history().len() ==> #[trigger] self.history()[i].sequence
                < #[trigger] self.history()[j].sequence
        &&& self.history().len() <= u64::MAX
        &&& match self.keyframe_segment {
            Some(k) => {
                &&& self.keyframe_index < self.history().len()
                &&& seg_eqv(self.history()[self.keyframe_index as int], k)
                &&& k.is_keyframe
            },
            None => true,
        }
    }

    /// A new broadcaster with the given lag window.
    pub fn new(window: usize) -> (r: Self)
        requires
            window >= 1,
        ensures
            r.wf(),
            r.history().len() == 0,
            r.init_segment is None,
            r.keyframe_segment is None,
            r.window == window,
    {
        let r = SegmentBroadcaster {
            window,
            buffer: Vec::new(),
            head: 0,
            init_segment: None,
            keyframe_segment: None,
            keyframe_index: 0,
            published: Ghost(Seq::empty()),
        };
        proof {
            assert(r.buffer@ =~= r.history().subrange(0, 0));
        }
        r
    }

    /// Stores the one-time initialization segment.
    pub fn set_init_segment(&mut self, segment: Vec<u8>)
        ensures
            *final(self) == (SegmentBroadcaster { init_segment: Some(segment), ..*old(self) }),
    {
        self.init_segment = Some(segment);
    }

    /// The initialization segment, if one was stored.
    pub fn get_init_segment(&self) -> (r: Option<Vec<u8>>)
        ensures
            match r {
                Some(seg) => self.init_segment matches Some(own) && seg@ == own@,
                None => self.init_segment is None,
            },
    {
        match &self.init_segment {
            Some(seg) => Some(seg.clone()),
            None => None,
        }
    }

    /// The most recent published keyframe segment, if any.
    pub fn get_keyframe_segment(&self) -> (r: Option<StreamSegment>)
        ensures
            match r {
                Some(seg) => self.keyframe_segment matches Some(own) && seg.data@ == own.data@
                    && seg.sequence == own.sequence && seg.is_keyframe == own.is_keyframe
                    && seg.is_init == own.is_init,
                None => self.keyframe_segment is None,
            },
    {
        match &self.keyframe_segment {
            Some(seg) => Some(
                StreamSegment {
                    data: seg.data.clone(),
                    is_init: seg.is_init,
                    is_keyframe: seg.is_keyframe,
                    sequence: seg.sequence,
                },
            ),
            None => None,
        }
    }

    /// Publishes one segment: it joins the history and the window, the
    /// oldest windowed segment falling out when the window is full, and a
    /// keyframe renews the keyframe cache.
    pub fn publish(&mut self, seg: StreamSegment)
        requires
            old(self).wf(),
            old(self).history().len() > 0 ==> seg.sequence > old(self).history().last().sequence,
            old(self).history().len() < u64::MAX,
        ensures
            final(self).wf(),
            final(self).history() == old(self).history().push(seg),
            final(self).window == old(self).window,
            final(self).init_segment == old(self).init_segment,
            seg.is_keyframe ==> (final(self).keyframe_segment matches Some(k) && seg_eqv(seg, k)
                && final(self).keyframe_index == old(self).history().len()),
            !seg.is_keyframe ==> final(self).keyframe_segment == old(self).keyframe_segment
                && final(self).keyframe_index == old(self).keyframe_index,
    {
        let ghost old_hist = self.published@;
        let ghost gseg = seg;
        if seg.is_keyframe {
            self.keyframe_segment = Some(clone_segment(&seg));
            self.keyframe_index = self.head + self.buffer.len() as u64;
        }
        self.buffer.push(seg);
        self.published = Ghost(old_hist.push(gseg));
        if self.buffer.len() > self.window {
            self.buffer.remove(0);
            self.head = self.head + 1;
        }
        proof {
            assert(self.buffer@ =~= self.published@.subrange(
                self.head as int,
                self.published@.len() as int,
            ));
        }
    }
}

/// What one poll of a subscription yields.
pub enum RecvOutcome {
    /// Nothing new has been published
    Empty,
    /// The subscriber fell behind and lost this many segments
    Lagged(u64),
    /// The next segment in publication order
    Segment(StreamSegment),
}

/// One consumer's view of the broadcaster: a cursor into the history, a
/// re-prime mark set after a lag, and the ghost record of what was
/// delivered.
pub struct Subscription {
    /// Publication index of the next segment to deliver
    pub cursor: u64,
    /// Set after a lag: the next delivery prefers the cached keyframe
    pub reprime: bool,
    /// Everything delivered to this subscriber, in delivery order
    pub delivered: Ghost<Seq<StreamSegment>>,
}

impl Subscription {
    /// Well-formed against a broadcaster: the cursor does not pass the
    /// history, deliveries carry strictly increasing sequence numbers, and
    /// every segment still ahead of the cursor is newer than the last
    /// delivery.
    pub open spec fn wf(&self, b: &SegmentBroadcaster) -> bool {
        &&& self.cursor <= b.history().len()
        &&& forall|i: int, j: int|
            0 <= i < j < self.delivered@.len() ==> #[trigger] self.delivered@[i].sequence
                < #[trigger] self.delivered@[j].sequence
        &&& (self.delivered@.len() > 0 ==> b.history().len() > 0
            && self.delivered@.last().sequence <= b.history().last().sequence)
        &&& forall|j: int|
            self.cursor <= j < b.history().len() && self.delivered@.len() > 0
                ==> self.delivered@.last().sequence < #[trigger] b.history()[j].sequence
    }
}

impl SegmentBroadcaster {
    /// A new subscription, reading from the live edge onward.
    pub fn subscribe(&self) -> (r: Subscription)
        requires
            self.wf(),
        ensures
            r.wf(self),
            r.cursor == self.history().len(),
            r.delivered@.len() == 0,
            !r.reprime,
    {
        Subscription {
            cursor: self.buffer.len() as u64 + self.head,
            reprime: false,
            delivered: Ghost(Seq::empty()),
        }
    }
}


impl Subscription {
    /// The history index the next delivery comes from: after a lag the
    /// cached keyframe when one stands at or past the cursor, otherwise
    /// the cursor itself — deliveries never skip ahead.
    pub open spec fn next_index(&self, b: &SegmentBroadcaster) -> int {
        if self.reprime && b.keyframe_segment is Some && b.keyframe_index >= self.cursor {
            b.keyframe_index as int
        } else {
            self.cursor as int
        }
    }

    /// Polls for the next segment. The outcome is a lag exactly when the
    /// subscriber stands behind the window: it is told how many segments it
    /// lost and moved to the window's tail. Otherwise the delivery comes
    /// from `next_index` — the cursor itself, except that the one delivery
    /// after a lag is the cached keyframe when it stands at or past the new
    /// tail — so a subscriber that keeps up sees every segment in publish
    /// order. Every delivered segment is newer than the previous delivery.
    pub fn recv(&mut self, b: &SegmentBroadcaster) -> (r: RecvOutcome)
        requires
            b.wf(),
            old(self).wf(b),
        ensures
            final(self).wf(b),
            r is Lagged <==> old(self).cursor < b.head,
            match r {
                RecvOutcome::Segment(seg) => {
                    &&& final(self).delivered@ == old(self).delivered@.push(seg)
                    &&& (old(self).delivered@.len() > 0 ==> seg.sequence > old(
                        self,
                    ).delivered@.last().sequence)
                    &&& old(self).next_index(b) < b.history().len()
                    &&& seg_eqv(b.history()[old(self).next_index(b)], seg)
                    &&& final(self).cursor == old(self).next_index(b) + 1
                    &&& !final(self).reprime
                    &&& (old(self).reprime && (b.keyframe_segment matches Some(k)
                        && b.keyframe_index >= old(self).cursor) ==> seg.is_keyframe)
                },
                RecvOutcome::Lagged(n) => {
                    &&& final(self).delivered@ == old(self).delivered@
                    &&& old(self).cursor < b.head
                    &&& n == b.head - old(self).cursor
                    &&& final(self).cursor == b.head
                    &&& final(self).reprime
                },
                RecvOutcome::Empty => {
                    &&& final(self).delivered@ == old(self).delivered@
                    &&& final(self).cursor == old(self).cursor
                    &&& old(self).cursor == b.history().len()
                },
            },
    {
        if self.cursor < b.head {
            let n = b.head - self.cursor;
            self.cursor = b.head;
            self.reprime = true;
            return RecvOutcome::Lagged(n);
        }
        let hist_len: u64 = b.head + b.buffer.len() as u64;
        if self.reprime {
            self.reprime = false;
            match &b.keyframe_segment {
                Some(k) => {
                    if b.keyframe_index >= self.cursor {
                        let seg = clone_segment(k);
                        self.cursor = b.keyframe_index + 1;
                        proof {
                            self.delivered@ = self.delivered@.push(seg);
                        }
                        return RecvOutcome::Segment(seg);
                    }
                },
                None => {},
            }
        }
        if self.cursor < hist_len {
            let idx = (self.cursor - b.head) as usize;
            let seg = clone_segment(&b.buffer[idx]);
            self.cursor = self.cursor + 1;
            proof {
                self.delivered@ = self.delivered@.push(seg);
            }
            RecvOutcome::Segment(seg)
        } else {
            RecvOutcome::Empty
        }
    }
}

/// Law: segments delivered to one subscriber carry strictly increasing
/// sequence numbers, whatever the order of polls and lags.
pub proof fn lemma_delivered_in_order(
    sub: &Subscription,
    b: &SegmentBroadcaster,
    i: int,
    j: int,
)
    requires
        sub.wf(b),
        0 <= i < j < sub.delivered@.len(),
    ensures
        sub.delivered@[i].sequence < sub.delivered@[j].sequence,
{
}

/// Law: the cached keyframe that primes a late joiner is no newer than any
/// segment still ahead of a subscriber whose cursor has passed the cache;
/// what the late joiner sees first, others see at or after it.
pub proof fn lemma_keyframe_precedes_live(b: &SegmentBroadcaster, k: StreamSegment, idx: int)
    requires
        b.wf(),
        b.keyframe_segment == Some(k),
        b.keyframe_index <= idx < b.history().len(),
    ensures
        k.sequence <= b.history()[idx].sequence,
{
    assert(seg_eqv(b.history()[b.keyframe_index as int], k));
    if idx > b.keyframe_index {
        assert(b.history()[b.keyframe_index as int].sequence < b.history()[idx].sequence);
    }
}

} // verus!
