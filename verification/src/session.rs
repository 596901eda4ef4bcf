//! Per-viewer video session: the order in which binary messages may go out.
//!
//! A new viewer first receives the initialization segment, then one
//! keyframe segment, and only then live media segments. The session state
//! machine enforces that order; its ghost trace records every binary
//! message sent, so the ordering is a proved invariant rather than a
//! convention.

use vstd::prelude::*;

verus! {

use crate::pipeline::StreamSegment;

/// One binary message sent to a viewer.
pub enum SentItem {
    /// The initialization segment
    InitSegment,
    /// A keyframe media segment with its sequence number
    KeyframeSegment(u64),
    /// A media segment with its sequence number
    MediaSegment(u64),
}

/// Where the session stands.
#[derive(Debug, Clone, Copy, PartialEq, Eq, Structural)]
pub enum VideoPhase {
    /// Nothing sent yet; the init segment must go first
    AwaitInit,
    /// Init sent; a keyframe segment must go before other media
    AwaitKeyframe,
    /// Init and a keyframe sent; live segments flow
    Live,
}

/// The session: its phase and the ghost trace of binary messages sent.
pub struct VideoSession {
    /// Current phase
    pub phase: VideoPhase,
    /// Every binary message sent so far, in order
    pub sent: Ghost<Seq<SentItem>>,
}

impl VideoSession {
    /// Well-formed: the trace matches the phase — nothing before the init
    /// segment, exactly the init segment before the keyframe, and in the
    /// live phase the trace starts with the init segment and a keyframe.
    pub open spec fn wf(&self) -> bool {
        match self.phase {
            VideoPhase::AwaitInit => self.sent@.len() == 0,
            VideoPhase::AwaitKeyframe => self.sent@.len() == 1 && self.sent@[0] is InitSegment,
            VideoPhase::Live => self.sent@.len() >= 2 && self.sent@[0] is InitSegment
                && self.sent@[1] is KeyframeSegment,
        }
    }

    /// A fresh session that has sent nothing.
    pub fn new() -> (r: Self)
        ensures
            r.wf(),
            r.phase == VideoPhase::AwaitInit,
            r.sent@.len() == 0,
    {
        VideoSession { phase: VideoPhase::AwaitInit, sent: Ghost(Seq::empty()) }
    }

    /// Records that the initialization segment went out. Permitted only
    /// once, before anything else.
    pub fn note_init_sent(&mut self)
        requires
            old(self).wf(),
            old(self).phase == VideoPhase::AwaitInit,
        ensures
            final(self).wf(),
            final(self).phase == VideoPhase::AwaitKeyframe,
            final(self).sent@ == old(self).sent@.push(SentItem::InitSegment),
    {
        self.phase = VideoPhase::AwaitKeyframe;
        proof {
            self.sent@ = self.sent@.push(SentItem::InitSegment);
        }
    }

    /// Decides whether a segment may go out now, and records it. In the
    /// keyframe phase only a keyframe passes (and moves the session to the
    /// live phase); in the live phase every media segment passes; before
    /// the init segment nothing passes.
    pub fn admit_segment(&mut self, seg: &StreamSegment) -> (send: bool)
        requires
            old(self).wf(),
        ensures
            final(self).wf(),
            old(self).phase == VideoPhase::AwaitInit ==> !send && *final(self) == *old(self),
            old(self).phase == VideoPhase::AwaitKeyframe ==> (send == seg.is_keyframe && (send
                ==> final(self).phase == VideoPhase::Live && final(self).sent@ == old(
                self,
            ).sent@.push(SentItem::KeyframeSegment(seg.sequence)))),
            old(self).phase == VideoPhase::Live ==> send && final(self).sent@ == old(
                self,
            ).sent@.push(
                if seg.is_keyframe {
                    SentItem::KeyframeSegment(seg.sequence)
                } else {
                    SentItem::MediaSegment(seg.sequence)
                },
            ),
            !send ==> *final(self) == *old(self),
    {
        match self.phase {
            VideoPhase::AwaitInit => false,
            VideoPhase::AwaitKeyframe => {
                if seg.is_keyframe {
                    self.phase = VideoPhase::Live;
                    proof {
                        self.sent@ = self.sent@.push(SentItem::KeyframeSegment(seg.sequence));
                    }
                    true
                } else {
                    false
                }
            },
            VideoPhase::Live => {
                proof {
                    self.sent@ = self.sent@.push(
                        if seg.is_keyframe {
                            SentItem::KeyframeSegment(seg.sequence)
                        } else {
                            SentItem::MediaSegment(seg.sequence)
                        },
                    );
                }
                true
            },
        }
    }
}

/// Law: when a viewer has observed any media segment, it observed the
/// initialization segment first and a keyframe segment second — in that
/// order, before all media.
pub proof fn lemma_media_after_init_and_keyframe(s: &VideoSession, k: int)
    requires
        s.wf(),
        0 <= k < s.sent@.len(),
        s.sent@[k] is MediaSegment,
    ensures
        k >= 2,
        s.sent@[0] is InitSegment,
        s.sent@[1] is KeyframeSegment,
{
}

} // verus!
