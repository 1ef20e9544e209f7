//! One frame of text rendering, as a state machine.
//!
//! A frame begins when the text has been queued with the glyph cache. The
//! caller then asks the cache to process the queue and hands each report to
//! [`Frame::advance`], which answers with the next thing to do. A report that
//! the atlas is too small leads to a resize and another pass; a frame asks for
//! at most [`MAX_RESIZES`] of them and is abandoned after that, so the loop
//! around it always ends.

use crate::atlas::{choose_atlas_size, next_size};
use vstd::prelude::*;

verus! {

/// The most resizes of the atlas that one frame asks for.
pub const MAX_RESIZES: u32 = 8;

/// What one pass of the glyph cache over the queued text reported.
#[derive(Debug, PartialEq, Eq)]
pub enum Outcome<V> {
    /// The text changed: these are its quads, one vertex record per glyph.
    Draw(Vec<V>),
    /// Nothing changed since the last pass.
    Redraw,
    /// The atlas cannot hold the glyphs; the cache suggests this size.
    TooSmall { suggested: (u32, u32) },
}

/// What the caller does next.
#[derive(Debug, PartialEq, Eq)]
pub enum Step<V> {
    /// Replace the atlas by a texture of this size, tell the glyph cache, and
    /// process the queue again, handing the report to `frame`.
    Retry { frame: Frame, width: u32, height: u32 },
    /// Upload these vertex records, then draw.
    Upload(Vec<V>),
    /// Draw what the vertex buffer already holds.
    Reuse,
    /// Give the frame up without drawing.
    Abandon,
}

/// A frame whose queue has not been processed with success yet.
#[derive(Clone, Copy, Debug, PartialEq, Eq)]
pub struct Frame {
    /// How often the atlas has been resized during this frame.
    pub resizes: u32,
}

impl Frame {
    /// A frame has asked for no more resizes than the cap allows.
    pub open spec fn wf(self) -> bool {
        self.resizes <= MAX_RESIZES
    }

    /// The answer to `outcome`, where `current` is the size of the atlas and
    /// `max` the largest texture dimension of the hardware.
    pub open spec fn step<V>(self, outcome: Outcome<V>, current: (u32, u32), max: u32) -> Step<V> {
        match outcome {
            Outcome::Draw(vertices) => Step::Upload(vertices),
            Outcome::Redraw => Step::Reuse,
            Outcome::TooSmall { suggested } => if self.resizes < MAX_RESIZES {
                let chosen: (u32, u32) = next_size(suggested, current, max);
                Step::Retry {
                    frame: Frame { resizes: (self.resizes + 1) as u32 },
                    width: chosen.0,
                    height: chosen.1,
                }
            } else {
                Step::Abandon
            },
        }
    }

    /// Begins a frame.
    pub fn begin() -> (frame: Frame)
        ensures
            frame.resizes == 0,
            frame.wf(),
    {
        Frame { resizes: 0 }
    }

    /// Answers one report of the glyph cache.
    ///
    /// New quads are uploaded and an unchanged text is drawn from the buffer as
    /// it is. When the atlas is too small the frame asks for a resize to the
    /// size that the growth policy chooses, unless it has already asked
    /// [`MAX_RESIZES`] times: then it is abandoned.
    pub fn advance<V>(self, outcome: Outcome<V>, current: (u32, u32), max: u32) -> (step: Step<V>)
        ensures
            step == self.step(outcome, current, max),
            self.wf() ==> (step matches Step::Retry { frame, .. } ==> frame.wf()),
    {
        match outcome {
            Outcome::Draw(vertices) => Step::Upload(vertices),
            Outcome::Redraw => Step::Reuse,
            Outcome::TooSmall { suggested } => {
                if self.resizes < MAX_RESIZES {
                    let chosen: (u32, u32) = choose_atlas_size(suggested, current, max);
                    Step::Retry {
                        frame: Frame { resizes: self.resizes + 1 },
                        width: chosen.0,
                        height: chosen.1,
                    }
                } else {
                    Step::Abandon
                }
            },
        }
    }
}

/// Where the loop around a frame stands after the reports `outcomes`, taken in
/// order: each resize that the frame asks for is carried out, so that the atlas
/// has the chosen size when the next report arrives. With no report there is
/// nothing to answer, which counts as a retry of the frame as it is.
pub open spec fn drive<V>(frame: Frame, current: (u32, u32), max: u32, outcomes: Seq<Outcome<V>>) -> Step<V>
    decreases outcomes.len(),
{
    if outcomes.len() == 0 {
        Step::Retry { frame, width: current.0, height: current.1 }
    } else {
        match frame.step(outcomes[0], current, max) {
            Step::Retry { frame: next, width, height } => if outcomes.len() == 1 {
                Step::Retry { frame: next, width, height }
            } else {
                drive(next, (width, height), max, outcomes.skip(1))
            },
            done => done,
        }
    }
}

/// The loop around a frame ends: whatever the glyph cache reports, the frame
/// that has `MAX_RESIZES - frame.resizes` resizes left is settled (uploaded,
/// reused or abandoned) by the time it has seen one report more than that.
pub proof fn lemma_frame_settles<V>(frame: Frame, current: (u32, u32), max: u32, outcomes: Seq<Outcome<V>>)
    requires
        frame.wf(),
        outcomes.len() > MAX_RESIZES - frame.resizes,
    ensures
        !(drive(frame, current, max, outcomes) is Retry),
    decreases outcomes.len(),
{
    match frame.step(outcomes[0], current, max) {
        Step::Retry { frame: next, width, height } => {
            lemma_frame_settles(next, (width, height), max, outcomes.skip(1));
        },
        _ => {},
    }
}

} // verus!
