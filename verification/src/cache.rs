//! The glyph cache, as the `glyph_brush` crate provides it.
//!
//! A `GlyphBrush` lays out the queued text and rasterises its glyphs into a
//! logical texture whose size the renderer mirrors in the atlas. This module
//! turns what the brush reports into an [`Outcome`] and carries out the part of
//! a resize that concerns the brush.

use crate::frame::{Frame, Outcome, Step};
use glyph_brush::ab_glyph::Font;
use glyph_brush::{BrushAction, BrushError, GlyphBrush};
use std::hash::{BuildHasher, Hash};
use vstd::prelude::*;

verus! {

#[verifier::external_type_specification]
#[verifier::external_body]
#[verifier::reject_recursive_types(V)]
#[verifier::reject_recursive_types(X)]
#[verifier::reject_recursive_types(F)]
#[verifier::reject_recursive_types(H)]
pub struct ExGlyphBrush<V, X, F, H>(GlyphBrush<V, X, F, H>);

#[verifier::external_type_specification]
#[verifier::reject_recursive_types(V)]
pub struct ExBrushAction<V>(BrushAction<V>);

#[verifier::external_type_specification]
pub struct ExBrushError(BrushError);

/// `GlyphBrush::texture_dimensions`: the size of the brush's logical texture.
/// Nothing is claimed of the size that comes back.
#[verifier::external_body]
fn cache_dimensions<V, X, F, H>(brush: &GlyphBrush<V, X, F, H>) -> (dimensions: (u32, u32))
    where
        F: Font,
        X: Clone + Hash,
        V: Clone + 'static,
        H: BuildHasher,
{
    brush.texture_dimensions()
}

/// `GlyphBrush::resize_texture`: rebuilds the brush's logical texture with the
/// given size and forgets where glyphs were placed. Nothing is claimed of the
/// brush afterwards.
#[verifier::external_body]
fn notify_resize<V, X, F, H>(brush: &mut GlyphBrush<V, X, F, H>, width: u32, height: u32)
    where
        F: Font,
        X: Clone + Hash,
        V: Clone + 'static,
        H: BuildHasher,
{
    brush.resize_texture(width, height)
}

/// The report that a result of `GlyphBrush::process_queued` stands for.
pub open spec fn outcome_of<V>(result: Result<BrushAction<V>, BrushError>) -> Outcome<V> {
    match result {
        Ok(BrushAction::Draw(vertices)) => Outcome::Draw(vertices),
        Ok(BrushAction::ReDraw) => Outcome::Redraw,
        Err(BrushError::TextureTooSmall { suggested }) => Outcome::TooSmall { suggested },
    }
}

/// Turns a result of `GlyphBrush::process_queued` into the report it stands for.
pub fn classify<V>(result: Result<BrushAction<V>, BrushError>) -> (outcome: Outcome<V>)
    ensures
        outcome == outcome_of(result),
{
    match result {
        Ok(BrushAction::Draw(vertices)) => Outcome::Draw(vertices),
        Ok(BrushAction::ReDraw) => Outcome::Redraw,
        Err(BrushError::TextureTooSmall { suggested }) => Outcome::TooSmall { suggested },
    }
}

/// Answers a result of `GlyphBrush::process_queued` on behalf of `frame`.
///
/// The size of the atlas is taken to be the size of the brush's logical
/// texture at the time of the call, and the answer is the one that
/// [`Frame::advance`] gives for it. Where the answer is a retry the brush has
/// been resized to the chosen size already; what is left to the caller is to
/// replace the atlas texture and to process the queue again.
pub fn react<V, X, F, H>(
    frame: Frame,
    brush: &mut GlyphBrush<V, X, F, H>,
    result: Result<BrushAction<V>, BrushError>,
    max: u32,
) -> (step: Step<V>)
    where
        F: Font,
        X: Clone + Hash,
        V: Clone + 'static,
        H: BuildHasher,
    ensures
        exists|current: (u32, u32)| step == frame.step(outcome_of(result), current, max),
        frame.wf() ==> (step matches Step::Retry { frame: next, .. } ==> next.wf()),
{
    let current: (u32, u32) = cache_dimensions(brush);
    let step: Step<V> = frame.advance(classify(result), current, max);
    if let Step::Retry { frame: _, width, height } = &step {
        notify_resize(brush, *width, *height);
    }
    step
}

} // verus!
