//! Repaint bookkeeping shared by the ports: a new frame marks the view as
//! needing a repaint, and the event loop paints once per mark. Also the
//! layout of the frame copy from the rendering context into a texture.

use vstd::prelude::*;

verus! {

/// Whether a frame is waiting to be painted.
#[derive(Clone, Copy, Debug)]
pub struct RepaintFlag {
    needs_repaint: bool,
}

impl View for RepaintFlag {
    type V = bool;

    closed spec fn view(&self) -> bool {
        self.needs_repaint
    }
}

impl RepaintFlag {
    /// Nothing to paint yet.
    pub fn new() -> (f: Self)
        ensures
            f@ == Self::initial(),
    {
        RepaintFlag { needs_repaint: false }
    }

    /// Whether a frame is waiting to be painted.
    pub fn needs_repaint(&self) -> (b: bool)
        ensures
            b == self@,
    {
        self.needs_repaint
    }

    /// The renderer has a new frame ready: it must be painted.
    pub fn notify_new_frame_ready(&mut self)
        ensures
            final(self)@ == after_frame_ready(old(self)@),
    {
        self.needs_repaint = true;
    }

    /// Answers whether to paint now, and clears the mark when it was set.
    pub fn take_repaint(&mut self) -> (paint: bool)
        ensures
            (paint, final(self)@) == after_check(old(self)@),
            paint == old(self)@,
            !final(self)@,
    {
        let paint = self.needs_repaint;
        self.needs_repaint = false;
        paint
    }
}

/// The mark after the renderer reports a new frame.
pub open spec fn after_frame_ready(marked: bool) -> bool {
    true
}

/// Whether a check paints, and the mark after it.
pub open spec fn after_check(marked: bool) -> (bool, bool) {
    (marked, false)
}

/// A check paints exactly when a frame was waiting, and always leaves the
/// mark cleared: from any state, a second check with no new frame in
/// between never paints; only a new frame sets the mark.
pub proof fn lemma_check_clears_mark(marked: bool)
    ensures
        after_check(marked).0 == marked,
        !after_check(marked).1,
        !after_check(after_check(marked).1).0,
        after_frame_ready(marked),
        !RepaintFlag::initial(),
{
}

/// A new frame is painted exactly once: the check after a notification
/// paints, and a second check with no notification in between does not.
pub proof fn lemma_one_paint_per_frame(marked: bool)
    ensures
        after_check(after_frame_ready(marked)).0,
        !after_check(after_check(after_frame_ready(marked)).1).0,
        !after_check(RepaintFlag::initial()).0,
{
}

impl RepaintFlag {
    /// The mark of a fresh flag.
    pub open spec fn initial() -> bool {
        false
    }
}

/// How a painted frame is copied into the window's texture.
#[derive(Clone, Copy, Debug, PartialEq, Eq, Structural)]
pub struct FrameCopy {
    /// The rectangle read from the rendering context: origin and size.
    pub x: i32,
    pub y: i32,
    pub width: i32,
    pub height: i32,
    /// Bytes per texture row (four bytes per pixel).
    pub pitch: usize,
}

/// The copy of a whole `width` by `height` frame.
pub fn frame_copy(width: u32, height: u32) -> (c: FrameCopy)
    requires
        4 * width <= u32::MAX,
    ensures
        c == (FrameCopy { x: 0, y: 0, width: width as i32, height: height as i32, pitch: (4 * width) as usize }),
{
    let pitch: u32 = width * 4;
    FrameCopy { x: 0, y: 0, width: width as i32, height: height as i32, pitch: pitch as usize }
}

} // verus!
