//! The order in which a frame is drawn.
//!
//! The engine paints into an offscreen target; the target is then copied into
//! the window's surface, which is shown. The steps come in one fixed order,
//! and a step that fails ends the loop: none may be skipped.

use vstd::prelude::*;

verus! {

/// A rectangle of the window's surface, in device pixels.
#[derive(Clone, Copy, Debug, PartialEq, Eq, Structural)]
pub struct BlitRect {
    pub x: i32,
    pub y: i32,
    pub width: i32,
    pub height: i32,
}

/// One step of drawing a frame.
#[derive(Clone, Copy, Debug, PartialEq, Eq, Structural)]
pub enum RenderStep {
    /// Make the offscreen context current and bind its target.
    BindOffscreen,
    /// Have the content view paint its current frame into the bound target.
    PaintView,
    /// Make the window's context current and bind its swap target.
    BindWindow,
    /// Copy the offscreen target into `rect` of the window's surface and show
    /// the surface.
    BlitAndPresent { rect: BlitRect },
}

/// A surface extent as a signed number: itself where it fits, else the value
/// that its 32 bits have when read as signed.
pub open spec fn signed_extent(pixels: u32) -> int {
    if pixels <= i32::MAX {
        pixels as int
    } else {
        pixels - 0x1_0000_0000
    }
}

/// The rectangle that covers a surface of the given size: it starts at the
/// origin and is as wide and as high as the surface.
pub open spec fn surface_rect(width: u32, height: u32) -> BlitRect {
    BlitRect {
        x: 0,
        y: 0,
        width: signed_extent(width) as i32,
        height: signed_extent(height) as i32,
    }
}

/// The steps of one repaint: none before the contexts and the content view
/// exist, else the four steps in their order.
pub open spec fn repaint_steps(ready: bool, width: u32, height: u32) -> Seq<RenderStep> {
    if ready {
        seq![
            RenderStep::BindOffscreen,
            RenderStep::PaintView,
            RenderStep::BindWindow,
            RenderStep::BlitAndPresent { rect: surface_rect(width, height) },
        ]
    } else {
        Seq::empty()
    }
}

fn extent(pixels: u32) -> (out: i32)
    ensures
        out == signed_extent(pixels),
{
    if pixels <= 0x7fff_ffff {
        pixels as i32
    } else {
        let low: i32 = (pixels - 0x8000_0000) as i32;
        low - 0x7fff_ffff - 1
    }
}

/// The rectangle into which a frame is copied for a window of the given
/// physical size.
pub fn blit_rect(width: u32, height: u32) -> (rect: BlitRect)
    ensures
        rect == surface_rect(width, height),
{
    BlitRect { x: 0, y: 0, width: extent(width), height: extent(height) }
}

/// The steps to draw one frame into a window of the given physical size.
/// While the contexts and the content view do not exist (`ready` is false)
/// there is nothing to do.
pub fn repaint_plan(ready: bool, width: u32, height: u32) -> (steps: Vec<RenderStep>)
    ensures
        steps@ == repaint_steps(ready, width, height),
{
    let mut steps: Vec<RenderStep> = Vec::new();
    if ready {
        steps.push(RenderStep::BindOffscreen);
        steps.push(RenderStep::PaintView);
        steps.push(RenderStep::BindWindow);
        steps.push(RenderStep::BlitAndPresent { rect: blit_rect(width, height) });
    }
    assert(steps@ =~= repaint_steps(ready, width, height));
    steps
}

/// A repaint that happens at all paints once and presents once, in that
/// order, and the frame covers the whole surface wherever its size fits the
/// rectangle's numbers.
pub proof fn repaint_paints_then_presents(width: u32, height: u32)
    ensures
        repaint_steps(true, width, height).len() == 4,
        repaint_steps(true, width, height)[1] == RenderStep::PaintView,
        repaint_steps(true, width, height)[3] == (RenderStep::BlitAndPresent {
            rect: surface_rect(width, height),
        }),
        width <= i32::MAX && height <= i32::MAX ==> surface_rect(width, height) == (BlitRect {
            x: 0,
            y: 0,
            width: width as i32,
            height: height as i32,
        }),
        repaint_steps(false, width, height).len() == 0,
{
}

} // verus!
