//! The state behind the window: surface configuration, clear color, and the
//! fixed per-frame command sequence.
//!
//! The windowing and GPU layers stay outside the library: they hand in window
//! size, cursor events and the outcome of acquiring a surface texture as plain
//! values, and carry out the steps the library plans.

use vstd::prelude::*;

use crate::color::{Channel, ClearColor};

verus! {

/// An event from the windowing layer. Only cursor movement is meaningful;
/// every other kind is ignored.
#[derive(Clone, Copy, Debug, PartialEq, Eq, Structural)]
pub enum WindowEvent {
    CursorMoved { x: u32, y: u32 },
    Other,
}

/// Why acquiring the next presentable surface texture failed. The caller's
/// policy decides what follows: recreate the surface when it is lost or
/// outdated, skip the frame on a timeout, treat exhausted memory as fatal.
#[derive(Clone, Copy, Debug, PartialEq, Eq, Structural)]
pub enum SurfaceError {
    Lost,
    Outdated,
    Timeout,
    OutOfMemory,
}

/// One step of the per-frame command sequence.
#[derive(Clone, Copy, Debug, PartialEq, Eq, Structural)]
pub enum RenderStep {
    /// Begin a render pass that clears the acquired texture.
    BeginPass,
    /// Close the pass, releasing its borrow of the command encoder.
    EndPass,
    /// Submit the finished command buffer to the queue.
    Submit,
    /// Present the acquired texture.
    Present,
}

/// What one frame does: clear the target to this color, through these steps
/// in this order.
pub struct FramePlan {
    pub clear: ClearColor,
    pub steps: Vec<RenderStep>,
}

/// The fixed per-frame sequence: open the clearing pass, close it (the pass
/// must be fully closed before the encoder is finished), submit, present.
pub open spec fn frame_steps() -> Seq<RenderStep> {
    seq![RenderStep::BeginPass, RenderStep::EndPass, RenderStep::Submit, RenderStep::Present]
}

/// How many of the first `n` steps of `s` equal `t`.
pub open spec fn count_steps(s: Seq<RenderStep>, t: RenderStep, n: int) -> int
    decreases n,
{
    if n <= 0 {
        0
    } else {
        count_steps(s, t, n - 1) + if s[n - 1] == t { 1int } else { 0int }
    }
}

/// Each frame submits exactly once and presents exactly once, and every
/// submission comes before every presentation.
pub proof fn lemma_frame_submits_once_then_presents()
    ensures
        count_steps(frame_steps(), RenderStep::Submit, frame_steps().len() as int) == 1,
        count_steps(frame_steps(), RenderStep::Present, frame_steps().len() as int) == 1,
        forall|i: int, j: int|
            0 <= i < frame_steps().len() && 0 <= j < frame_steps().len()
                && frame_steps()[i] == RenderStep::Submit && frame_steps()[j] == RenderStep::Present
                ==> i < j,
{
    reveal_with_fuel(count_steps, 5);
    assert(frame_steps().len() == 4);
    assert(count_steps(frame_steps(), RenderStep::Submit, 4) == 1);
    assert(count_steps(frame_steps(), RenderStep::Present, 4) == 1);
    assert forall|i: int, j: int|
        0 <= i < frame_steps().len() && 0 <= j < frame_steps().len()
            && frame_steps()[i] == RenderStep::Submit && frame_steps()[j] == RenderStep::Present
            implies i < j by {
        if i != 2 {
            assert(frame_steps()[i] != RenderStep::Submit);
        }
        if j != 3 {
            assert(frame_steps()[j] != RenderStep::Present);
        }
    }
}

/// The index of the surface format to use: the first sRGB format among the
/// supported ones, or the first supported format when none is sRGB.
/// `srgb[i]` says whether the i-th supported format is an sRGB format.
pub fn select_format(srgb: &Vec<bool>) -> (idx: usize)
    requires
        srgb@.len() > 0,
    ensures
        idx < srgb@.len(),
        srgb@.contains(true) ==> srgb@[idx as int] && (forall|j: int|
            0 <= j < idx ==> !srgb@[j]),
        !srgb@.contains(true) ==> idx == 0,
{
    let mut i: usize = 0;
    while i < srgb.len()
        invariant
            i <= srgb@.len(),
            forall|j: int| 0 <= j < i ==> !srgb@[j],
        decreases srgb@.len() - i,
    {
        if srgb[i] {
            return i;
        }
        i = i + 1;
    }
    assert(!srgb@.contains(true)) by {
        if srgb@.contains(true) {
            let w = choose|w: int| 0 <= w < srgb@.len() && srgb@[w];
            assert(!srgb@[w]);
        }
    }
    0
}

/// The clear color after the cursor moved to (x, y) in a window of size
/// `width` x `height`: red is x/width and green is y/height, each clamped to
/// [0, 1]; blue stays 3/10 and alpha 1.
pub open spec fn cursor_color(width: u32, height: u32, x: u32, y: u32) -> ClearColor {
    ClearColor {
        red: Channel { num: if x <= width { x } else { width }, den: width },
        green: Channel { num: if y <= height { y } else { height }, den: height },
        blue: Channel { num: 3, den: 10 },
        alpha: Channel { num: 1, den: 1 },
    }
}

/// For any cursor position inside the window, the clear color it drives has
/// red exactly x/width and green exactly y/height, and every channel lies in
/// [0, 1].
pub proof fn lemma_cursor_color_in_bounds(width: u32, height: u32, x: u32, y: u32)
    requires
        0 < width,
        0 < height,
        x <= width,
        y <= height,
    ensures
        cursor_color(width, height, x, y).red == (Channel { num: x, den: width }),
        cursor_color(width, height, x, y).green == (Channel { num: y, den: height }),
        cursor_color(width, height, x, y).wf(),
{
}

/// The color every context starts with.
pub open spec fn initial_clear() -> ClearColor {
    ClearColor {
        red: Channel { num: 1, den: 10 },
        green: Channel { num: 2, den: 10 },
        blue: Channel { num: 3, den: 10 },
        alpha: Channel { num: 1, den: 1 },
    }
}

/// The graphics context's own state: the surface configuration (size and the
/// chosen format, present mode and alpha mode, each as an index into the
/// surface's supported lists) and the current clear color. The window,
/// surface, device and queue themselves live with the caller.
#[derive(Clone, Copy, Debug, PartialEq, Eq, Structural)]
pub struct State {
    /// Configured width in pixels; always the last non-zero size.
    pub width: u32,
    /// Configured height in pixels; always the last non-zero size.
    pub height: u32,
    /// Index of the chosen format in the surface's supported-format list.
    pub format_index: usize,
    /// Index of the chosen present mode: always the first supported one.
    pub present_mode_index: usize,
    /// Index of the chosen alpha mode: always the first supported one.
    pub alpha_mode_index: usize,
    /// The color the next frame clears to.
    pub clear_color: ClearColor,
}

impl State {
    /// Both configured dimensions are positive and the clear color's
    /// channels lie in [0, 1].
    pub open spec fn wf(self) -> bool {
        0 < self.width && 0 < self.height && self.clear_color.wf()
    }

    /// A fresh context for a window of the given pixel size, choosing among
    /// the surface's supported formats: `srgb[i]` says whether the i-th
    /// supported format is sRGB. Picks the first sRGB format, or the first
    /// format when none is sRGB, and the first present mode and alpha mode.
    pub fn new(width: u32, height: u32, srgb: &Vec<bool>) -> (s: State)
        requires
            0 < width,
            0 < height,
            srgb@.len() > 0,
        ensures
            s.wf(),
            s.width == width,
            s.height == height,
            s.clear_color == initial_clear(),
            s.format_index < srgb@.len(),
            srgb@.contains(true) ==> srgb@[s.format_index as int] && (forall|j: int|
                0 <= j < s.format_index ==> !srgb@[j]),
            !srgb@.contains(true) ==> s.format_index == 0,
            s.present_mode_index == 0,
            s.alpha_mode_index == 0,
    {
        let format_index = select_format(srgb);
        State {
            width,
            height,
            format_index,
            present_mode_index: 0,
            alpha_mode_index: 0,
            clear_color: ClearColor {
                red: Channel { num: 1, den: 10 },
                green: Channel { num: 2, den: 10 },
                blue: Channel { num: 3, den: 10 },
                alpha: Channel { num: 1, den: 1 },
            },
        }
    }

    /// A new window size. A zero dimension is ignored — it would make an
    /// invalid surface configuration during minimize — and the state is left
    /// unchanged; otherwise the stored size becomes exactly the new one.
    /// Returns whether the surface must be reconfigured at the new size.
    pub fn resize(&mut self, width: u32, height: u32) -> (reconfigure: bool)
        requires
            old(self).wf(),
        ensures
            final(self).wf(),
            reconfigure == (0 < width && 0 < height),
            (width == 0 || height == 0) ==> *final(self) == *old(self),
            (0 < width && 0 < height) ==> *final(self) == (State {
                width,
                height,
                ..*old(self)
            }),
    {
        if width > 0 && height > 0 {
            self.width = width;
            self.height = height;
            true
        } else {
            false
        }
    }

    /// React to a window event. Cursor movement drives the clear color: red
    /// becomes x/width and green y/height, each clamped to [0, 1]; blue and
    /// alpha stay fixed. Every other event leaves the state unchanged. The
    /// event is observed, never consumed, so this always returns false.
    pub fn input(&mut self, event: &WindowEvent) -> (consumed: bool)
        requires
            old(self).wf(),
        ensures
            final(self).wf(),
            !consumed,
            match *event {
                WindowEvent::CursorMoved { x, y } => *final(self) == (State {
                    clear_color: cursor_color(old(self).width, old(self).height, x, y),
                    ..*old(self)
                }),
                WindowEvent::Other => *final(self) == *old(self),
            },
    {
        match *event {
            WindowEvent::CursorMoved { x, y } => {
                let red = Channel::clamped(x, self.width);
                let green = Channel::clamped(y, self.height);
                self.clear_color = ClearColor {
                    red,
                    green,
                    blue: Channel { num: 3, den: 10 },
                    alpha: Channel { num: 1, den: 1 },
                };
            },
            WindowEvent::Other => {},
        }
        false
    }

    /// Per-frame simulation step: nothing to simulate yet, so the state is
    /// left exactly as it was. Present for interface completeness.
    pub fn update(&mut self)
        ensures
            *final(self) == *old(self),
    {
    }

    /// Plan one frame, given the outcome of acquiring the next surface
    /// texture. On success the plan clears to the current color through the
    /// fixed sequence: begin the clearing pass, close it before the encoder
    /// is finished, submit once, present once. An acquisition error is
    /// handed back unchanged for the caller's policy to decide.
    pub fn render(&self, acquire: Result<(), SurfaceError>) -> (r: Result<
        FramePlan,
        SurfaceError,
    >)
        ensures
            match acquire {
                Ok(()) => r is Ok && r->Ok_0.clear == self.clear_color && r->Ok_0.steps@
                    == frame_steps(),
                Err(e) => r == Result::<FramePlan, SurfaceError>::Err(e),
            },
    {
        match acquire {
            Ok(()) => {
                let steps: Vec<RenderStep> = vec![
                    RenderStep::BeginPass,
                    RenderStep::EndPass,
                    RenderStep::Submit,
                    RenderStep::Present,
                ];
                assert(steps@ =~= frame_steps());
                Ok(FramePlan { clear: self.clear_color, steps })
            },
            Err(e) => Err(e),
        }
    }
}

} // verus!
