//! The application loop core.
//!
//! The loop owns the renderer and an ordered sequence of shapes.  Each
//! frame it first applies that frame's position updates (the work the
//! registered pre-render callback does), then renders every shape in
//! sequence order.  Two ordering guarantees are part of the contracts:
//! updates made in a frame are visible in that same frame's draw calls
//! (no one-frame lag), and draw calls come in exactly sequence order, so
//! later shapes draw over earlier ones.
//!
//! Platform work (the window, buffer swaps, event polling) stays outside:
//! an embedding program supplies the per-frame updates as a schedule and
//! executes the returned draw calls.

use vstd::prelude::*;

use crate::rational::{qv_int, Q};
use crate::shapes::{command_of, DrawCommand, Renderer, ShapeRenderable};
use crate::vec2::Vec2;

verus! {

/// One position update a frame makes: shape `index` moves to `(x, y)`.
/// Updates to indexes past the end of the shape sequence do nothing.
#[derive(Clone, Copy)]
pub struct PositionUpdate {
    pub index: usize,
    pub x: Q,
    pub y: Q,
}

/// One frame of the schedule: the position updates applied before that
/// frame's render pass.
pub struct FrameInput {
    pub moves: Vec<PositionUpdate>,
}

/// The loop's life cycle; `Stopped` is terminal.
pub enum LoopState {
    Initialized,
    Running,
    Stopped,
}

/// The shape with its position replaced.
pub open spec fn moved(s: ShapeRenderable, x: Q, y: Q) -> ShapeRenderable {
    ShapeRenderable { position: Vec2 { x, y }, kind: s.kind, style: s.style }
}

/// One position update applied to the shape sequence.
pub open spec fn apply_move(shapes: Seq<ShapeRenderable>, m: PositionUpdate)
    -> Seq<ShapeRenderable> {
    if (m.index as int) < shapes.len() {
        shapes.update(m.index as int, moved(shapes[m.index as int], m.x, m.y))
    } else {
        shapes
    }
}

/// A frame's updates applied in order.
pub open spec fn apply_moves(shapes: Seq<ShapeRenderable>, moves: Seq<PositionUpdate>)
    -> Seq<ShapeRenderable>
    decreases moves.len(),
{
    if moves.len() == 0 {
        shapes
    } else {
        apply_move(apply_moves(shapes, moves.drop_last()), moves.last())
    }
}

/// The shape sequence after the whole schedule has run.
pub open spec fn shapes_after(shapes: Seq<ShapeRenderable>, script: Seq<FrameInput>)
    -> Seq<ShapeRenderable>
    decreases script.len(),
{
    if script.len() == 0 {
        shapes
    } else {
        apply_moves(shapes_after(shapes, script.drop_last()), script.last().moves@)
    }
}

/// A rendered frame is correct for a shape sequence when it has one draw
/// call per shape, at the same index: the call for shapes `i < j` come in
/// that order, so later shapes draw over earlier ones.
pub open spec fn frame_ok(frame: Seq<DrawCommand>, shapes: Seq<ShapeRenderable>) -> bool {
    &&& frame.len() == shapes.len()
    &&& forall|j: int| 0 <= j < shapes.len() ==> (#[trigger] frame[j])@ == command_of(shapes[j])
}

/// Apply one frame's position updates, in order, to the shape sequence.
fn apply_updates(shapes: &mut Vec<ShapeRenderable>, moves: &Vec<PositionUpdate>)
    ensures
        final(shapes)@ == apply_moves(old(shapes)@, moves@),
{
    let ghost orig = shapes@;
    let mut i: usize = 0;
    while i < moves.len()
        invariant
            i <= moves@.len(),
            shapes@ == apply_moves(orig, moves@.take(i as int)),
        decreases moves@.len() - i,
    {
        let m = moves[i];
        if m.index < shapes.len() {
            shapes[m.index].set_position(m.x, m.y);
        }
        proof {
            assert(moves@.take(i + 1).drop_last() =~= moves@.take(i as int));
            assert(moves@.take(i + 1).last() == moves@[i as int]);
        }
        i = i + 1;
    }
    proof {
        assert(moves@.take(moves@.len() as int) =~= moves@);
    }
}

/// The application loop: a renderer, an ordered shape sequence, a frame
/// schedule, and the loop state.
pub struct App {
    pub renderer: Renderer,
    pub shapes: Vec<ShapeRenderable>,
    pub script: Vec<FrameInput>,
    pub state: LoopState,
}

impl App {
    /// A fresh application with no shapes and an empty schedule.
    pub fn new() -> (app: App)
        ensures
            app.state is Initialized,
            app.shapes@.len() == 0,
            app.script@.len() == 0,
            app.renderer.point_size@ == qv_int(1),
    {
        App {
            renderer: Renderer::new(),
            shapes: Vec::new(),
            script: Vec::new(),
            state: LoopState::Initialized,
        }
    }

    pub fn renderer(&self) -> (r: &Renderer)
        ensures
            *r == self.renderer,
    {
        &self.renderer
    }

    /// Append a shape; later shapes draw over earlier ones.  The shape
    /// set is fixed once the loop starts running.
    pub fn add_shape(&mut self, shape: ShapeRenderable)
        requires
            old(self).state is Initialized,
        ensures
            final(self).shapes@ == old(self).shapes@.push(shape),
            final(self).renderer == old(self).renderer,
            final(self).script@ == old(self).script@,
            final(self).state == old(self).state,
    {
        self.shapes.push(shape);
    }

    pub fn shapes(&self) -> (r: &Vec<ShapeRenderable>)
        ensures
            r@ == self.shapes@,
    {
        &self.shapes
    }

    /// Mutable access to the shapes, as the pre-render callback gets it:
    /// positions may change, membership may not.
    pub fn shapes_mut(&mut self) -> (r: &mut Vec<ShapeRenderable>)
        ensures
            *r == old(self).shapes,
            final(self).shapes == *final(r),
            final(self).renderer == old(self).renderer,
            final(self).script@ == old(self).script@,
            final(self).state == old(self).state,
    {
        &mut self.shapes
    }

    /// Register the per-frame work: the position updates each frame will
    /// apply before its render pass.
    pub fn on_render(&mut self, script: Vec<FrameInput>)
        requires
            old(self).state is Initialized,
        ensures
            final(self).script@ == script@,
            final(self).renderer == old(self).renderer,
            final(self).shapes@ == old(self).shapes@,
            final(self).state == old(self).state,
    {
        self.script = script;
    }

    /// One render pass over the current shapes, in sequence order.
    /// Because the pass reads each position fresh, any update made before
    /// the pass is reflected in it.
    pub fn frame_commands(&self) -> (frame: Vec<DrawCommand>)
        ensures
            frame_ok(frame@, self.shapes@),
    {
        let mut frame: Vec<DrawCommand> = Vec::new();
        let mut i: usize = 0;
        while i < self.shapes.len()
            invariant
                i <= self.shapes@.len(),
                frame@.len() == i,
                forall|j: int| 0 <= j < i ==> (#[trigger] frame@[j])@
                    == command_of(self.shapes@[j]),
            decreases self.shapes@.len() - i,
        {
            let cmd = self.shapes[i].render(&self.renderer);
            frame.push(cmd);
            i = i + 1;
        }
        frame
    }

    /// Drive the loop over the registered schedule: for each frame, apply
    /// that frame's updates, then render every shape in order.  The
    /// returned trace holds one frame of draw calls per schedule entry,
    /// and frame `k` reflects the shape positions after frame `k`'s own
    /// updates — never the previous frame's.
    pub fn run(&mut self) -> (frames: Vec<Vec<DrawCommand>>)
        requires
            old(self).state is Initialized,
        ensures
            final(self).state is Stopped,
            final(self).shapes@ == shapes_after(old(self).shapes@, old(self).script@),
            final(self).script@ == old(self).script@,
            final(self).renderer == old(self).renderer,
            frames@.len() == old(self).script@.len(),
            forall|k: int| 0 <= k < frames@.len() ==> frame_ok(
                (#[trigger] frames@[k])@,
                shapes_after(old(self).shapes@, old(self).script@.take(k + 1)),
            ),
    {
        self.state = LoopState::Running;
        let ghost orig = self.shapes@;
        let ghost script0 = self.script@;
        let mut frames: Vec<Vec<DrawCommand>> = Vec::new();
        let mut i: usize = 0;
        while i < self.script.len()
            invariant
                self.script@ == script0,
                self.renderer == old(self).renderer,
                i <= script0.len(),
                frames@.len() == i,
                self.shapes@ == shapes_after(orig, script0.take(i as int)),
                forall|k: int| 0 <= k < i ==> frame_ok(
                    (#[trigger] frames@[k])@,
                    shapes_after(orig, script0.take(k + 1)),
                ),
            decreases script0.len() - i,
        {
            apply_updates(&mut self.shapes, &self.script[i].moves);
            proof {
                assert(script0.take(i + 1).drop_last() =~= script0.take(i as int));
                assert(script0.take(i + 1).last() == script0[i as int]);
                assert(shapes_after(orig, script0.take(i + 1))
                    == apply_moves(shapes_after(orig, script0.take(i as int)),
                        script0[i as int].moves@));
            }
            let frame = self.frame_commands();
            frames.push(frame);
            i = i + 1;
        }
        proof {
            assert(script0.take(script0.len() as int) =~= script0);
        }
        self.state = LoopState::Stopped;
        frames
    }
}

} // verus!
