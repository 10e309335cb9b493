//! The orchestrator: what is sent to the GPU on each notification.
//!
//! The orchestrator performs nothing itself. Each of its operations returns
//! the commands that the caller is to carry out, in order, and moves to the
//! state that holds once they are.

use vstd::prelude::*;
use crate::geometry::{circle_index_count, checked_index_count, DomainError, TRIANGLE_VERTEX_COUNT};
use crate::shape::{Shape, ShapeType};
use crate::uniforms::{Uniforms, Viewport};

verus! {

/// The binding slot of the aspect uniform, shared by all draws.
pub const ASPECT_SLOT: u32 = 0;

/// The binding slot of the instance record of the shape being drawn.
pub const INSTANCE_SLOT: u32 = 1;

/// How the attempt to acquire a drawable target ended.
#[derive(Clone, Copy, PartialEq, Eq, Debug, Structural)]
pub enum Acquire {
    /// There is a target to draw to.
    Acquired,
    /// The surface is stale or lost.
    SurfaceLost,
}

/// What a binding slot is pointed at.
#[derive(Clone, Copy, PartialEq, Eq, Debug, Structural)]
pub enum BindGroup {
    /// The aspect uniform.
    Aspect,
    /// The instance record of the shape at this place in the draw order.
    Instance { shape: usize },
}

/// One step for the caller to carry out.
#[derive(Clone, Copy, PartialEq, Eq, Debug, Structural)]
pub enum Command {
    /// Configure the presentation surface for this size.
    Reconfigure { width: u32, height: u32 },
    /// Write this ratio, a single-precision bit pattern, to the aspect
    /// uniform's buffer.
    UploadAspect { aspect_ratio: u32 },
    /// Begin a render pass on the acquired target, clearing it.
    BeginPass,
    /// Select the pipeline of this kind.
    SetPipeline { kind: ShapeType },
    /// Point a binding slot at a resource.
    SetBindGroup { slot: u32, group: BindGroup },
    /// Bind the shared vertex buffer of this kind.
    SetVertexBuffer { kind: ShapeType },
    /// Bind the shared index buffer of this kind.
    SetIndexBuffer { kind: ShapeType },
    /// Draw one instance through the first `index_count` indices.
    DrawIndexed { index_count: u32 },
    /// Draw one instance of the first `vertex_count` vertices.
    Draw { vertex_count: u32 },
    /// End the render pass.
    EndPass,
    /// Submit what was recorded.
    Submit,
    /// Present the target.
    Present,
}

impl Command {
    /// The command rasterizes something.
    pub open spec fn is_draw(self) -> bool {
        self is DrawIndexed || self is Draw
    }

    /// The command writes the aspect uniform.
    pub open spec fn is_upload(self) -> bool {
        self is UploadAspect
    }
}

/// The draw call that ends the commands of a shape of this kind.
pub open spec fn draw_call(kind: ShapeType, index_count: u32) -> Command {
    match kind {
        ShapeType::Circle => Command::DrawIndexed { index_count },
        ShapeType::Triangle => Command::Draw { vertex_count: TRIANGLE_VERTEX_COUNT },
    }
}

/// The commands that draw one shape: its kind's pipeline, the aspect uniform
/// and the shape's own instance record in their slots, the kind's shared
/// buffers, and one draw call.
pub open spec fn shape_commands(kind: ShapeType, shape: usize, index_count: u32) -> Seq<Command> {
    match kind {
        ShapeType::Circle => seq![
            Command::SetPipeline { kind },
            Command::SetBindGroup { slot: ASPECT_SLOT, group: BindGroup::Aspect },
            Command::SetBindGroup { slot: INSTANCE_SLOT, group: BindGroup::Instance { shape } },
            Command::SetVertexBuffer { kind },
            Command::SetIndexBuffer { kind },
            draw_call(kind, index_count),
        ],
        ShapeType::Triangle => seq![
            Command::SetPipeline { kind },
            Command::SetBindGroup { slot: ASPECT_SLOT, group: BindGroup::Aspect },
            Command::SetBindGroup { slot: INSTANCE_SLOT, group: BindGroup::Instance { shape } },
            Command::SetVertexBuffer { kind },
            draw_call(kind, index_count),
        ],
    }
}

/// The commands that draw all of `shapes`, first to last.
pub open spec fn draw_commands(shapes: Seq<Shape>, index_count: u32) -> Seq<Command>
    decreases shapes.len(),
{
    if shapes.len() == 0 {
        Seq::empty()
    } else {
        draw_commands(shapes.drop_last(), index_count) + shape_commands(
            shapes.last().shape_type,
            (shapes.len() - 1) as usize,
            index_count,
        )
    }
}

/// The upload that the per-frame check asks for: the live ratio if it was
/// found to differ from the stored one, else nothing.
pub open spec fn upload_commands(ratio: u32, differs: bool) -> Seq<Command> {
    if differs {
        seq![Command::UploadAspect { aspect_ratio: ratio }]
    } else {
        Seq::empty()
    }
}

/// Appends the commands that draw one shape.
pub fn record_shape(commands: &mut Vec<Command>, kind: ShapeType, shape: usize, index_count: u32)
    ensures
        final(commands)@ == old(commands)@ + shape_commands(kind, shape, index_count),
{
    commands.push(Command::SetPipeline { kind });
    commands.push(Command::SetBindGroup { slot: ASPECT_SLOT, group: BindGroup::Aspect });
    commands.push(Command::SetBindGroup { slot: INSTANCE_SLOT, group: BindGroup::Instance { shape } });
    commands.push(Command::SetVertexBuffer { kind });
    match kind {
        ShapeType::Circle => {
            commands.push(Command::SetIndexBuffer { kind });
            commands.push(Command::DrawIndexed { index_count });
        },
        ShapeType::Triangle => {
            commands.push(Command::Draw { vertex_count: TRIANGLE_VERTEX_COUNT });
        },
    }
    assert(commands@ =~= old(commands)@ + shape_commands(kind, shape, index_count));
}

/// A GPU resource that the caller holds for the renderer.
#[derive(Clone, Copy, PartialEq, Eq, Debug, Structural)]
pub enum Resource {
    /// The aspect uniform: its buffer and its binding.
    AspectUniform,
    /// The shared vertex buffer of a kind.
    VertexBuffer { kind: ShapeType },
    /// The shared index buffer of a kind.
    IndexBuffer { kind: ShapeType },
    /// The pipeline of a kind.
    Pipeline { kind: ShapeType },
    /// The instance record of the shape at this place: its buffer and its
    /// binding.
    Instance { shape: usize },
}

/// The resources that exist before the first shape, in the order in which
/// they are acquired.
pub open spec fn shared_resources() -> Seq<Resource> {
    seq![
        Resource::AspectUniform,
        Resource::VertexBuffer { kind: ShapeType::Circle },
        Resource::IndexBuffer { kind: ShapeType::Circle },
        Resource::VertexBuffer { kind: ShapeType::Triangle },
        Resource::Pipeline { kind: ShapeType::Circle },
        Resource::Pipeline { kind: ShapeType::Triangle },
    ]
}

/// All resources of a renderer with `shapes` shapes, in the order in which
/// they are acquired: the shared ones, then one instance record per shape.
pub open spec fn acquisition_order(shapes: nat) -> Seq<Resource> {
    shared_resources() + Seq::new(shapes, |i: int| Resource::Instance { shape: i as usize })
}

/// The state of the renderer between notifications.
#[derive(Clone, PartialEq, Eq, Debug)]
pub struct Renderer {
    /// The shapes, in the order in which they were added and are drawn.
    pub shapes: Vec<Shape>,
    /// The number of indices of the circle's closed loop.
    pub circle_index_count: u32,
    /// The size of the viewport as last recorded.
    pub viewport: Viewport,
    /// The uniforms as the GPU has them.
    pub uniforms: Uniforms,
    /// No close was requested yet.
    pub running: bool,
}

impl Renderer {
    /// The commands of one frame tick, where `ratio` is the aspect ratio of
    /// the live viewport and `differs` says whether the caller found it
    /// further from the stored one than the tolerance.
    ///
    /// Without a target the surface is configured anew and nothing is drawn.
    /// With one, the aspect uniform is brought up to date first, then every
    /// shape is drawn in one render pass, which is submitted and presented.
    /// After a close no frame is issued.
    pub open spec fn frame_commands(self, target: Acquire, ratio: u32, differs: bool) -> Seq<
        Command,
    > {
        if !self.running {
            Seq::empty()
        } else {
            match target {
                Acquire::SurfaceLost => seq![
                    Command::Reconfigure {
                        width: self.viewport.width,
                        height: self.viewport.height,
                    },
                ],
                Acquire::Acquired => upload_commands(ratio, differs)
                    + seq![Command::BeginPass]
                    + draw_commands(self.shapes@, self.circle_index_count)
                    + seq![Command::EndPass, Command::Submit, Command::Present],
            }
        }
    }

    /// The state after one frame tick: only the uniforms can have moved.
    pub open spec fn after_frame(self, target: Acquire, ratio: u32, differs: bool) -> Renderer {
        if self.running && target is Acquired {
            Renderer { uniforms: self.uniforms.reconciled(ratio, differs), ..self }
        } else {
            self
        }
    }

    /// The commands of a resize to `width` by `height`, whose aspect ratio
    /// is `ratio`: none after a close.
    pub open spec fn resize_commands(self, width: u32, height: u32, ratio: u32) -> Seq<Command> {
        if self.running {
            seq![
                Command::Reconfigure { width, height },
                Command::UploadAspect { aspect_ratio: ratio },
            ]
        } else {
            Seq::empty()
        }
    }

    /// The state after a resize to `width` by `height`, whose aspect ratio
    /// is `ratio`.
    pub open spec fn after_resize(self, width: u32, height: u32, ratio: u32) -> Renderer {
        if self.running {
            Renderer {
                viewport: Viewport { width, height },
                uniforms: Uniforms { aspect_ratio: ratio },
                ..self
            }
        } else {
            self
        }
    }

    /// What a close releases: everything, last acquired first. A second
    /// close finds nothing left.
    pub open spec fn close_releases(self) -> Seq<Resource> {
        if self.running {
            acquisition_order(self.shapes@.len()).reverse()
        } else {
            Seq::empty()
        }
    }

    /// A renderer without shapes for a circle of `circle_segments` segments
    /// and a viewport whose aspect ratio is `aspect_ratio`.
    pub fn new(circle_segments: usize, viewport: Viewport, aspect_ratio: u32) -> (renderer: Result<
        Renderer,
        DomainError,
    >)
        ensures
            match checked_index_count(circle_segments as nat) {
                Ok(count) => renderer matches Ok(r) && r.shapes@ == Seq::<Shape>::empty()
                    && r.circle_index_count == count && r.viewport == viewport
                    && r.uniforms.aspect_ratio == aspect_ratio && r.running,
                Err(e) => renderer == Err::<Renderer, DomainError>(e),
            },
    {
        match circle_index_count(circle_segments) {
            Ok(count) => Ok(
                Renderer {
                    shapes: Vec::new(),
                    circle_index_count: count,
                    viewport,
                    uniforms: Uniforms { aspect_ratio },
                    running: true,
                },
            ),
            Err(e) => Err(e),
        }
    }

    /// Adds a shape behind all others and gives its place in the draw order.
    pub fn add_shape(&mut self, shape: Shape) -> (place: usize)
        ensures
            place == old(self).shapes@.len(),
            final(self).shapes@ == old(self).shapes@.push(shape),
            final(self).circle_index_count == old(self).circle_index_count,
            final(self).viewport == old(self).viewport,
            final(self).uniforms == old(self).uniforms,
            final(self).running == old(self).running,
    {
        let place = self.shapes.len();
        self.shapes.push(shape);
        place
    }

    /// Records the size of the viewport as the caller finds it, without a
    /// resize notification. A lost surface is configured for this size.
    pub fn set_viewport(&mut self, viewport: Viewport)
        ensures
            *final(self) == (Renderer { viewport, ..*old(self) }),
    {
        self.viewport = viewport;
    }

    /// One frame tick, given how acquiring the target ended, the aspect
    /// ratio of the live viewport, and whether the caller found that ratio
    /// further from the stored one than the tolerance.
    pub fn frame(&mut self, target: Acquire, ratio: u32, differs: bool) -> (commands: Vec<Command>)
        ensures
            commands@ == old(self).frame_commands(target, ratio, differs),
            *final(self) == old(self).after_frame(target, ratio, differs),
    {
        let mut commands: Vec<Command> = Vec::new();
        if !self.running {
            return commands;
        }
        match target {
            Acquire::SurfaceLost => {
                commands.push(
                    Command::Reconfigure { width: self.viewport.width, height: self.viewport.height },
                );
                assert(commands@ =~= old(self).frame_commands(target, ratio, differs));
            },
            Acquire::Acquired => {
                if self.uniforms.reconcile(ratio, differs) {
                    commands.push(Command::UploadAspect { aspect_ratio: self.uniforms.aspect_ratio });
                }
                commands.push(Command::BeginPass);
                let ghost head = upload_commands(ratio, differs) + seq![Command::BeginPass];
                assert(commands@ =~= head);
                let count = self.shapes.len();
                let mut i: usize = 0;
                while i < count
                    invariant
                        i <= count == self.shapes@.len(),
                        commands@ == head + draw_commands(
                            self.shapes@.take(i as int),
                            self.circle_index_count,
                        ),
                    decreases count - i,
                {
                    record_shape(&mut commands, self.shapes[i].shape_type, i, self.circle_index_count);
                    proof {
                        let next = self.shapes@.take(i + 1);
                        assert(next.drop_last() =~= self.shapes@.take(i as int));
                        assert(next.last() == self.shapes@[i as int]);
                    }
                    i = i + 1;
                }
                assert(self.shapes@.take(count as int) =~= self.shapes@);
                commands.push(Command::EndPass);
                commands.push(Command::Submit);
                commands.push(Command::Present);
                assert(commands@ =~= old(self).frame_commands(target, ratio, differs));
            },
        }
        commands
    }

    /// A resize notification: the viewport is recorded, the surface follows
    /// it, and the new aspect ratio is uploaded at once, whatever the stored
    /// one was.
    pub fn resize(&mut self, width: u32, height: u32, ratio: u32) -> (commands: Vec<Command>)
        ensures
            commands@ == old(self).resize_commands(width, height, ratio),
            *final(self) == old(self).after_resize(width, height, ratio),
    {
        let mut commands: Vec<Command> = Vec::new();
        if !self.running {
            return commands;
        }
        self.viewport = Viewport { width, height };
        self.uniforms.aspect_ratio = ratio;
        commands.push(Command::Reconfigure { width, height });
        commands.push(Command::UploadAspect { aspect_ratio: ratio });
        assert(commands@ =~= old(self).resize_commands(width, height, ratio));
        commands
    }

    /// A close request: no frame is issued from now on, and the caller is
    /// told what to release, in the reverse of the order of acquisition.
    pub fn close(&mut self) -> (released: Vec<Resource>)
        ensures
            released@ == old(self).close_releases(),
            *final(self) == (Renderer { running: false, ..*old(self) }),
    {
        let mut released: Vec<Resource> = Vec::new();
        if !self.running {
            return released;
        }
        self.running = false;
        let count = self.shapes.len();
        let ghost order = acquisition_order(count as nat);
        let mut left: usize = count;
        while left > 0
            invariant
                left <= count == self.shapes@.len(),
                order == acquisition_order(count as nat),
                released@.len() == count - left,
                forall|i: int| 0 <= i < released@.len() ==> released@[i] == order[order.len() - 1 - i],
            decreases left,
        {
            left = left - 1;
            released.push(Resource::Instance { shape: left });
        }
        released.push(Resource::Pipeline { kind: ShapeType::Triangle });
        released.push(Resource::Pipeline { kind: ShapeType::Circle });
        released.push(Resource::VertexBuffer { kind: ShapeType::Triangle });
        released.push(Resource::IndexBuffer { kind: ShapeType::Circle });
        released.push(Resource::VertexBuffer { kind: ShapeType::Circle });
        released.push(Resource::AspectUniform);
        assert(released@ =~= order.reverse());
        released
    }
}

} // verus!
