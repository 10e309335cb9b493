//! What holds of every command stream the renderer hands out.

use vstd::prelude::*;
use crate::pipeline::{pipeline_table, PolygonMode};
use crate::render::{
    draw_call, draw_commands, shape_commands, upload_commands, Acquire, Command, Renderer,
};
use crate::shape::{Shape, ShapeType};
use crate::uniforms::{lemma_reconcile_idempotent, never_differs_from_itself, Viewport};

verus! {

/// Selects the draw calls of a command stream.
pub open spec fn draws() -> spec_fn(Command) -> bool {
    |c: Command| c.is_draw()
}

/// Selects the uploads of the aspect uniform in a command stream.
pub open spec fn uploads() -> spec_fn(Command) -> bool {
    |c: Command| c.is_upload()
}

/// The draw calls owed to `shapes`: one for each, first to last.
pub open spec fn draw_calls_of(shapes: Seq<Shape>, index_count: u32) -> Seq<Command> {
    Seq::new(shapes.len(), |i: int| draw_call(shapes[i].shape_type, index_count))
}

/// Where the commands of the shape at place `i` begin among the commands
/// that draw `shapes`.
pub open spec fn block_start(shapes: Seq<Shape>, index_count: u32, i: int) -> int {
    draw_commands(shapes.take(i), index_count).len() as int
}

/// Filtering a sequence that ends in `last` filters what comes before it and
/// then lets `last` through or not.
proof fn lemma_filter_push(s: Seq<Command>, last: Command, pred: spec_fn(Command) -> bool)
    ensures
        s.push(last).filter(pred) == if pred(last) {
            s.filter(pred).push(last)
        } else {
            s.filter(pred)
        },
{
    reveal(Seq::filter);
    assert(s.push(last).drop_last() =~= s);
}

/// Nothing is selected from an empty stream.
proof fn lemma_filter_empty(pred: spec_fn(Command) -> bool)
    ensures
        Seq::<Command>::empty().filter(pred) == Seq::<Command>::empty(),
{
    reveal(Seq::filter);
}

/// The commands of one shape end in its draw call and hold no other, and
/// they never touch the aspect uniform.
pub proof fn lemma_shape_commands_hold_one_draw(kind: ShapeType, shape: usize, index_count: u32)
    ensures
        shape_commands(kind, shape, index_count).filter(draws()) == seq![
            draw_call(kind, index_count),
        ],
        shape_commands(kind, shape, index_count).filter(uploads()) == Seq::<Command>::empty(),
        shape_commands(kind, shape, index_count).last() == draw_call(kind, index_count),
{
    let commands = shape_commands(kind, shape, index_count);
    let none = Seq::<Command>::empty();
    lemma_filter_empty(draws());
    lemma_filter_empty(uploads());
    let s1 = none.push(commands[0]);
    let s2 = s1.push(commands[1]);
    let s3 = s2.push(commands[2]);
    let s4 = s3.push(commands[3]);
    let s5 = s4.push(commands[4]);
    lemma_filter_push(none, commands[0], draws());
    lemma_filter_push(s1, commands[1], draws());
    lemma_filter_push(s2, commands[2], draws());
    lemma_filter_push(s3, commands[3], draws());
    lemma_filter_push(s4, commands[4], draws());
    lemma_filter_push(none, commands[0], uploads());
    lemma_filter_push(s1, commands[1], uploads());
    lemma_filter_push(s2, commands[2], uploads());
    lemma_filter_push(s3, commands[3], uploads());
    lemma_filter_push(s4, commands[4], uploads());
    match kind {
        ShapeType::Circle => {
            let s6 = s5.push(commands[5]);
            lemma_filter_push(s5, commands[5], draws());
            lemma_filter_push(s5, commands[5], uploads());
            assert(commands =~= s6);
            assert(s6.filter(draws()) =~= seq![draw_call(kind, index_count)]);
        },
        ShapeType::Triangle => {
            assert(commands =~= s5);
            assert(s5.filter(draws()) =~= seq![draw_call(kind, index_count)]);
        },
    }
}

/// Each shape is drawn with exactly one draw call, and the draw calls come
/// in the order of the shapes.
pub proof fn lemma_one_draw_per_shape(shapes: Seq<Shape>, index_count: u32)
    ensures
        draw_commands(shapes, index_count).filter(draws()) == draw_calls_of(shapes, index_count),
        draw_commands(shapes, index_count).filter(draws()).len() == shapes.len(),
    decreases shapes.len(),
{
    if shapes.len() == 0 {
        lemma_filter_empty(draws());
        assert(draw_calls_of(shapes, index_count) =~= Seq::<Command>::empty());
    } else {
        let before = draw_commands(shapes.drop_last(), index_count);
        let block = shape_commands(
            shapes.last().shape_type,
            (shapes.len() - 1) as usize,
            index_count,
        );
        lemma_one_draw_per_shape(shapes.drop_last(), index_count);
        lemma_shape_commands_hold_one_draw(
            shapes.last().shape_type,
            (shapes.len() - 1) as usize,
            index_count,
        );
        Seq::filter_distributes_over_add(before, block, draws());
        assert(draw_calls_of(shapes, index_count) =~= draw_calls_of(
            shapes.drop_last(),
            index_count,
        ) + seq![draw_call(shapes.last().shape_type, index_count)]);
    }
}

/// Drawing shapes never writes the aspect uniform.
pub proof fn lemma_draws_upload_nothing(shapes: Seq<Shape>, index_count: u32)
    ensures
        draw_commands(shapes, index_count).filter(uploads()) == Seq::<Command>::empty(),
    decreases shapes.len(),
{
    if shapes.len() == 0 {
        lemma_filter_empty(uploads());
    } else {
        let before = draw_commands(shapes.drop_last(), index_count);
        let block = shape_commands(
            shapes.last().shape_type,
            (shapes.len() - 1) as usize,
            index_count,
        );
        lemma_draws_upload_nothing(shapes.drop_last(), index_count);
        lemma_shape_commands_hold_one_draw(
            shapes.last().shape_type,
            (shapes.len() - 1) as usize,
            index_count,
        );
        Seq::filter_distributes_over_add(before, block, uploads());
    }
}

/// The commands that draw the first `i` shapes open the commands that draw
/// all of them.
pub proof fn lemma_draw_commands_extend(shapes: Seq<Shape>, index_count: u32, i: int)
    requires
        0 <= i <= shapes.len(),
    ensures
        block_start(shapes, index_count, i) <= draw_commands(shapes, index_count).len(),
        draw_commands(shapes, index_count).take(block_start(shapes, index_count, i))
            == draw_commands(shapes.take(i), index_count),
    decreases shapes.len(),
{
    if i == shapes.len() {
        assert(shapes.take(i) =~= shapes);
        assert(draw_commands(shapes, index_count).take(block_start(shapes, index_count, i))
            =~= draw_commands(shapes, index_count));
    } else {
        lemma_draw_commands_extend(shapes.drop_last(), index_count, i);
        assert(shapes.drop_last().take(i) =~= shapes.take(i));
        let before = draw_commands(shapes.drop_last(), index_count);
        let start = block_start(shapes, index_count, i);
        assert(draw_commands(shapes, index_count).take(start) =~= before.take(start));
    }
}

/// The shape at place `i` is drawn by one contiguous block of commands: the
/// pipeline of its kind, the aspect uniform in its slot, the shape's own
/// instance record in its slot, the shared buffers of its kind and one draw
/// call. The blocks follow each other in the order of the shapes.
pub proof fn lemma_shape_block(shapes: Seq<Shape>, index_count: u32, i: int)
    requires
        0 <= i < shapes.len(),
    ensures
        block_start(shapes, index_count, i + 1) == block_start(shapes, index_count, i)
            + shape_commands(shapes[i].shape_type, i as usize, index_count).len(),
        block_start(shapes, index_count, i + 1) <= draw_commands(shapes, index_count).len(),
        draw_commands(shapes, index_count).subrange(
            block_start(shapes, index_count, i),
            block_start(shapes, index_count, i + 1),
        ) == shape_commands(shapes[i].shape_type, i as usize, index_count),
{
    let upto = shapes.take(i + 1);
    let block = shape_commands(shapes[i].shape_type, i as usize, index_count);
    assert(upto.drop_last() =~= shapes.take(i));
    assert(upto.last() == shapes[i]);
    assert(draw_commands(upto, index_count) == draw_commands(shapes.take(i), index_count) + block);
    lemma_draw_commands_extend(shapes, index_count, i + 1);
    let start = block_start(shapes, index_count, i);
    let end = block_start(shapes, index_count, i + 1);
    assert(draw_commands(shapes, index_count).subrange(start, end) =~= draw_commands(
        shapes,
        index_count,
    ).take(end).subrange(start, end));
    assert(draw_commands(upto, index_count).subrange(start, end) =~= block);
}

/// Around the draws of a frame stand only commands that are neither draws
/// nor uploads, so selecting either kind looks at the head and the draws
/// alone.
proof fn lemma_filter_frame(head: Seq<Command>, body: Seq<Command>, pred: spec_fn(Command) -> bool)
    requires
        !pred(Command::BeginPass),
        !pred(Command::EndPass),
        !pred(Command::Submit),
        !pred(Command::Present),
    ensures
        (head + seq![Command::BeginPass] + body + seq![
            Command::EndPass,
            Command::Submit,
            Command::Present,
        ]).filter(pred) == head.filter(pred) + body.filter(pred),
{
    let none = Seq::<Command>::empty();
    let pass = seq![Command::BeginPass];
    let tail = seq![Command::EndPass, Command::Submit, Command::Present];
    lemma_filter_empty(pred);
    lemma_filter_push(none, Command::BeginPass, pred);
    assert(pass =~= none.push(Command::BeginPass));
    assert(pass.filter(pred) == none);
    let t1 = none.push(Command::EndPass);
    let t2 = t1.push(Command::Submit);
    lemma_filter_push(none, Command::EndPass, pred);
    lemma_filter_push(t1, Command::Submit, pred);
    lemma_filter_push(t2, Command::Present, pred);
    assert(tail =~= t2.push(Command::Present));
    assert(tail.filter(pred) == none);
    Seq::filter_distributes_over_add(head, pass, pred);
    Seq::filter_distributes_over_add(head + pass, body, pred);
    Seq::filter_distributes_over_add(head + pass + body, tail, pred);
    assert(head.filter(pred) + none + body.filter(pred) + none =~= head.filter(pred) + body.filter(
        pred,
    ));
}

/// What the per-frame check contributes to a frame: one upload of the live
/// ratio if a difference was found, else nothing, and never a draw.
proof fn lemma_filter_upload_commands(ratio: u32, differs: bool)
    ensures
        upload_commands(ratio, differs).filter(draws()) == Seq::<Command>::empty(),
        differs ==> upload_commands(ratio, differs).filter(uploads()) == seq![
            Command::UploadAspect { aspect_ratio: ratio },
        ],
        !differs ==> upload_commands(ratio, differs).filter(uploads())
            == Seq::<Command>::empty(),
{
    let none = Seq::<Command>::empty();
    let upload = Command::UploadAspect { aspect_ratio: ratio };
    let head = upload_commands(ratio, differs);
    lemma_filter_empty(draws());
    lemma_filter_empty(uploads());
    lemma_filter_push(none, upload, draws());
    lemma_filter_push(none, upload, uploads());
    if differs {
        assert(head =~= none.push(upload));
        assert(none.push(upload) =~= seq![upload]);
    } else {
        assert(head =~= none);
    }
}

/// A frame that got its target draws every shape exactly once, in order,
/// inside one render pass that is submitted and presented once.
pub proof fn lemma_frame_draws_every_shape(renderer: Renderer, ratio: u32, differs: bool)
    requires
        renderer.running,
    ensures
        renderer.frame_commands(Acquire::Acquired, ratio, differs).filter(draws())
            == draw_calls_of(renderer.shapes@, renderer.circle_index_count),
        renderer.frame_commands(Acquire::Acquired, ratio, differs).filter(draws()).len()
            == renderer.shapes@.len(),
{
    let head = upload_commands(ratio, differs);
    let body = draw_commands(renderer.shapes@, renderer.circle_index_count);
    lemma_one_draw_per_shape(renderer.shapes@, renderer.circle_index_count);
    lemma_filter_upload_commands(ratio, differs);
    lemma_filter_frame(head, body, draws());
    assert(head.filter(draws()) + body.filter(draws()) =~= body.filter(draws()));
}

/// A frame without a target writes nothing to the aspect uniform.
proof fn lemma_lost_frame_uploads_nothing(renderer: Renderer, ratio: u32, differs: bool)
    requires
        renderer.running,
    ensures
        renderer.frame_commands(Acquire::SurfaceLost, ratio, differs).filter(uploads())
            == Seq::<Command>::empty(),
{
    let none = Seq::<Command>::empty();
    let only = Command::Reconfigure {
        width: renderer.viewport.width,
        height: renderer.viewport.height,
    };
    lemma_filter_empty(uploads());
    lemma_filter_push(none, only, uploads());
    assert(renderer.frame_commands(Acquire::SurfaceLost, ratio, differs) =~= none.push(only));
}

/// A frame with a target writes to the aspect uniform only what the
/// per-frame check asks for.
proof fn lemma_drawn_frame_uploads(renderer: Renderer, ratio: u32, differs: bool)
    requires
        renderer.running,
    ensures
        renderer.frame_commands(Acquire::Acquired, ratio, differs).filter(uploads())
            == upload_commands(ratio, differs).filter(uploads()),
{
    let head = upload_commands(ratio, differs);
    let body = draw_commands(renderer.shapes@, renderer.circle_index_count);
    lemma_draws_upload_nothing(renderer.shapes@, renderer.circle_index_count);
    lemma_filter_frame(head, body, uploads());
    assert(head.filter(uploads()) + body.filter(uploads()) =~= head.filter(uploads()));
}

/// A frame writes the aspect uniform at most once. It does so exactly when
/// it got its target and the live ratio was found to differ from the stored
/// one; what it then writes is the live ratio.
pub proof fn lemma_frame_uploads_at_most_once(
    renderer: Renderer,
    target: Acquire,
    ratio: u32,
    differs: bool,
)
    ensures
        renderer.running && target is Acquired && differs ==> renderer.frame_commands(
            target,
            ratio,
            differs,
        ).filter(uploads()) == seq![Command::UploadAspect { aspect_ratio: ratio }],
        !(renderer.running && target is Acquired && differs) ==> renderer.frame_commands(
            target,
            ratio,
            differs,
        ).filter(uploads()) == Seq::<Command>::empty(),
        renderer.frame_commands(target, ratio, differs).filter(uploads()).len() <= 1,
{
    if !renderer.running {
        lemma_filter_empty(uploads());
    } else {
        match target {
            Acquire::SurfaceLost => {
                lemma_lost_frame_uploads_nothing(renderer, ratio, differs);
            },
            Acquire::Acquired => {
                lemma_drawn_frame_uploads(renderer, ratio, differs);
                lemma_filter_upload_commands(ratio, differs);
            },
        }
    }
}

/// Where a frame writes the aspect uniform, it does so before anything
/// else: the upload opens the frame, the stored ratio becomes the live one,
/// and every draw call comes after it.
pub proof fn lemma_upload_precedes_every_draw(renderer: Renderer, ratio: u32)
    requires
        renderer.running,
    ensures
        renderer.frame_commands(Acquire::Acquired, ratio, true).len() > 0,
        renderer.frame_commands(Acquire::Acquired, ratio, true)[0] == (Command::UploadAspect {
            aspect_ratio: ratio,
        }),
        renderer.after_frame(Acquire::Acquired, ratio, true).uniforms.aspect_ratio == ratio,
        forall|i: int|
            0 <= i < renderer.frame_commands(Acquire::Acquired, ratio, true).len()
                && #[trigger] renderer.frame_commands(Acquire::Acquired, ratio, true)[i].is_draw()
                ==> i > 0,
{
}

/// Two frames in succession against the same live ratio, under a comparison
/// that never tells a ratio from itself: if the first got its target, the
/// second writes nothing to the aspect uniform and leaves the state as the
/// first left it.
pub proof fn lemma_second_frame_uploads_nothing(
    renderer: Renderer,
    second: Acquire,
    ratio: u32,
    differs: spec_fn(u32, u32) -> bool,
)
    requires
        never_differs_from_itself(differs),
    ensures
        ({
            let once = renderer.after_frame(
                Acquire::Acquired,
                ratio,
                differs(ratio, renderer.uniforms.aspect_ratio),
            );
            let again = differs(ratio, once.uniforms.aspect_ratio);
            &&& renderer.running ==> !again
            &&& once.frame_commands(second, ratio, again).filter(uploads())
                == Seq::<Command>::empty()
            &&& once.after_frame(second, ratio, again) == once
        }),
{
    let first = differs(ratio, renderer.uniforms.aspect_ratio);
    let once = renderer.after_frame(Acquire::Acquired, ratio, first);
    let again = differs(ratio, once.uniforms.aspect_ratio);
    lemma_reconcile_idempotent(renderer.uniforms, ratio, differs);
    lemma_frame_uploads_at_most_once(once, second, ratio, again);
}

/// A frame without a target does nothing but configure the surface anew for
/// the recorded viewport: no draw, no submit, no present, no upload, and
/// the stored ratio stays as it was, whatever the comparison found.
pub proof fn lemma_lost_frame_only_reconfigures(renderer: Renderer, ratio: u32, differs: bool)
    requires
        renderer.running,
    ensures
        renderer.frame_commands(Acquire::SurfaceLost, ratio, differs) == seq![
            Command::Reconfigure {
                width: renderer.viewport.width,
                height: renderer.viewport.height,
            },
        ],
        renderer.after_frame(Acquire::SurfaceLost, ratio, differs) == renderer,
        forall|i: int|
            0 <= i < renderer.frame_commands(Acquire::SurfaceLost, ratio, differs).len()
                ==> renderer.frame_commands(Acquire::SurfaceLost, ratio, differs)[i]
                is Reconfigure,
{
}

/// A resize leaves nothing for the next frame to catch up on: the stored
/// ratio is the new one at once, so under a comparison that never tells a
/// ratio from itself the frame that follows draws without another upload.
pub proof fn lemma_frame_after_resize_is_in_sync(
    renderer: Renderer,
    width: u32,
    height: u32,
    ratio: u32,
    differs: spec_fn(u32, u32) -> bool,
)
    requires
        renderer.running,
        never_differs_from_itself(differs),
    ensures
        ({
            let resized = renderer.after_resize(width, height, ratio);
            &&& resized.uniforms.aspect_ratio == ratio
            &&& resized.viewport == (Viewport { width, height })
            &&& resized.frame_commands(
                Acquire::Acquired,
                ratio,
                differs(ratio, resized.uniforms.aspect_ratio),
            ).filter(uploads()) == Seq::<Command>::empty()
        }),
{
    let resized = renderer.after_resize(width, height, ratio);
    lemma_frame_uploads_at_most_once(
        resized,
        Acquire::Acquired,
        ratio,
        differs(ratio, resized.uniforms.aspect_ratio),
    );
}

/// The draws agree with the pipeline table: a kind is drawn through its
/// index buffer exactly when its pipeline is an indexed one.
pub proof fn lemma_draws_agree_with_pipelines(
    kind: ShapeType,
    shape: usize,
    index_count: u32,
    triangle_mode: PolygonMode,
)
    ensures
        pipeline_table(kind, triangle_mode).indexed <==> draw_call(kind, index_count)
            is DrawIndexed,
        pipeline_table(kind, triangle_mode).indexed <==> shape_commands(
            kind,
            shape,
            index_count,
        ).contains(Command::SetIndexBuffer { kind }),
{
    let commands = shape_commands(kind, shape, index_count);
    match kind {
        ShapeType::Circle => {
            assert(commands[4] == (Command::SetIndexBuffer { kind }));
        },
        ShapeType::Triangle => {
            assert(forall|i: int| 0 <= i < commands.len() ==> !(commands[i] is SetIndexBuffer));
        },
    }
}



} // verus!
