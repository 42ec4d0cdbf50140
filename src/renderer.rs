use vstd::prelude::*;
use crate::animation::{AnimationState, next_counter, counter_in_range};

verus! {

/// Number of position components per vertex.
pub const POSITION_COMPONENTS: u32 = 2;

/// Bytes between consecutive vertices: two tightly packed 32-bit floats.
pub const VERTEX_STRIDE_BYTES: u32 = 8;

/// Number of indices in the quad's two triangles.
pub const QUAD_INDEX_COUNT: u32 = 6;

/// Shader input slot of the vertex position.
pub const POSITION_ATTRIBUTE: u32 = 0;

/// The fixed green, blue and alpha channels of the drawn colour, in hundredths.
pub const COLOR_GREEN: u32 = 20;
pub const COLOR_BLUE: u32 = 20;
pub const COLOR_ALPHA: u32 = 100;

/// Corners of the quad, `x, y` per vertex, in hundredths.
pub open spec fn quad_coords() -> Seq<i32> {
    seq![-50i32, -50i32, 50i32, -50i32, 50i32, 50i32, -50i32, 50i32]
}

/// The two triangles of the quad, as indices into its corners.
pub open spec fn quad_index_seq() -> Seq<u32> {
    seq![0u32, 1u32, 2u32, 2u32, 3u32, 0u32]
}

/// Positions of the quad's four corners, `x, y` per vertex, in hundredths.
pub fn quad_vertex_coords() -> (r: Vec<i32>)
    ensures
        r@ == quad_coords(),
{
    let r = vec![-50i32, -50, 50, -50, 50, 50, -50, 50];
    assert(r@ =~= quad_coords());
    r
}

/// Indices of the quad's two triangles.
pub fn quad_indices() -> (r: Vec<u32>)
    ensures
        r@ == quad_index_seq(),
{
    let r = vec![0u32, 1, 2, 2, 3, 0];
    assert(r@ =~= quad_index_seq());
    r
}

/// The graphics objects owned by one view. Each is a nonzero handle that the
/// context gave out.
#[derive(Clone, Copy, Debug, PartialEq, Eq, Structural)]
pub struct GlHandles {
    pub program: u32,
    pub vertex_array: u32,
    pub vertex_buffer: u32,
    pub index_buffer: u32,
}

/// One call into the graphics context.
#[derive(Clone, Copy, Debug, PartialEq, Eq, Structural)]
pub enum GlCommand {
    /// Bind `buffer` as the array buffer and upload `quad_vertex_coords()`
    /// into it, as 32-bit floats.
    UploadVertices { buffer: u32 },
    BindVertexArray { vertex_array: u32 },
    /// Enable `attribute` and read it as `components` floats per vertex,
    /// `stride_bytes` apart, from offset zero.
    DeclarePositionLayout { attribute: u32, components: u32, stride_bytes: u32 },
    /// Bind `buffer` as the element buffer and upload `quad_indices()` into
    /// it, as 32-bit unsigned integers.
    UploadIndices { buffer: u32 },
    UseProgram { program: u32 },
    /// Set the `u_color` uniform of `program`; channels in hundredths.
    SetColor { program: u32, red: u32, green: u32, blue: u32, alpha: u32 },
    /// Draw a triangle list of `index_count` indices from the element buffer.
    DrawIndexedTriangles { index_count: u32 },
    DeleteProgram { program: u32 },
    DeleteVertexArray { vertex_array: u32 },
    DeleteBuffer { buffer: u32 },
}

/// The commands of one frame with the animation counter at `counter`.
pub open spec fn frame_plan(h: GlHandles, counter: u32) -> Seq<GlCommand> {
    seq![
        GlCommand::UploadVertices { buffer: h.vertex_buffer },
        GlCommand::BindVertexArray { vertex_array: h.vertex_array },
        GlCommand::DeclarePositionLayout {
            attribute: POSITION_ATTRIBUTE,
            components: POSITION_COMPONENTS,
            stride_bytes: VERTEX_STRIDE_BYTES,
        },
        GlCommand::UploadIndices { buffer: h.index_buffer },
        GlCommand::UseProgram { program: h.program },
        GlCommand::SetColor {
            program: h.program,
            red: counter,
            green: COLOR_GREEN,
            blue: COLOR_BLUE,
            alpha: COLOR_ALPHA,
        },
        GlCommand::DrawIndexedTriangles { index_count: QUAD_INDEX_COUNT },
    ]
}

/// The commands that release every object of the view.
pub open spec fn teardown_plan(h: GlHandles) -> Seq<GlCommand> {
    seq![
        GlCommand::DeleteProgram { program: h.program },
        GlCommand::DeleteVertexArray { vertex_array: h.vertex_array },
        GlCommand::DeleteBuffer { buffer: h.vertex_buffer },
        GlCommand::DeleteBuffer { buffer: h.index_buffer },
    ]
}

/// The buffer that a command writes to, if any.
pub open spec fn buffer_of(c: GlCommand) -> Option<u32> {
    match c {
        GlCommand::UploadVertices { buffer } => Some(buffer),
        GlCommand::UploadIndices { buffer } => Some(buffer),
        _ => None,
    }
}

/// The abstract state of a view's renderer.
pub struct TriangleView {
    pub handles: GlHandles,
    pub counter: u32,
    pub live: bool,
}

/// The resources of one embedded view and its colour animation.
pub struct RotatingTriangle {
    handles: GlHandles,
    animation: AnimationState,
    live: bool,
}

impl View for RotatingTriangle {
    type V = TriangleView;

    closed spec fn view(&self) -> TriangleView {
        TriangleView { handles: self.handles, counter: self.animation@, live: self.live }
    }
}

impl RotatingTriangle {
    /// Takes ownership of a linked program, a vertex array and two buffers.
    pub fn new(
        program: u32,
        vertex_array_object: u32,
        vertex_buffer_object: u32,
        index_buffer_object: u32,
    ) -> (r: RotatingTriangle)
        ensures
            r@.handles == (GlHandles {
                program,
                vertex_array: vertex_array_object,
                vertex_buffer: vertex_buffer_object,
                index_buffer: index_buffer_object,
            }),
            r@.counter == 0,
            r@.live,
    {
        RotatingTriangle {
            handles: GlHandles {
                program,
                vertex_array: vertex_array_object,
                vertex_buffer: vertex_buffer_object,
                index_buffer: index_buffer_object,
            },
            animation: AnimationState::new(),
            live: true,
        }
    }

    /// The commands of one frame: upload the quad, declare its layout, set the
    /// colour from the current counter and draw; then advance the counter.
    /// The objects stay the same, so nothing is reallocated between frames.
    pub fn paint(&mut self) -> (r: Vec<GlCommand>)
        requires
            old(self)@.live,
        ensures
            r@ == frame_plan(old(self)@.handles, old(self)@.counter),
            final(self)@.handles == old(self)@.handles,
            final(self)@.counter == next_counter(old(self)@.counter),
            counter_in_range(final(self)@.counter),
            final(self)@.live,
    {
        let h = self.handles;
        let mut r: Vec<GlCommand> = Vec::new();
        r.push(GlCommand::UploadVertices { buffer: h.vertex_buffer });
        r.push(GlCommand::BindVertexArray { vertex_array: h.vertex_array });
        r.push(
            GlCommand::DeclarePositionLayout {
                attribute: POSITION_ATTRIBUTE,
                components: POSITION_COMPONENTS,
                stride_bytes: VERTEX_STRIDE_BYTES,
            },
        );
        r.push(GlCommand::UploadIndices { buffer: h.index_buffer });
        r.push(GlCommand::UseProgram { program: h.program });
        r.push(
            GlCommand::SetColor {
                program: h.program,
                red: self.animation.value(),
                green: COLOR_GREEN,
                blue: COLOR_BLUE,
                alpha: COLOR_ALPHA,
            },
        );
        r.push(GlCommand::DrawIndexedTriangles { index_count: QUAD_INDEX_COUNT });
        self.animation.advance();
        assert(r@ =~= frame_plan(h, old(self)@.counter));
        r
    }

    /// The commands that release the program, the vertex array and both
    /// buffers. After this the view draws no more and is not destroyed again.
    pub fn destroy(&mut self) -> (r: Vec<GlCommand>)
        requires
            old(self)@.live,
        ensures
            r@ == teardown_plan(old(self)@.handles),
            final(self)@.handles == old(self)@.handles,
            final(self)@.counter == old(self)@.counter,
            !final(self)@.live,
    {
        let h = self.handles;
        let mut r: Vec<GlCommand> = Vec::new();
        r.push(GlCommand::DeleteProgram { program: h.program });
        r.push(GlCommand::DeleteVertexArray { vertex_array: h.vertex_array });
        r.push(GlCommand::DeleteBuffer { buffer: h.vertex_buffer });
        r.push(GlCommand::DeleteBuffer { buffer: h.index_buffer });
        self.live = false;
        assert(r@ =~= teardown_plan(h));
        r
    }

    /// Whether the view's objects still exist.
    pub fn is_live(&self) -> (r: bool)
        ensures
            r == self@.live,
    {
        self.live
    }

    /// The animation counter, in hundredths.
    pub fn counter(&self) -> (r: u32)
        ensures
            r == self@.counter,
            counter_in_range(r),
    {
        self.animation.value()
    }

    /// The view's objects.
    pub fn handles(&self) -> (r: GlHandles)
        ensures
            r == self@.handles,
    {
        self.handles
    }
}

/// Two consecutive frames write to the same two buffers, the view's own:
/// a frame uploads into the existing objects and never allocates.
pub proof fn lemma_frames_reuse_buffers(h: GlHandles, counter: u32)
    ensures
        forall|i: int|
            0 <= i < 7 && (#[trigger] buffer_of(frame_plan(h, counter)[i])) is Some ==> {
                &&& buffer_of(frame_plan(h, counter)[i]) == buffer_of(frame_plan(h, next_counter(counter))[i])
                &&& (buffer_of(frame_plan(h, counter)[i]) == Some(h.vertex_buffer)
                    || buffer_of(frame_plan(h, counter)[i]) == Some(h.index_buffer))
            },
{
}

/// Every draw of a frame consumes the quad's indices, a nonempty list that
/// names only existing corners.
pub proof fn lemma_frame_draws_nonempty(h: GlHandles, counter: u32)
    ensures
        forall|i: int|
            0 <= i < frame_plan(h, counter).len() && #[trigger] frame_plan(h, counter)[i] is DrawIndexedTriangles
                ==> {
                &&& frame_plan(h, counter)[i]->index_count > 0
                &&& frame_plan(h, counter)[i]->index_count == quad_index_seq().len()
            },
        quad_coords().len() == 4 * POSITION_COMPONENTS,
        forall|j: int| 0 <= j < quad_index_seq().len() ==> #[trigger] quad_index_seq()[j] < 4,
{
}

} // verus!
