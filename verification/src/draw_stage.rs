//! The draw stage: it owns the quad and issues the one draw of a frame.

use vstd::prelude::*;
use crate::error::StageError;
use crate::geometry::{
    lemma_quad_array, quad_array, quad_coordinates, quad_vertices, COMPONENTS_PER_VERTEX,
};
use crate::gl::{
    Attribute, GlCall, ARRAY_BUFFER, COLOR_BUFFER_BIT, DEPTH_BUFFER_BIT, FLOAT, STATIC_DRAW,
    TRIANGLES,
};

verus! {

/// The model of a [`DrawStage`].
pub struct DrawStageView {
    /// Whether `init` has planned the upload of the quad.
    pub initialized: bool,
    /// The coordinates of the quad.
    pub vertices: Seq<i8>,
    /// How many vertices a frame draws.
    pub vert_count: nat,
}

/// The stage that draws the quad.
pub struct DrawStage {
    initialized: bool,
    vertices: [i8; 18],
    vert_count: u32,
}

impl View for DrawStage {
    type V = DrawStageView;

    closed spec fn view(&self) -> DrawStageView {
        DrawStageView {
            initialized: self.initialized,
            vertices: self.vertices@,
            vert_count: self.vert_count as nat,
        }
    }
}

/// The calls that set the stage up: look up the position attribute, upload
/// the quad into a fresh buffer, and describe the buffer's layout (three
/// floats per vertex, tightly packed, at slot 0) in a fresh vertex array.
pub open spec fn draw_init_plan() -> Seq<GlCall> {
    seq![
        GlCall::GetAttribLocation { attribute: Attribute::Position },
        GlCall::CreateBuffer,
        GlCall::BindBuffer { target: ARRAY_BUFFER },
        GlCall::BufferData { target: ARRAY_BUFFER, data: quad_array(), usage: STATIC_DRAW },
        GlCall::CreateVertexArray,
        GlCall::BindVertexArray,
        GlCall::VertexAttribPointer {
            index: 0,
            size: 3,
            data_type: FLOAT,
            normalized: false,
            stride: 0,
            offset: 0,
        },
        GlCall::EnableVertexAttribArray { attribute: Attribute::Position },
        GlCall::BindVertexArray,
    ]
}

/// The calls that draw one frame: clear the bound target's colour and depth
/// to opaque red, then draw the quad's six vertices as a list of triangles,
/// without an index buffer.
pub open spec fn draw_render_plan() -> Seq<GlCall> {
    seq![
        GlCall::ClearColor { red: 255, green: 0, blue: 0, alpha: 255 },
        GlCall::Clear { mask: COLOR_BUFFER_BIT | DEPTH_BUFFER_BIT },
        GlCall::DrawArrays { mode: TRIANGLES, first: 0, count: 6 },
    ]
}

impl DrawStage {
    /// The stage never holds anything but the quad.
    #[verifier::type_invariant]
    closed spec fn inv(self) -> bool {
        self.vertices@ == quad_coordinates() && self.vert_count == 6
    }

    /// A stage that holds the quad and has not been set up.
    pub fn new() -> (stage: DrawStage)
        ensures
            stage@ == (DrawStageView {
                initialized: false,
                vertices: quad_coordinates(),
                vert_count: 6,
            }),
    {
        let vertices: [i8; 18] = quad_vertices();
        let vert_count: usize = vertices.len() / COMPONENTS_PER_VERTEX;
        DrawStage { initialized: false, vertices, vert_count: vert_count as u32 }
    }

    /// Plans the set-up of the stage. A second request is refused and plans
    /// nothing, so that no buffer or vertex array is allocated twice.
    pub fn init(&mut self) -> (r: Result<Vec<GlCall>, StageError>)
        ensures
            old(self)@.initialized ==> r == Err::<Vec<GlCall>, StageError>(
                StageError::AlreadyInitialized,
            ) && final(self)@ == old(self)@,
            !old(self)@.initialized ==> r is Ok && r->Ok_0@ == draw_init_plan() && final(self)@ == (
            DrawStageView { initialized: true, ..old(self)@ }),
    {
        proof {
            use_type_invariant(&*self);
            lemma_quad_array(self.vertices);
        }
        if self.initialized {
            return Err(StageError::AlreadyInitialized);
        }
        self.initialized = true;
        Ok(
            vec![
                GlCall::GetAttribLocation { attribute: Attribute::Position },
                GlCall::CreateBuffer,
                GlCall::BindBuffer { target: ARRAY_BUFFER },
                GlCall::BufferData { target: ARRAY_BUFFER, data: self.vertices, usage: STATIC_DRAW },
                GlCall::CreateVertexArray,
                GlCall::BindVertexArray,
                GlCall::VertexAttribPointer {
                    index: 0,
                    size: 3,
                    data_type: FLOAT,
                    normalized: false,
                    stride: 0,
                    offset: 0,
                },
                GlCall::EnableVertexAttribArray { attribute: Attribute::Position },
                GlCall::BindVertexArray,
            ],
        )
    }

    /// Plans the drawing of one frame into whatever target is bound. The
    /// stage itself is left as it was.
    pub fn render(&mut self) -> (plan: Vec<GlCall>)
        requires
            old(self)@.initialized,
        ensures
            plan@ == draw_render_plan(),
            final(self)@ == old(self)@,
    {
        proof {
            use_type_invariant(&*self);
        }
        vec![
            GlCall::ClearColor { red: 255, green: 0, blue: 0, alpha: 255 },
            GlCall::Clear { mask: COLOR_BUFFER_BIT | DEPTH_BUFFER_BIT },
            GlCall::DrawArrays { mode: TRIANGLES, first: 0, count: self.vert_count as i32 },
        ]
    }

    /// Whether the stage has been set up.
    pub fn is_initialized(&self) -> (b: bool)
        ensures
            b == self@.initialized,
    {
        self.initialized
    }

    /// The coordinates that the host uploads: always those of the quad.
    pub fn vertices(&self) -> (v: &[i8; 18])
        ensures
            v@ == self@.vertices,
            v@ == quad_coordinates(),
            *v == quad_array(),
    {
        proof {
            use_type_invariant(self);
            lemma_quad_array(self.vertices);
        }
        &self.vertices
    }

    /// How many vertices a frame draws: always six.
    pub fn vert_count(&self) -> (n: u32)
        ensures
            n == self@.vert_count,
            n == 6,
    {
        proof {
            use_type_invariant(self);
        }
        self.vert_count
    }
}

} // verus!
