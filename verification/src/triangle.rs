//! The coloured triangle: its program, its vertex buffer and the layout of
//! that buffer, the steps that set them up, and the OpenGL commands of one
//! frame.

use crate::scalar::Tenths;
use crate::shader::{TRIANGLE_FRAGMENT_GLSL, TRIANGLE_VERTEX_GLSL};
use crate::window::RenderArgs;
use vstd::prelude::*;

verus! {

/// Bytes in one scalar of the vertex buffer, a 32-bit float.
pub const SCALAR_BYTES: usize = 4;

/// Scalars per vertex: two of position, three of colour.
pub const SCALARS_PER_VERTEX: usize = 5;

/// Number of vertices of the triangle.
pub const VERTEX_COUNT: usize = 3;

/// How the vertices of a draw call are assembled.
#[derive(Clone, Copy, Debug, PartialEq, Eq, Structural)]
pub enum Primitive {
    Points,
    Lines,
    LineStrip,
    LineLoop,
    Triangles,
    TriangleStrip,
    TriangleFan,
}

/// How often a buffer is expected to change.
#[derive(Clone, Copy, Debug, PartialEq, Eq, Structural)]
pub enum BufferUsage {
    StaticDraw,
    DynamicDraw,
    StreamDraw,
}

/// A shader program: its two texts and the output of its fragment shader.
#[derive(Clone, Copy, Debug, PartialEq, Eq)]
pub struct Program {
    pub vertex_shader: &'static str,
    pub fragment_shader: &'static str,
    /// Number of the colour buffer that the fragment output is bound to.
    pub frag_color_number: u32,
    /// Name of the fragment output.
    pub frag_name: &'static str,
}

/// One vertex attribute: floats read from the vertex buffer.
#[derive(Clone, Copy, Debug, PartialEq, Eq)]
pub struct Attribute {
    pub name: &'static str,
    /// Number of floats.
    pub components: i32,
    /// Bytes from one vertex to the next.
    pub stride: i32,
    /// Bytes from the start of a vertex to the attribute.
    pub offset: usize,
}

impl Attribute {
    /// The bytes of a vertex that the attribute covers: from `offset` up
    /// to but not including this.
    pub open spec fn end(self) -> int {
        self.offset + self.components * SCALAR_BYTES
    }

    /// True when the attribute lies within one vertex.
    pub open spec fn fits(self) -> bool {
        self.components > 0 && self.end() <= self.stride
    }
}

/// A vertex array: the attributes it has enabled.
#[derive(Clone, Debug, PartialEq, Eq)]
pub struct Vao {
    pub attributes: Vec<Attribute>,
}

/// A vertex buffer: its scalars, vertex after vertex.
#[derive(Clone, Debug, PartialEq, Eq)]
pub struct Vbo {
    pub data: Vec<Tenths>,
    pub usage: BufferUsage,
}

/// A step of the triangle's setup.
#[derive(Clone, Copy, Debug, PartialEq, Eq, Structural)]
pub enum SetupStep {
    CreateVertexArray,
    BindVertexArray,
    CompileVertexShader,
    CompileFragmentShader,
    LinkProgram,
    BindFragmentOutput,
    UseProgram,
    /// Create the vertex buffer, bind it and fill it.
    UploadVertexData,
    /// Enable the attribute with this place in the vertex array.
    EnableAttribute(usize),
    BindVertexBuffer,
}

/// The buffers that a clear resets.
#[derive(Clone, Copy, Debug, PartialEq, Eq, Structural)]
pub struct BufferMask {
    pub color: bool,
    pub depth: bool,
    pub stencil: bool,
}

/// An OpenGL command of a frame.
#[derive(Clone, Copy, Debug, PartialEq, Eq)]
pub enum GlCommand {
    Viewport { x: i32, y: i32, width: i32, height: i32 },
    /// Red, green, blue and alpha of later clears.
    ClearColor([Tenths; 4]),
    Clear(BufferMask),
    DrawArrays { primitive: Primitive, first: i32, count: i32 },
}

/// The triangle program.
#[derive(Clone, Debug, PartialEq, Eq)]
pub struct App {
    pub program: Program,
    pub vao: Vao,
    pub vbo: Vbo,
}

/// The mathematical value of an `App`.
pub struct AppView {
    pub program: Program,
    pub attributes: Seq<Attribute>,
    pub data: Seq<Tenths>,
    pub usage: BufferUsage,
}

impl View for App {
    type V = AppView;

    open spec fn view(&self) -> AppView {
        AppView {
            program: self.program,
            attributes: self.vao.attributes@,
            data: self.vbo.data@,
            usage: self.vbo.usage,
        }
    }
}

/// The triangle's vertex buffer: per vertex its position, then its colour.
pub open spec fn vertex_scalars() -> Seq<Tenths> {
    seq![
        Tenths(0), Tenths(5), Tenths(10), Tenths(0), Tenths(0),
        Tenths(5), Tenths(-5i32), Tenths(0), Tenths(10), Tenths(0),
        Tenths(-5i32), Tenths(-5i32), Tenths(0), Tenths(0), Tenths(10),
    ]
}

/// The triangle's attributes: the position, then the colour.
pub open spec fn triangle_attributes() -> Seq<Attribute> {
    seq![
        Attribute { name: "position", components: 2, stride: 20, offset: 0 },
        Attribute { name: "color", components: 3, stride: 20, offset: 8 },
    ]
}

/// What `App::new` describes.
pub open spec fn triangle_app() -> AppView {
    AppView {
        program: Program {
            vertex_shader: TRIANGLE_VERTEX_GLSL,
            fragment_shader: TRIANGLE_FRAGMENT_GLSL,
            frag_color_number: 0,
            frag_name: "out_color",
        },
        attributes: triangle_attributes(),
        data: vertex_scalars(),
        usage: BufferUsage::StaticDraw,
    }
}

/// Position of vertex `k` of a buffer laid out as the triangle's is.
pub open spec fn vertex_position(data: Seq<Tenths>, k: int) -> (Tenths, Tenths) {
    (data[SCALARS_PER_VERTEX * k], data[SCALARS_PER_VERTEX * k + 1])
}

/// Colour of vertex `k` of a buffer laid out as the triangle's is: red,
/// green and blue.
pub open spec fn vertex_color(data: Seq<Tenths>, k: int) -> (Tenths, Tenths, Tenths) {
    (
        data[SCALARS_PER_VERTEX * k + 2],
        data[SCALARS_PER_VERTEX * k + 3],
        data[SCALARS_PER_VERTEX * k + 4],
    )
}

/// The steps that set up a program with `attributes` attributes, in the
/// order in which they run.
pub open spec fn setup_plan(attributes: nat) -> Seq<SetupStep> {
    seq![
        SetupStep::CreateVertexArray,
        SetupStep::BindVertexArray,
        SetupStep::CompileVertexShader,
        SetupStep::CompileFragmentShader,
        SetupStep::LinkProgram,
        SetupStep::BindFragmentOutput,
        SetupStep::UseProgram,
        SetupStep::UploadVertexData,
    ] + Seq::new(attributes, |i: int| SetupStep::EnableAttribute(i as usize)) + seq![
        SetupStep::BindVertexBuffer,
    ]
}

/// The number that OpenGL is handed for a size of `size` pixels: the size
/// itself if it is below 2^31, else the size less 2^32.
pub open spec fn gl_size(size: u32) -> int {
    if size <= 0x7fff_ffff {
        size as int
    } else {
        size - 0x1_0000_0000
    }
}

/// The commands of a frame drawn for `args`.
pub open spec fn render_plan(args: RenderArgs) -> Seq<GlCommand> {
    seq![
        GlCommand::Viewport {
            x: 0,
            y: 0,
            width: gl_size(args.width) as i32,
            height: gl_size(args.height) as i32,
        },
        GlCommand::ClearColor([Tenths(0), Tenths(0), Tenths(0), Tenths(1)]),
        GlCommand::Clear(BufferMask { color: true, depth: false, stencil: false }),
        GlCommand::DrawArrays { primitive: Primitive::Triangles, first: 0, count: 3 },
    ]
}

/// A size in pixels as the signed number that OpenGL takes.
pub fn to_gl_size(size: u32) -> (n: i32)
    ensures
        n == gl_size(size),
        size <= i32::MAX ==> n == size,
{
    if size <= 0x7fff_ffff {
        size as i32
    } else {
        let low: u32 = size - 0x8000_0000;
        let half: i32 = low as i32;
        half + i32::MIN
    }
}

impl App {
    /// Creates a new application.
    pub fn new() -> (app: App)
        ensures
            app@ == triangle_app(),
    {
        let stride: i32 = (SCALARS_PER_VERTEX * SCALAR_BYTES) as i32;
        let program = Program {
            vertex_shader: TRIANGLE_VERTEX_GLSL,
            fragment_shader: TRIANGLE_FRAGMENT_GLSL,
            frag_color_number: 0,
            frag_name: "out_color",
        };
        let vbo = Vbo {
            data: vec![
                Tenths(0), Tenths(5), Tenths(10), Tenths(0), Tenths(0),
                Tenths(5), Tenths(-5), Tenths(0), Tenths(10), Tenths(0),
                Tenths(-5), Tenths(-5), Tenths(0), Tenths(0), Tenths(10),
            ],
            usage: BufferUsage::StaticDraw,
        };
        let vao = Vao {
            attributes: vec![
                Attribute { name: "position", components: 2, stride, offset: 0 },
                Attribute { name: "color", components: 3, stride, offset: 2 * SCALAR_BYTES },
            ],
        };
        App { program, vao, vbo }
    }

    /// The steps that set the program up, in the order in which they run.
    pub fn setup_steps(&self) -> (steps: Vec<SetupStep>)
        ensures
            steps@ == setup_plan(self@.attributes.len()),
    {
        let mut steps = vec![
            SetupStep::CreateVertexArray,
            SetupStep::BindVertexArray,
            SetupStep::CompileVertexShader,
            SetupStep::CompileFragmentShader,
            SetupStep::LinkProgram,
            SetupStep::BindFragmentOutput,
            SetupStep::UseProgram,
            SetupStep::UploadVertexData,
        ];
        let ghost head = steps@;
        let count = self.vao.attributes.len();
        let mut i: usize = 0;
        while i < count
            invariant
                i <= count,
                steps@ == head + Seq::new(i as nat, |k: int| SetupStep::EnableAttribute(k as usize)),
            decreases count - i,
        {
            steps.push(SetupStep::EnableAttribute(i));
            i += 1;
        }
        steps.push(SetupStep::BindVertexBuffer);
        steps
    }

    /// The commands that draw one frame into an area of the size that
    /// `args` gives.
    pub fn render(&self, args: &RenderArgs) -> (commands: Vec<GlCommand>)
        ensures
            commands@ == render_plan(*args),
    {
        vec![
            GlCommand::Viewport {
                x: 0,
                y: 0,
                width: to_gl_size(args.width),
                height: to_gl_size(args.height),
            },
            GlCommand::ClearColor([Tenths(0), Tenths(0), Tenths(0), Tenths(1)]),
            GlCommand::Clear(BufferMask { color: true, depth: false, stencil: false }),
            GlCommand::DrawArrays { primitive: Primitive::Triangles, first: 0, count: 3 },
        ]
    }
}

/// The triangle's vertices stand at (0, 0.5), (0.5, -0.5) and (-0.5,
/// -0.5), and are red, green and blue in that order.
pub proof fn lemma_triangle_vertices()
    ensures
        vertex_scalars().len() == VERTEX_COUNT * SCALARS_PER_VERTEX,
        vertex_position(vertex_scalars(), 0) == (Tenths(0), Tenths(5)),
        vertex_position(vertex_scalars(), 1) == (Tenths(5), Tenths(-5i32)),
        vertex_position(vertex_scalars(), 2) == (Tenths(-5i32), Tenths(-5i32)),
        vertex_color(vertex_scalars(), 0) == (Tenths(10), Tenths(0), Tenths(0)),
        vertex_color(vertex_scalars(), 1) == (Tenths(0), Tenths(10), Tenths(0)),
        vertex_color(vertex_scalars(), 2) == (Tenths(0), Tenths(0), Tenths(10)),
{
}

/// The triangle's attributes share one stride, the size of a vertex. Each
/// lies within a vertex, the colour starts where the position ends, and
/// the two fill the vertex. The buffer holds exactly three such vertices.
pub proof fn lemma_triangle_layout()
    ensures
        forall|i: int|
            0 <= i < triangle_attributes().len() ==> {
                let a = #[trigger] triangle_attributes()[i];
                a.fits() && a.stride == SCALARS_PER_VERTEX * SCALAR_BYTES
            },
        triangle_attributes()[0].offset == 0,
        triangle_attributes()[0].end() == triangle_attributes()[1].offset,
        triangle_attributes()[1].end() == triangle_attributes()[1].stride,
        vertex_scalars().len() * SCALAR_BYTES == VERTEX_COUNT * triangle_attributes()[0].stride,
{
}

/// In the setup, both shaders are compiled before the program is linked,
/// the program is linked before anything uses it, and the vertex data is
/// in place before the attributes are enabled; every attribute is enabled
/// once, in order, and none but those of the vertex array.
pub proof fn lemma_setup_order(attributes: nat)
    ensures
        setup_plan(attributes).len() == 9 + attributes,
        setup_plan(attributes)[2] == SetupStep::CompileVertexShader,
        setup_plan(attributes)[3] == SetupStep::CompileFragmentShader,
        setup_plan(attributes)[4] == SetupStep::LinkProgram,
        setup_plan(attributes)[7] == SetupStep::UploadVertexData,
        forall|i: int|
            0 <= i < attributes ==> #[trigger] setup_plan(attributes)[8 + i]
                == SetupStep::EnableAttribute(i as usize),
        forall|j: int|
            0 <= j < setup_plan(attributes).len() && #[trigger] setup_plan(attributes)[j]
                is EnableAttribute ==> 8 <= j < 8 + attributes,
        setup_plan(attributes).last() == SetupStep::BindVertexBuffer,
{
}

/// Every frame sets the viewport first, to the size it was given, then
/// clears exactly once and draws exactly once: three vertices from the
/// first on, as triangles.
pub proof fn lemma_render_shape(args: RenderArgs)
    ensures
        render_plan(args).len() == 4,
        args.width <= i32::MAX && args.height <= i32::MAX ==> render_plan(args)[0] == (
        GlCommand::Viewport { x: 0, y: 0, width: args.width as i32, height: args.height as i32 }),
        exists|i: int| 0 <= i < render_plan(args).len() && #[trigger] render_plan(args)[i] is Clear,
        forall|i: int, j: int|
            0 <= i < 4 && 0 <= j < 4 && #[trigger] render_plan(args)[i] is Clear
                && #[trigger] render_plan(args)[j] is Clear ==> i == j,
        exists|i: int|
            0 <= i < render_plan(args).len() && #[trigger] render_plan(args)[i] is DrawArrays,
        forall|i: int, j: int|
            0 <= i < 4 && 0 <= j < 4 && #[trigger] render_plan(args)[i] is DrawArrays
                && #[trigger] render_plan(args)[j] is DrawArrays ==> i == j,
        render_plan(args)[3] == (GlCommand::DrawArrays {
            primitive: Primitive::Triangles,
            first: 0,
            count: 3,
        }),
{
    let plan = render_plan(args);
    assert(plan[2] is Clear);
    assert(plan[3] is DrawArrays);
    assert(plan[0] is Viewport && plan[1] is ClearColor);
}

} // verus!
