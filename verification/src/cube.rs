//! The textured cube: what its setup creates, how its model transform moves
//! from frame to frame, and the commands that draw one frame.

use crate::mesh::{cube_indices, cube_vertices, index_table, vertex_table, Vertex};
use crate::scalar::Tenths;
use crate::setup::SetupError;
use crate::shader::{
    cube_fragment_source, cube_fragment_variants, cube_vertex_source, cube_vertex_variants, glsl_120,
    glsl_150, lemma_choice_is_unique, lemma_two_dialect_choice, GlslVersion, ShaderSource,
    ShaderVariant, CUBE_FRAGMENT_GLSL_120, CUBE_FRAGMENT_GLSL_150, CUBE_VERTEX_GLSL_120,
    CUBE_VERTEX_GLSL_150,
};
use crate::texture::{
    FilterMethod, ImageInfo, SamplerInfo, TextureInfo, WrapMode, BYTES_PER_TEXEL,
};
use crate::window::Event;
use vstd::prelude::*;

verus! {

/// Name of the uniform that holds the model-view-projection matrix.
pub const TRANSFORM_UNIFORM: &'static str = "u_ModelViewProj";

/// Name of the uniform that holds the texture and its sampler.
pub const TEXTURE_UNIFORM: &'static str = "t_Color";

/// A column of a matrix.
#[derive(Clone, Copy, Debug, PartialEq, Eq, Structural)]
pub struct Vector4 {
    pub x: Tenths,
    pub y: Tenths,
    pub z: Tenths,
    pub w: Tenths,
}

/// A four by four matrix, held as its columns `x`, `y`, `z` and `w`.
#[derive(Clone, Copy, Debug, PartialEq, Eq, Structural)]
pub struct Matrix4 {
    pub x: Vector4,
    pub y: Vector4,
    pub z: Vector4,
    pub w: Vector4,
}

impl Matrix4 {
    /// The identity matrix: ones on the diagonal, zeros elsewhere.
    pub open spec fn unit() -> Matrix4 {
        Matrix4 {
            x: Vector4 { x: Tenths(10), y: Tenths(0), z: Tenths(0), w: Tenths(0) },
            y: Vector4 { x: Tenths(0), y: Tenths(10), z: Tenths(0), w: Tenths(0) },
            z: Vector4 { x: Tenths(0), y: Tenths(0), z: Tenths(10), w: Tenths(0) },
            w: Vector4 { x: Tenths(0), y: Tenths(0), z: Tenths(0), w: Tenths(10) },
        }
    }

    /// The matrix with the first entry of the first column set to one.
    pub open spec fn advanced(self) -> Matrix4 {
        Matrix4 { x: Vector4 { x: Tenths(10), ..self.x }, ..self }
    }

    pub fn identity() -> (m: Matrix4)
        ensures
            m == Matrix4::unit(),
    {
        Matrix4 {
            x: Vector4 { x: Tenths(10), y: Tenths(0), z: Tenths(0), w: Tenths(0) },
            y: Vector4 { x: Tenths(0), y: Tenths(10), z: Tenths(0), w: Tenths(0) },
            z: Vector4 { x: Tenths(0), y: Tenths(0), z: Tenths(10), w: Tenths(0) },
            w: Vector4 { x: Tenths(0), y: Tenths(0), z: Tenths(0), w: Tenths(10) },
        }
    }
}

/// The model transform for the next frame: the first entry of the first
/// column becomes one, every other entry stays.
pub fn advance_model(model: Matrix4) -> (next: Matrix4)
    ensures
        next == model.advanced(),
        next.x.x == Tenths(10),
        next.x.y == model.x.y && next.x.z == model.x.z && next.x.w == model.x.w,
        next.y == model.y && next.z == model.z && next.w == model.w,
{
    let mut next = model;
    next.x.x = Tenths(10);
    next
}

/// What a frame is cleared to. `None` leaves that buffer as it is.
#[derive(Clone, Copy, Debug, PartialEq, Eq)]
pub struct ClearData {
    /// Red, green, blue and alpha.
    pub color: Option<[Tenths; 4]>,
    pub depth: Option<Tenths>,
    pub stencil: Option<u8>,
}

/// The test that decides whether a fragment replaces what was drawn.
#[derive(Clone, Copy, Debug, PartialEq, Eq, Structural)]
pub enum Comparison {
    Never,
    Less,
    LessEqual,
    Equal,
    GreaterEqual,
    Greater,
    NotEqual,
    Always,
}

/// The depth test of a draw call.
#[derive(Clone, Copy, Debug, PartialEq, Eq, Structural)]
pub struct DepthTest {
    pub function: Comparison,
    /// Whether a fragment that passes writes its depth.
    pub write: bool,
}

/// A range of the index buffer: entries `start` up to but not including
/// `end`.
#[derive(Clone, Copy, Debug, PartialEq, Eq, Structural)]
pub struct IndexSlice {
    pub start: u32,
    pub end: u32,
}

/// The two shader texts of a program, in the dialect of one context.
#[derive(Clone, Copy, Debug, PartialEq, Eq)]
pub struct ProgramSource {
    pub vertex: &'static str,
    pub fragment: &'static str,
}

/// The camera: where it stands, what it looks at, and its lens.
#[derive(Clone, Copy, Debug, PartialEq, Eq)]
pub struct Camera {
    pub eye: [Tenths; 3],
    pub target: [Tenths; 3],
    pub up: [Tenths; 3],
    /// Vertical field of view, in degrees.
    pub fov_degrees: Tenths,
    pub near: Tenths,
    pub far: Tenths,
}

/// A command of the frame's command list.
#[derive(Clone, Copy, Debug, PartialEq, Eq)]
pub enum Command {
    /// Empty the command list.
    Reset,
    /// Clear the frame.
    Clear(ClearData),
    /// Hand the program the product of the view-projection matrix and this
    /// model transform.
    SetTransform(Matrix4),
    /// Draw the triangles that this range of the index buffer describes.
    Draw(IndexSlice),
    /// Send the command list to the device.
    Submit,
}

/// The clear of every frame: grey, fully opaque, at the far end of the
/// depth range, with the stencil buffer left alone.
pub open spec fn frame_clear() -> ClearData {
    ClearData {
        color: Some([Tenths(3), Tenths(3), Tenths(3), Tenths(10)]),
        depth: Some(Tenths(10)),
        stencil: None,
    }
}

/// The commands of one frame that shows `model` and draws `slice`.
pub open spec fn frame_plan(model: Matrix4, slice: IndexSlice) -> Seq<Command> {
    seq![
        Command::Reset,
        Command::Clear(frame_clear()),
        Command::SetTransform(model),
        Command::Draw(slice),
        Command::Submit,
    ]
}

/// What an event leads to: the model transform afterwards and the commands
/// to run. Only a render event of a program that is ready does anything.
pub open spec fn reaction(ready: bool, event: Event, model: Matrix4, slice: IndexSlice) -> (
    Matrix4,
    Seq<Command>,
) {
    if ready && event is Render {
        (model.advanced(), frame_plan(model.advanced(), slice))
    } else {
        (model, Seq::empty())
    }
}

/// True when exactly one command of `commands` is a clear.
pub open spec fn clears_once(commands: Seq<Command>) -> bool {
    &&& exists|i: int| 0 <= i < commands.len() && #[trigger] commands[i] is Clear
    &&& forall|i: int, j: int|
        0 <= i < commands.len() && 0 <= j < commands.len() && #[trigger] commands[i] is Clear
            && #[trigger] commands[j] is Clear ==> i == j
}

/// True when exactly one command of `commands` is a draw.
pub open spec fn draws_once(commands: Seq<Command>) -> bool {
    &&& exists|i: int| 0 <= i < commands.len() && #[trigger] commands[i] is Draw
    &&& forall|i: int, j: int|
        0 <= i < commands.len() && 0 <= j < commands.len() && #[trigger] commands[i] is Draw
            && #[trigger] commands[j] is Draw ==> i == j
}

pub fn clear_data() -> (clear: ClearData)
    ensures
        clear == frame_clear(),
{
    ClearData {
        color: Some([Tenths(3), Tenths(3), Tenths(3), Tenths(10)]),
        depth: Some(Tenths(10)),
        stencil: None,
    }
}

/// The commands of one frame, in the order in which they run.
pub fn frame_commands(model: Matrix4, slice: IndexSlice) -> (commands: Vec<Command>)
    ensures
        commands@ == frame_plan(model, slice),
{
    vec![
        Command::Reset,
        Command::Clear(clear_data()),
        Command::SetTransform(model),
        Command::Draw(slice),
        Command::Submit,
    ]
}

/// Reacts to an event of the loop. A render event, once the setup is
/// ready, advances the model transform and draws a frame that shows it;
/// anything else changes nothing and draws nothing.
pub fn react(ready: bool, event: &Event, model: Matrix4, slice: IndexSlice) -> (out: (
    Matrix4,
    Vec<Command>,
))
    ensures
        (out.0, out.1@) == reaction(ready, *event, model, slice),
{
    match event {
        Event::Render(_) => {
            if ready {
                let next = advance_model(model);
                (next, frame_commands(next, slice))
            } else {
                (model, Vec::new())
            }
        },
        _ => (model, Vec::new()),
    }
}

/// A frame empties the command list first and submits it last, clears
/// exactly once and draws exactly once in between, and draws the range it
/// was given.
pub proof fn lemma_frame_shape(model: Matrix4, slice: IndexSlice)
    ensures
        frame_plan(model, slice).len() == 5,
        frame_plan(model, slice).first() == Command::Reset,
        frame_plan(model, slice).last() == Command::Submit,
        clears_once(frame_plan(model, slice)),
        draws_once(frame_plan(model, slice)),
        frame_plan(model, slice)[3] == Command::Draw(slice),
{
    let plan = frame_plan(model, slice);
    assert(plan[1] is Clear);
    assert(plan[3] is Draw);
    assert(!(plan[0] is Clear) && !(plan[2] is Clear) && !(plan[3] is Clear) && !(plan[4] is Clear));
    assert(!(plan[0] is Draw) && !(plan[1] is Draw) && !(plan[2] is Draw) && !(plan[4] is Draw));
}

/// Every render event of a ready program gives a frame with one clear and
/// one draw. No other event, and no event before the setup is ready, gives
/// any command or moves the model.
pub proof fn lemma_reaction(ready: bool, event: Event, model: Matrix4, slice: IndexSlice)
    ensures
        ready && event is Render ==> clears_once(reaction(ready, event, model, slice).1)
            && draws_once(reaction(ready, event, model, slice).1),
        !(ready && event is Render) ==> reaction(ready, event, model, slice).1.len() == 0
            && reaction(ready, event, model, slice).0 == model,
{
    lemma_frame_shape(model.advanced(), slice);
}

/// Advancing the model twice is advancing it once, and the identity is
/// already advanced.
pub proof fn lemma_advance_settles(model: Matrix4)
    ensures
        model.advanced().advanced() == model.advanced(),
        Matrix4::unit().advanced() == Matrix4::unit(),
{
}

/// Everything that the cube's setup creates, as plain values.
#[derive(Clone, Debug, PartialEq, Eq)]
pub struct CubeResources {
    pub vertices: Vec<Vertex>,
    pub indices: Vec<u8>,
    /// The part of the index buffer that a frame draws.
    pub slice: IndexSlice,
    pub texture: TextureInfo,
    /// The region of the texture that the upload fills.
    pub image: ImageInfo,
    /// The bytes of the upload, four per texel.
    pub texels: Vec<u8>,
    pub sampler: SamplerInfo,
    pub vertex_source: ShaderSource,
    pub fragment_source: ShaderSource,
    pub state: DepthTest,
    /// The model transform before the first frame.
    pub model: Matrix4,
}

/// The mathematical value of a `CubeResources`.
pub struct CubeResourcesView {
    pub vertices: Seq<Vertex>,
    pub indices: Seq<u8>,
    pub slice: IndexSlice,
    pub texture: TextureInfo,
    pub image: ImageInfo,
    pub texels: Seq<u8>,
    pub sampler: SamplerInfo,
    pub vertex_variants: Seq<ShaderVariant>,
    pub fragment_variants: Seq<ShaderVariant>,
    pub state: DepthTest,
    pub model: Matrix4,
}

impl View for CubeResources {
    type V = CubeResourcesView;

    open spec fn view(&self) -> CubeResourcesView {
        CubeResourcesView {
            vertices: self.vertices@,
            indices: self.indices@,
            slice: self.slice,
            texture: self.texture,
            image: self.image,
            texels: self.texels@,
            sampler: self.sampler,
            vertex_variants: self.vertex_source.variants@,
            fragment_variants: self.fragment_source.variants@,
            state: self.state,
            model: self.model,
        }
    }
}

impl CubeResourcesView {
    /// True when the parts fit each other: the slice lies within the
    /// index buffer and holds whole triangles, every index in it names a
    /// vertex, and the upload covers the whole texture with four bytes
    /// for each of its texels.
    pub open spec fn well_formed(self) -> bool {
        &&& self.slice.start <= self.slice.end <= self.indices.len()
        &&& (self.slice.end - self.slice.start) % 3 == 0
        &&& forall|j: int|
            self.slice.start <= j < self.slice.end ==> (#[trigger] self.indices[j]) < self.vertices.len()
        &&& self.image == self.texture.whole_image()
        &&& self.texels.len() == BYTES_PER_TEXEL * self.image.texel_count()
    }
}

/// The one texel of the cube's texture: red `0x20`, green `0xA0`, blue
/// `0xC0`, alpha zero.
pub open spec fn texel_bytes() -> Seq<u8> {
    seq![0x20u8, 0xA0u8, 0xC0u8, 0x00u8]
}

/// What the cube's setup creates.
pub open spec fn cube_bundle() -> CubeResourcesView {
    CubeResourcesView {
        vertices: vertex_table(),
        indices: index_table(),
        slice: IndexSlice { start: 0, end: 36 },
        texture: TextureInfo { width: 1, height: 1, levels: 1 },
        image: (TextureInfo { width: 1, height: 1, levels: 1 }).whole_image(),
        texels: texel_bytes(),
        sampler: SamplerInfo { filter: FilterMethod::Bilinear, wrap: WrapMode::Clamp },
        vertex_variants: cube_vertex_variants(),
        fragment_variants: cube_fragment_variants(),
        state: DepthTest { function: Comparison::LessEqual, write: true },
        model: Matrix4::unit(),
    }
}

/// The program that a context of version `context` is handed: both texts
/// in GLSL 1.50 from that version on, both in GLSL 1.20 from 1.20 up to
/// it, and none below.
pub open spec fn cube_program_texts(context: GlslVersion) -> Option<(Seq<char>, Seq<char>)> {
    if context.supports(glsl_150()) {
        Some((CUBE_VERTEX_GLSL_150@, CUBE_FRAGMENT_GLSL_150@))
    } else if context.supports(glsl_120()) {
        Some((CUBE_VERTEX_GLSL_120@, CUBE_FRAGMENT_GLSL_120@))
    } else {
        None
    }
}

impl CubeResources {
    /// Describes the cube's resources. The description depends on nothing:
    /// every call gives the same one.
    pub fn new() -> (resources: CubeResources)
        ensures
            resources@ == cube_bundle(),
            resources@.well_formed(),
    {
        let texture = TextureInfo::new(1, 1, 1);
        let image = texture.to_image_info();
        let resources = CubeResources {
            vertices: cube_vertices(),
            indices: cube_indices(),
            slice: IndexSlice { start: 0, end: 36 },
            texture,
            image,
            texels: vec![0x20u8, 0xA0u8, 0xC0u8, 0x00u8],
            sampler: SamplerInfo::new(FilterMethod::Bilinear, WrapMode::Clamp),
            vertex_source: cube_vertex_source(),
            fragment_source: cube_fragment_source(),
            state: DepthTest { function: Comparison::LessEqual, write: true },
            model: Matrix4::identity(),
        };
        proof {
            crate::mesh::lemma_indices_in_range();
        }
        resources
    }

    /// The shader texts to link for `context`: of each source the variant
    /// that `ShaderSource::select` picks. Fails with `SetupError::Shader`
    /// exactly when the context can run no variant of one of the sources.
    pub fn program_for(&self, context: GlslVersion) -> (program: Result<ProgramSource, SetupError>)
        ensures
            program is Ok <==> (exists|k: int| #[trigger] self.vertex_source.usable(context, k)) && (
            exists|k: int| #[trigger] self.fragment_source.usable(context, k)),
            program matches Ok(p) ==> exists|v: int, f: int|
                {
                    &&& #[trigger] self.vertex_source.chosen(context, v)
                    &&& #[trigger] self.fragment_source.chosen(context, f)
                    &&& p.vertex@ == self.vertex_source.variants@[v].text@
                    &&& p.fragment@ == self.fragment_source.variants@[f].text@
                },
            program matches Err(e) ==> e == SetupError::Shader,
    {
        let vertex = self.vertex_source.select(context);
        let fragment = self.fragment_source.select(context);
        match (vertex, fragment) {
            (Some(v), Some(f)) => {
                proof {
                    let kv = choose|k: int| #[trigger]
                        self.vertex_source.chosen(context, k) && v@
                            == self.vertex_source.variants@[k].text@;
                    let kf = choose|k: int| #[trigger]
                        self.fragment_source.chosen(context, k) && f@
                            == self.fragment_source.variants@[k].text@;
                    assert(self.vertex_source.usable(context, kv));
                    assert(self.fragment_source.usable(context, kf));
                }
                Ok(ProgramSource { vertex: v, fragment: f })
            },
            _ => Err(SetupError::Shader),
        }
    }
}

/// The cube's program for a context: see `cube_program_texts`.
pub fn cube_program(context: GlslVersion) -> (program: Result<ProgramSource, SetupError>)
    ensures
        match cube_program_texts(context) {
            Some((vertex, fragment)) => program matches Ok(p) && p.vertex@ == vertex && p.fragment@
                == fragment,
            None => program == Err::<ProgramSource, SetupError>(SetupError::Shader),
        },
{
    let resources = CubeResources::new();
    let program = resources.program_for(context);
    proof {
        let vs = resources.vertex_source;
        let fs = resources.fragment_source;
        lemma_two_dialect_choice(vs, context);
        lemma_two_dialect_choice(fs, context);
        match program {
            Ok(p) => {
                let (v, f) = choose|v: int, f: int|
                    {
                        &&& #[trigger] vs.chosen(context, v)
                        &&& #[trigger] fs.chosen(context, f)
                        &&& p.vertex@ == vs.variants@[v].text@
                        &&& p.fragment@ == fs.variants@[f].text@
                    };
                assert(vs.usable(context, v));
                if context.supports(glsl_150()) {
                    lemma_choice_is_unique(vs, context, v, 1);
                    lemma_choice_is_unique(fs, context, f, 1);
                } else {
                    lemma_choice_is_unique(vs, context, v, 0);
                    lemma_choice_is_unique(fs, context, f, 0);
                }
            },
            Err(_) => {
                if context.supports(glsl_120()) {
                    if context.supports(glsl_150()) {
                        assert(vs.usable(context, 1) && fs.usable(context, 1));
                    } else {
                        assert(vs.usable(context, 0) && fs.usable(context, 0));
                    }
                }
            },
        }
    }
    program
}

/// The cube's camera: at (1.5, -5, 3), looking at the origin with the z
/// axis up, through a 45 degree lens that sees from distance 1 to 10.
pub fn cube_camera() -> (camera: Camera)
    ensures
        camera == (Camera {
            eye: [Tenths(15), Tenths(-50i32), Tenths(30)],
            target: [Tenths(0), Tenths(0), Tenths(0)],
            up: [Tenths(0), Tenths(0), Tenths(10)],
            fov_degrees: Tenths(450),
            near: Tenths(10),
            far: Tenths(100),
        }),
{
    Camera {
        eye: [Tenths(15), Tenths(-50), Tenths(30)],
        target: [Tenths(0), Tenths(0), Tenths(0)],
        up: [Tenths(0), Tenths(0), Tenths(10)],
        fov_degrees: Tenths(450),
        near: Tenths(10),
        far: Tenths(100),
    }
}

/// Setting up twice describes the same resources: whatever two runs of
/// `CubeResources::new` return, the two have the same value. That value is
/// well formed, and its slice is the whole index buffer: twelve triangles.
pub proof fn lemma_setup_repeats(first: CubeResources, second: CubeResources)
    requires
        first@ == cube_bundle(),
        second@ == cube_bundle(),
    ensures
        first@ == second@,
        first@.well_formed(),
        first@.slice.start == 0 && first@.slice.end == first@.indices.len(),
        first@.slice.end - first@.slice.start == 3 * crate::mesh::TRIANGLE_COUNT,
{
    crate::mesh::lemma_indices_in_range();
    let bundle = cube_bundle();
    assert(bundle.image.width == 1 && bundle.image.height == 1 && bundle.image.depth == 1);
    assert(bundle.image.texel_count() == 1) by (nonlinear_arith)
        requires
            bundle.image.width == 1 && bundle.image.height == 1 && bundle.image.depth == 1,
    ;
    assert(bundle.texels.len() == 4);
    assert(bundle.indices.len() == 36);
    assert(bundle.vertices.len() == 24);
}

} // verus!
