//! Shader sources kept in several GLSL dialects, and the choice of the one
//! that a given context is handed.

use vstd::prelude::*;

verus! {

/// A version of the GLSL shading language: `1.50` is major 1, minor 50.
#[derive(Clone, Copy, Debug, PartialEq, Eq, Structural)]
pub struct GlslVersion {
    pub major: u32,
    pub minor: u32,
}

impl GlslVersion {
    /// True when a context of this version runs shaders written for
    /// `wanted`: `wanted` is not newer than this version.
    pub open spec fn supports(self, wanted: GlslVersion) -> bool {
        wanted.major < self.major || (wanted.major == self.major && wanted.minor <= self.minor)
    }

    pub fn new(major: u32, minor: u32) -> (version: GlslVersion)
        ensures
            version == (GlslVersion { major, minor }),
    {
        GlslVersion { major, minor }
    }

    pub fn can_run(&self, wanted: &GlslVersion) -> (yes: bool)
        ensures
            yes == self.supports(*wanted),
    {
        wanted.major < self.major || (wanted.major == self.major && wanted.minor <= self.minor)
    }
}

/// GLSL 1.20, the dialect of OpenGL 2.1.
pub open spec fn glsl_120() -> GlslVersion {
    GlslVersion { major: 1, minor: 20 }
}

/// GLSL 1.50, the dialect of the OpenGL 3.2 core profile.
pub open spec fn glsl_150() -> GlslVersion {
    GlslVersion { major: 1, minor: 50 }
}

/// One shader text and the dialect it is written in.
#[derive(Clone, Copy, Debug, PartialEq, Eq)]
pub struct ShaderVariant {
    pub version: GlslVersion,
    pub text: &'static str,
}

/// The same shader written in several dialects.
#[derive(Clone, Debug, PartialEq, Eq)]
pub struct ShaderSource {
    pub variants: Vec<ShaderVariant>,
}

impl ShaderSource {
    /// True when variant `k` exists and `context` can run it.
    pub open spec fn usable(self, context: GlslVersion, k: int) -> bool {
        0 <= k < self.variants@.len() && context.supports(self.variants@[k].version)
    }

    /// True when variant `k` is the one to hand to `context`: the context
    /// can run it, no dialect that the context can run is newer, and no
    /// earlier variant is written in the same dialect.
    pub open spec fn chosen(self, context: GlslVersion, k: int) -> bool {
        &&& self.usable(context, k)
        &&& forall|j: int| #[trigger]
            self.usable(context, j) ==> self.variants@[k].version.supports(self.variants@[j].version)
        &&& forall|j: int|
            0 <= j < k ==> (#[trigger] self.variants@[j]).version != self.variants@[k].version
    }

    /// The text to compile for `context`, or `None` when the context can
    /// run none of the dialects on offer.
    pub fn select(&self, context: GlslVersion) -> (text: Option<&'static str>)
        ensures
            text is None <==> forall|j: int| !#[trigger] self.usable(context, j),
            text matches Some(t) ==> exists|k: int| #[trigger]
                self.chosen(context, k) && t@ == self.variants@[k].text@,
    {
        let mut best: Option<usize> = None;
        let mut i: usize = 0;
        while i < self.variants.len()
            invariant
                i <= self.variants@.len(),
                best is None ==> forall|j: int| 0 <= j < i ==> !#[trigger] self.usable(context, j),
                best matches Some(b) ==> {
                    &&& b < i
                    &&& self.usable(context, b as int)
                    &&& forall|j: int|
                        0 <= j < i && #[trigger] self.usable(context, j) ==> self.variants@[b as int].version.supports(
                            self.variants@[j].version,
                        )
                    &&& forall|j: int|
                        0 <= j < b ==> (#[trigger] self.variants@[j]).version
                            != self.variants@[b as int].version
                },
            decreases self.variants@.len() - i,
        {
            let candidate = &self.variants[i];
            if context.can_run(&candidate.version) {
                let newer = match best {
                    None => true,
                    Some(b) => !self.variants[b].version.can_run(&candidate.version),
                };
                if newer {
                    proof {
                        // An earlier variant in the candidate's dialect would
                        // have been usable too, and not older than `best`.
                        assert forall|j: int| 0 <= j < i implies (#[trigger] self.variants@[j]).version
                            != candidate.version by {
                            if self.variants@[j].version == candidate.version {
                                assert(self.usable(context, j));
                            }
                        }
                    }
                    best = Some(i);
                }
            }
            i += 1;
        }
        match best {
            None => None,
            Some(b) => {
                assert(self.chosen(context, b as int));
                Some(self.variants[b].text)
            },
        }
    }
}

/// At most one variant is the chosen one: what `select` returns is fixed
/// by the variants on offer and the context.
pub proof fn lemma_choice_is_unique(source: ShaderSource, context: GlslVersion, a: int, b: int)
    requires
        source.chosen(context, a),
        source.chosen(context, b),
    ensures
        a == b,
{
    assert(source.usable(context, a) && source.usable(context, b));
    if a < b {
        assert(source.variants@[a].version != source.variants@[b].version);
    } else if b < a {
        assert(source.variants@[b].version != source.variants@[a].version);
    }
}

/// A source written for GLSL 1.20 and for GLSL 1.50, in that order, gives a
/// context of 1.50 or later the second text, a context from 1.20 up to but
/// not including 1.50 the first, and an older context nothing.
pub proof fn lemma_two_dialect_choice(source: ShaderSource, context: GlslVersion)
    requires
        source.variants@.len() == 2,
        source.variants@[0].version == glsl_120(),
        source.variants@[1].version == glsl_150(),
    ensures
        context.supports(glsl_150()) ==> source.chosen(context, 1),
        context.supports(glsl_120()) && !context.supports(glsl_150()) ==> source.chosen(context, 0),
        !context.supports(glsl_120()) ==> forall|j: int| !#[trigger] source.usable(context, j),
{
}

/// The cube's vertex shader in GLSL 1.20.
pub const CUBE_VERTEX_GLSL_120: &'static str = "
    #version 120
    attribute vec3 a_Pos;
    attribute vec2 a_TexCoord;
    varying vec2 v_TexCoord;
    uniform mat4 u_ModelViewProj;
    void main() {
        v_TexCoord = a_TexCoord;
        gl_Position = u_ModelViewProj * vec4(a_Pos, 1.0);
    }
";

/// The cube's vertex shader in GLSL 1.50 core.
pub const CUBE_VERTEX_GLSL_150: &'static str = "
    #version 150 core
    in vec3 a_Pos;
    in vec2 a_TexCoord;
    out vec2 v_TexCoord;
    uniform mat4 u_ModelViewProj;
    void main() {
        v_TexCoord = a_TexCoord;
        gl_Position = u_ModelViewProj * vec4(a_Pos, 1.0);
    }
";

/// The cube's fragment shader in GLSL 1.20.
pub const CUBE_FRAGMENT_GLSL_120: &'static str = "
    #version 120
    varying vec2 v_TexCoord;
    uniform sampler2D t_Color;
    void main() {
        vec4 tex = texture2D(t_Color, v_TexCoord);
        float blend = dot(v_TexCoord-vec2(0.5,0.5), v_TexCoord-vec2(0.5,0.5));
        gl_FragColor = mix(tex, vec4(0.0,0.0,0.0,0.0), blend*1.0);
    }
";

/// The cube's fragment shader in GLSL 1.50 core.
pub const CUBE_FRAGMENT_GLSL_150: &'static str = "
    #version 150 core
    in vec2 v_TexCoord;
    out vec4 o_Color;
    uniform sampler2D t_Color;
    void main() {
        vec4 tex = texture(t_Color, v_TexCoord);
        float blend = dot(v_TexCoord-vec2(0.5,0.5), v_TexCoord-vec2(0.5,0.5));
        o_Color = mix(tex, vec4(0.0,0.0,0.0,0.0), blend*1.0);
    }
";

/// The triangle's vertex shader, in GLSL 3.30.
pub const TRIANGLE_VERTEX_GLSL: &'static str = "
#version 330
in vec2 position;
    
void main() {
    gl_Position = vec4(position, 0.0, 1.0);
}
";

/// The triangle's fragment shader, in GLSL 3.30.
pub const TRIANGLE_FRAGMENT_GLSL: &'static str = "
#version 330
out vec4 out_color;

void main() {
    out_color = vec4(1.0, 0.0, 0.0, 1.0);
}
";

/// The dialects in which the cube's vertex shader is kept.
pub open spec fn cube_vertex_variants() -> Seq<ShaderVariant> {
    seq![
        ShaderVariant { version: glsl_120(), text: CUBE_VERTEX_GLSL_120 },
        ShaderVariant { version: glsl_150(), text: CUBE_VERTEX_GLSL_150 },
    ]
}

/// The dialects in which the cube's fragment shader is kept.
pub open spec fn cube_fragment_variants() -> Seq<ShaderVariant> {
    seq![
        ShaderVariant { version: glsl_120(), text: CUBE_FRAGMENT_GLSL_120 },
        ShaderVariant { version: glsl_150(), text: CUBE_FRAGMENT_GLSL_150 },
    ]
}

pub fn cube_vertex_source() -> (source: ShaderSource)
    ensures
        source.variants@ == cube_vertex_variants(),
{
    ShaderSource {
        variants: vec![
            ShaderVariant { version: GlslVersion::new(1, 20), text: CUBE_VERTEX_GLSL_120 },
            ShaderVariant { version: GlslVersion::new(1, 50), text: CUBE_VERTEX_GLSL_150 },
        ],
    }
}

pub fn cube_fragment_source() -> (source: ShaderSource)
    ensures
        source.variants@ == cube_fragment_variants(),
{
    ShaderSource {
        variants: vec![
            ShaderVariant { version: GlslVersion::new(1, 20), text: CUBE_FRAGMENT_GLSL_120 },
            ShaderVariant { version: GlslVersion::new(1, 50), text: CUBE_FRAGMENT_GLSL_150 },
        ],
    }
}

} // verus!
