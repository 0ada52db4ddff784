use graphics_examples::cube::{cube_program, CubeResources, ProgramSource};
use graphics_examples::setup::SetupError;
use graphics_examples::shader::{
    cube_fragment_source, cube_vertex_source, GlslVersion, ShaderSource, ShaderVariant,
    CUBE_FRAGMENT_GLSL_120, CUBE_FRAGMENT_GLSL_150, CUBE_VERTEX_GLSL_120, CUBE_VERTEX_GLSL_150,
    TRIANGLE_FRAGMENT_GLSL, TRIANGLE_VERTEX_GLSL,
};

fn joined(lines: &[&str]) -> String {
    let mut text = String::new();
    for line in lines {
        text.push_str(line);
    }
    text
}

fn cube_vertex_text_120() -> String {
    joined(&[
        "\n",
        "    #version 120\n",
        "    attribute vec3 a_Pos;\n",
        "    attribute vec2 a_TexCoord;\n",
        "    varying vec2 v_TexCoord;\n",
        "    uniform mat4 u_ModelViewProj;\n",
        "    void main() {\n",
        "        v_TexCoord = a_TexCoord;\n",
        "        gl_Position = u_ModelViewProj * vec4(a_Pos, 1.0);\n",
        "    }\n",
    ])
}

fn cube_vertex_text_150() -> String {
    joined(&[
        "\n",
        "    #version 150 core\n",
        "    in vec3 a_Pos;\n",
        "    in vec2 a_TexCoord;\n",
        "    out vec2 v_TexCoord;\n",
        "    uniform mat4 u_ModelViewProj;\n",
        "    void main() {\n",
        "        v_TexCoord = a_TexCoord;\n",
        "        gl_Position = u_ModelViewProj * vec4(a_Pos, 1.0);\n",
        "    }\n",
    ])
}

fn cube_fragment_text_120() -> String {
    joined(&[
        "\n",
        "    #version 120\n",
        "    varying vec2 v_TexCoord;\n",
        "    uniform sampler2D t_Color;\n",
        "    void main() {\n",
        "        vec4 tex = texture2D(t_Color, v_TexCoord);\n",
        "        float blend = dot(v_TexCoord-vec2(0.5,0.5), v_TexCoord-vec2(0.5,0.5));\n",
        "        gl_FragColor = mix(tex, vec4(0.0,0.0,0.0,0.0), blend*1.0);\n",
        "    }\n",
    ])
}

fn cube_fragment_text_150() -> String {
    joined(&[
        "\n",
        "    #version 150 core\n",
        "    in vec2 v_TexCoord;\n",
        "    out vec4 o_Color;\n",
        "    uniform sampler2D t_Color;\n",
        "    void main() {\n",
        "        vec4 tex = texture(t_Color, v_TexCoord);\n",
        "        float blend = dot(v_TexCoord-vec2(0.5,0.5), v_TexCoord-vec2(0.5,0.5));\n",
        "        o_Color = mix(tex, vec4(0.0,0.0,0.0,0.0), blend*1.0);\n",
        "    }\n",
    ])
}

fn triangle_vertex_text() -> String {
    joined(&[
        "\n",
        "#version 330\n",
        "in vec2 position;\n",
        "    \n",
        "void main() {\n",
        "    gl_Position = vec4(position, 0.0, 1.0);\n",
        "}\n",
    ])
}

fn triangle_fragment_text() -> String {
    joined(&[
        "\n",
        "#version 330\n",
        "out vec4 out_color;\n",
        "\n",
        "void main() {\n",
        "    out_color = vec4(1.0, 0.0, 0.0, 1.0);\n",
        "}\n",
    ])
}

fn version(major: u32, minor: u32) -> GlslVersion {
    GlslVersion::new(major, minor)
}

#[test]
fn cube_shader_texts_are_kept_byte_for_byte() {
    assert_eq!(CUBE_VERTEX_GLSL_120.as_bytes(), cube_vertex_text_120().as_bytes());
    assert_eq!(CUBE_VERTEX_GLSL_150.as_bytes(), cube_vertex_text_150().as_bytes());
    assert_eq!(CUBE_FRAGMENT_GLSL_120.as_bytes(), cube_fragment_text_120().as_bytes());
    assert_eq!(CUBE_FRAGMENT_GLSL_150.as_bytes(), cube_fragment_text_150().as_bytes());
    assert_eq!(CUBE_VERTEX_GLSL_120.len(), 253);
    assert_eq!(CUBE_VERTEX_GLSL_150.len(), 240);
    assert_eq!(CUBE_FRAGMENT_GLSL_120.len(), 299);
    assert_eq!(CUBE_FRAGMENT_GLSL_150.len(), 314);
}

#[test]
fn triangle_shader_texts_are_kept_byte_for_byte() {
    assert_eq!(TRIANGLE_VERTEX_GLSL, triangle_vertex_text());
    assert_eq!(TRIANGLE_FRAGMENT_GLSL, triangle_fragment_text());
    assert!(TRIANGLE_VERTEX_GLSL.contains("in vec2 position;\n    \nvoid main()"));
    assert_eq!(TRIANGLE_VERTEX_GLSL.len(), 97);
    assert_eq!(TRIANGLE_FRAGMENT_GLSL.len(), 93);
}

#[test]
fn version_order_is_by_major_then_minor() {
    assert!(version(1, 50).can_run(&version(1, 50)));
    assert!(version(1, 50).can_run(&version(1, 20)));
    assert!(!version(1, 20).can_run(&version(1, 50)));
    assert!(version(3, 30).can_run(&version(1, 50)));
    assert!(!version(1, 99).can_run(&version(2, 0)));
    assert!(version(2, 0).can_run(&version(1, 99)));
}

#[test]
fn context_of_glsl_150_gets_the_150_variant() {
    let source = cube_vertex_source();
    assert_eq!(source.select(version(1, 50)), Some(CUBE_VERTEX_GLSL_150));
    assert_eq!(cube_fragment_source().select(version(1, 50)), Some(CUBE_FRAGMENT_GLSL_150));
}

#[test]
fn context_of_glsl_120_gets_the_120_variant() {
    assert_eq!(cube_vertex_source().select(version(1, 20)), Some(CUBE_VERTEX_GLSL_120));
    assert_eq!(cube_fragment_source().select(version(1, 20)), Some(CUBE_FRAGMENT_GLSL_120));
}

#[test]
fn contexts_between_the_dialects_get_the_older_one() {
    assert_eq!(cube_vertex_source().select(version(1, 30)), Some(CUBE_VERTEX_GLSL_120));
    assert_eq!(cube_vertex_source().select(version(1, 40)), Some(CUBE_VERTEX_GLSL_120));
    assert_eq!(cube_vertex_source().select(version(1, 49)), Some(CUBE_VERTEX_GLSL_120));
}

#[test]
fn newer_contexts_get_the_newest_variant() {
    assert_eq!(cube_vertex_source().select(version(3, 30)), Some(CUBE_VERTEX_GLSL_150));
    assert_eq!(cube_vertex_source().select(version(4, 0)), Some(CUBE_VERTEX_GLSL_150));
    assert_eq!(cube_vertex_source().select(version(u32::MAX, u32::MAX)), Some(CUBE_VERTEX_GLSL_150));
}

#[test]
fn older_contexts_get_nothing() {
    assert_eq!(cube_vertex_source().select(version(1, 10)), None);
    assert_eq!(cube_vertex_source().select(version(1, 19)), None);
    assert_eq!(cube_vertex_source().select(version(0, 0)), None);
}

#[test]
fn empty_source_offers_nothing() {
    let source = ShaderSource { variants: Vec::new() };
    assert_eq!(source.select(version(4, 60)), None);
}

#[test]
fn selection_does_not_depend_on_the_order_of_variants() {
    let source = ShaderSource {
        variants: vec![
            ShaderVariant { version: version(1, 50), text: "new" },
            ShaderVariant { version: version(1, 20), text: "old" },
            ShaderVariant { version: version(1, 40), text: "middle" },
        ],
    };
    assert_eq!(source.select(version(1, 50)), Some("new"));
    assert_eq!(source.select(version(1, 45)), Some("middle"));
    assert_eq!(source.select(version(1, 39)), Some("old"));
    assert_eq!(source.select(version(1, 19)), None);
}

#[test]
fn first_of_two_variants_in_one_dialect_wins() {
    let source = ShaderSource {
        variants: vec![
            ShaderVariant { version: version(1, 20), text: "first" },
            ShaderVariant { version: version(1, 20), text: "second" },
        ],
    };
    assert_eq!(source.select(version(1, 20)), Some("first"));
    assert_eq!(source.select(version(3, 30)), Some("first"));
}

#[test]
fn cube_sources_hold_two_dialects_each() {
    let vertex = cube_vertex_source();
    let fragment = cube_fragment_source();
    assert_eq!(vertex.variants.len(), 2);
    assert_eq!(fragment.variants.len(), 2);
    assert_eq!(vertex.variants[0].version, version(1, 20));
    assert_eq!(vertex.variants[1].version, version(1, 50));
    assert_eq!(fragment.variants[0].version, version(1, 20));
    assert_eq!(fragment.variants[1].version, version(1, 50));
}

#[test]
fn cube_program_matches_the_context() {
    assert_eq!(
        cube_program(version(1, 50)),
        Ok(ProgramSource { vertex: CUBE_VERTEX_GLSL_150, fragment: CUBE_FRAGMENT_GLSL_150 })
    );
    assert_eq!(
        cube_program(version(1, 20)),
        Ok(ProgramSource { vertex: CUBE_VERTEX_GLSL_120, fragment: CUBE_FRAGMENT_GLSL_120 })
    );
    assert_eq!(
        cube_program(version(1, 40)),
        Ok(ProgramSource { vertex: CUBE_VERTEX_GLSL_120, fragment: CUBE_FRAGMENT_GLSL_120 })
    );
    assert_eq!(cube_program(version(1, 10)), Err(SetupError::Shader));
}

#[test]
fn program_fails_when_one_source_has_no_usable_variant() {
    let mut resources = CubeResources::new();
    resources.fragment_source = ShaderSource {
        variants: vec![ShaderVariant { version: version(1, 50), text: "fragment" }],
    };
    assert_eq!(resources.program_for(version(1, 20)), Err(SetupError::Shader));
    assert_eq!(
        resources.program_for(version(1, 50)),
        Ok(ProgramSource { vertex: CUBE_VERTEX_GLSL_150, fragment: "fragment" })
    );
}

#[test]
fn shader_texts_name_the_uniforms_and_attributes() {
    assert!(CUBE_VERTEX_GLSL_150.contains(graphics_examples::cube::TRANSFORM_UNIFORM));
    assert!(CUBE_FRAGMENT_GLSL_150.contains(graphics_examples::cube::TEXTURE_UNIFORM));
    assert!(CUBE_VERTEX_GLSL_120.contains(graphics_examples::mesh::POSITION_ATTRIBUTE));
    assert!(CUBE_VERTEX_GLSL_120.contains(graphics_examples::mesh::TEX_COORD_ATTRIBUTE));
    assert!(CUBE_VERTEX_GLSL_120.contains("#version 120"));
    assert!(CUBE_VERTEX_GLSL_150.contains("#version 150 core"));
}
