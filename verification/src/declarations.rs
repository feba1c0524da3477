//! What the shader sources declare and compute.

use crate::config::{shader_source, RenderBackend, Stage};
use crate::pipeline::{Attribute, Uniform};
use crate::shaders::{
    GL20_FRAGMENT_SHADER, GL20_VERTEX_SHADER, GL33_FRAGMENT_SHADER, GL33_VERTEX_SHADER,
    GLES2_FRAGMENT_SHADER, GLES2_VERTEX_SHADER,
};
use crate::text::decimal;
use vstd::prelude::*;

verus! {

/// Whether `part` stands in `text` from position `at` on.
pub open spec fn occurs_at(text: Seq<char>, part: Seq<char>, at: int) -> bool {
    &&& 0 <= at
    &&& at + part.len() <= text.len()
    &&& text.subrange(at, at + part.len()) == part
}

/// Whether `part` stands somewhere in `text`.
pub open spec fn occurs(text: Seq<char>, part: Seq<char>) -> bool {
    exists|at: int| occurs_at(text, part, at)
}

/// Whether a C string can be made of `text`: it has no zero character.
pub open spec fn is_c_text(text: Seq<char>) -> bool {
    forall|i: int| 0 <= i < text.len() ==> text[i] != '\0'
}

/// The stage whose shader takes a parameter.
pub open spec fn uniform_stage(uniform: Uniform) -> Stage {
    if uniform == Uniform::Viewport {
        Stage::Vertex
    } else {
        Stage::Fragment
    }
}

/// The type of a parameter.
pub open spec fn uniform_type(uniform: Uniform) -> Seq<char> {
    match uniform {
        Uniform::ImageTexture => "sampler2D"@,
        Uniform::Viewport | Uniform::SpotlightCenter => "vec2"@,
        Uniform::SpotlightRadius | Uniform::SpotlightTint | Uniform::FadeAlpha => "float"@,
        Uniform::SpotlightEnabled => "int"@,
    }
}

/// The declaration of a parameter under its name.
pub open spec fn uniform_declaration(uniform: Uniform) -> Seq<char> {
    "uniform "@ + uniform_type(uniform) + " "@ + uniform.spec_name() + ";"@
}

/// The declaration of an attribute under its name, with its slot where the language has a
/// word for it.
pub open spec fn attribute_declaration(backend: RenderBackend, attribute: Attribute) -> Seq<char> {
    let qualifier = if backend == RenderBackend::Gl33 {
        "layout (location = "@ + decimal(attribute.spec_index() as nat) + ") in vec2 "@
    } else {
        "attribute vec2 "@
    };
    qualifier + attribute.spec_name() + ";"@
}

proof fn lemma_uniform_declarations()
    ensures
        uniform_declaration(Uniform::Viewport) == "uniform vec2 viewport;"@,
        uniform_declaration(Uniform::ImageTexture) == "uniform sampler2D image_texture;"@,
        uniform_declaration(Uniform::SpotlightCenter) == "uniform vec2 spotlight_center;"@,
        uniform_declaration(Uniform::SpotlightRadius) == "uniform float spotlight_radius;"@,
        uniform_declaration(Uniform::SpotlightTint) == "uniform float spotlight_tint;"@,
        uniform_declaration(Uniform::SpotlightEnabled) == "uniform int spotlight_enabled;"@,
        uniform_declaration(Uniform::FadeAlpha) == "uniform float fade_alpha;"@,
        forall|uniform: Uniform| is_c_text(#[trigger] uniform.spec_name()),
{
    reveal_strlit("uniform ");
    reveal_strlit(" ");
    reveal_strlit(";");
    reveal_strlit("sampler2D");
    reveal_strlit("vec2");
    reveal_strlit("float");
    reveal_strlit("int");
    reveal_strlit("viewport");
    reveal_strlit("image_texture");
    reveal_strlit("spotlight_center");
    reveal_strlit("spotlight_radius");
    reveal_strlit("spotlight_tint");
    reveal_strlit("spotlight_enabled");
    reveal_strlit("fade_alpha");
    reveal_strlit("uniform vec2 viewport;");
    reveal_strlit("uniform sampler2D image_texture;");
    reveal_strlit("uniform vec2 spotlight_center;");
    reveal_strlit("uniform float spotlight_radius;");
    reveal_strlit("uniform float spotlight_tint;");
    reveal_strlit("uniform int spotlight_enabled;");
    reveal_strlit("uniform float fade_alpha;");
    assert(uniform_declaration(Uniform::Viewport) =~= "uniform vec2 viewport;"@);
    assert(uniform_declaration(Uniform::ImageTexture) =~= "uniform sampler2D image_texture;"@);
    assert(uniform_declaration(Uniform::SpotlightCenter) =~= "uniform vec2 spotlight_center;"@);
    assert(uniform_declaration(Uniform::SpotlightRadius) =~= "uniform float spotlight_radius;"@);
    assert(uniform_declaration(Uniform::SpotlightTint) =~= "uniform float spotlight_tint;"@);
    assert(uniform_declaration(Uniform::SpotlightEnabled) =~= "uniform int spotlight_enabled;"@);
    assert(uniform_declaration(Uniform::FadeAlpha) =~= "uniform float fade_alpha;"@);
}

proof fn lemma_attribute_declarations(backend: RenderBackend)
    ensures
        attribute_declaration(backend, Attribute::Position) == if backend == RenderBackend::Gl33 {
            "layout (location = 0) in vec2 position;"@
        } else {
            "attribute vec2 position;"@
        },
        attribute_declaration(backend, Attribute::TexCoord) == if backend == RenderBackend::Gl33 {
            "layout (location = 1) in vec2 tex_coord;"@
        } else {
            "attribute vec2 tex_coord;"@
        },
        forall|attribute: Attribute| is_c_text(#[trigger] attribute.spec_name()),
{
    reveal_strlit("layout (location = ");
    reveal_strlit(") in vec2 ");
    reveal_strlit("attribute vec2 ");
    reveal_strlit("position");
    reveal_strlit("tex_coord");
    reveal_strlit(";");
    reveal_strlit("layout (location = 0) in vec2 position;");
    reveal_strlit("layout (location = 1) in vec2 tex_coord;");
    reveal_strlit("attribute vec2 position;");
    reveal_strlit("attribute vec2 tex_coord;");
    assert(attribute_declaration(backend, Attribute::Position) =~= if backend == RenderBackend::Gl33 {
        "layout (location = 0) in vec2 position;"@
    } else {
        "attribute vec2 position;"@
    });
    assert(attribute_declaration(backend, Attribute::TexCoord) =~= if backend == RenderBackend::Gl33 {
        "layout (location = 1) in vec2 tex_coord;"@
    } else {
        "attribute vec2 tex_coord;"@
    });
}

proof fn lemma_gl33_vertex_shader()
    ensures
        is_c_text(GL33_VERTEX_SHADER@),
        occurs(GL33_VERTEX_SHADER@, "layout (location = 0) in vec2 position;"@),
        occurs(GL33_VERTEX_SHADER@, "layout (location = 1) in vec2 tex_coord;"@),
        occurs(GL33_VERTEX_SHADER@, "uniform vec2 viewport;"@),
{
    let source = GL33_VERTEX_SHADER@;
    reveal_strlit(r#"#version 330 core
layout (location = 0) in vec2 position;
layout (location = 1) in vec2 tex_coord;

uniform vec2 viewport;
out vec2 uv;

void main() {
    vec2 ndc = vec2(
        (position.x / viewport.x) * 2.0 - 1.0,
        1.0 - (position.y / viewport.y) * 2.0
    );
    gl_Position = vec4(ndc, 0.0, 1.0);
    uv = tex_coord;
}
"#);
    reveal_strlit("layout (location = 0) in vec2 position;");
    reveal_strlit("layout (location = 1) in vec2 tex_coord;");
    reveal_strlit("uniform vec2 viewport;");
    assert(source.subrange(18, 57) =~= "layout (location = 0) in vec2 position;"@);
    assert(occurs_at(source, "layout (location = 0) in vec2 position;"@, 18));
    assert(source.subrange(58, 98) =~= "layout (location = 1) in vec2 tex_coord;"@);
    assert(occurs_at(source, "layout (location = 1) in vec2 tex_coord;"@, 58));
    assert(source.subrange(100, 122) =~= "uniform vec2 viewport;"@);
    assert(occurs_at(source, "uniform vec2 viewport;"@, 100));
}

proof fn lemma_gl33_fragment_shader()
    ensures
        is_c_text(GL33_FRAGMENT_SHADER@),
        occurs(GL33_FRAGMENT_SHADER@, "uniform sampler2D image_texture;"@),
        occurs(GL33_FRAGMENT_SHADER@, "uniform vec2 spotlight_center;"@),
        occurs(GL33_FRAGMENT_SHADER@, "uniform float spotlight_radius;"@),
        occurs(GL33_FRAGMENT_SHADER@, "uniform float spotlight_tint;"@),
        occurs(GL33_FRAGMENT_SHADER@, "uniform int spotlight_enabled;"@),
        occurs(GL33_FRAGMENT_SHADER@, "uniform float fade_alpha;"@),
{
    let source = GL33_FRAGMENT_SHADER@;
    reveal_strlit(r#"#version 330 core
in vec2 uv;

uniform sampler2D image_texture;
uniform vec2 spotlight_center;
uniform float spotlight_radius;
uniform float spotlight_tint;
uniform int spotlight_enabled;
uniform float fade_alpha;
out vec4 color;

void main() {
    vec4 pixel = texture(image_texture, uv);

    if (spotlight_enabled == 1) {
        float distance_from_center = distance(gl_FragCoord.xy, spotlight_center);
        if (distance_from_center > spotlight_radius) {
            pixel.rgb *= spotlight_tint;
        }
    }

    color = vec4(pixel.rgb * fade_alpha, pixel.a * fade_alpha);
}
"#);
    reveal_strlit("uniform sampler2D image_texture;");
    reveal_strlit("uniform vec2 spotlight_center;");
    reveal_strlit("uniform float spotlight_radius;");
    reveal_strlit("uniform float spotlight_tint;");
    reveal_strlit("uniform int spotlight_enabled;");
    reveal_strlit("uniform float fade_alpha;");
    assert(source.subrange(31, 63) =~= "uniform sampler2D image_texture;"@);
    assert(occurs_at(source, "uniform sampler2D image_texture;"@, 31));
    assert(source.subrange(64, 94) =~= "uniform vec2 spotlight_center;"@);
    assert(occurs_at(source, "uniform vec2 spotlight_center;"@, 64));
    assert(source.subrange(95, 126) =~= "uniform float spotlight_radius;"@);
    assert(occurs_at(source, "uniform float spotlight_radius;"@, 95));
    assert(source.subrange(127, 156) =~= "uniform float spotlight_tint;"@);
    assert(occurs_at(source, "uniform float spotlight_tint;"@, 127));
    assert(source.subrange(157, 187) =~= "uniform int spotlight_enabled;"@);
    assert(occurs_at(source, "uniform int spotlight_enabled;"@, 157));
    assert(source.subrange(188, 213) =~= "uniform float fade_alpha;"@);
    assert(occurs_at(source, "uniform float fade_alpha;"@, 188));
}

proof fn lemma_gl20_vertex_shader()
    ensures
        is_c_text(GL20_VERTEX_SHADER@),
        occurs(GL20_VERTEX_SHADER@, "attribute vec2 position;"@),
        occurs(GL20_VERTEX_SHADER@, "attribute vec2 tex_coord;"@),
        occurs(GL20_VERTEX_SHADER@, "uniform vec2 viewport;"@),
{
    let source = GL20_VERTEX_SHADER@;
    reveal_strlit(r#"#version 110
attribute vec2 position;
attribute vec2 tex_coord;

uniform vec2 viewport;
varying vec2 uv;

void main() {
    vec2 ndc = vec2(
        (position.x / viewport.x) * 2.0 - 1.0,
        1.0 - (position.y / viewport.y) * 2.0
    );
    gl_Position = vec4(ndc, 0.0, 1.0);
    uv = tex_coord;
}
"#);
    reveal_strlit("attribute vec2 position;");
    reveal_strlit("attribute vec2 tex_coord;");
    reveal_strlit("uniform vec2 viewport;");
    assert(source.subrange(13, 37) =~= "attribute vec2 position;"@);
    assert(occurs_at(source, "attribute vec2 position;"@, 13));
    assert(source.subrange(38, 63) =~= "attribute vec2 tex_coord;"@);
    assert(occurs_at(source, "attribute vec2 tex_coord;"@, 38));
    assert(source.subrange(65, 87) =~= "uniform vec2 viewport;"@);
    assert(occurs_at(source, "uniform vec2 viewport;"@, 65));
}

proof fn lemma_gl20_fragment_shader()
    ensures
        is_c_text(GL20_FRAGMENT_SHADER@),
        occurs(GL20_FRAGMENT_SHADER@, "uniform sampler2D image_texture;"@),
        occurs(GL20_FRAGMENT_SHADER@, "uniform vec2 spotlight_center;"@),
        occurs(GL20_FRAGMENT_SHADER@, "uniform float spotlight_radius;"@),
        occurs(GL20_FRAGMENT_SHADER@, "uniform float spotlight_tint;"@),
        occurs(GL20_FRAGMENT_SHADER@, "uniform int spotlight_enabled;"@),
        occurs(GL20_FRAGMENT_SHADER@, "uniform float fade_alpha;"@),
{
    let source = GL20_FRAGMENT_SHADER@;
    reveal_strlit(r#"#version 110
varying vec2 uv;

uniform sampler2D image_texture;
uniform vec2 spotlight_center;
uniform float spotlight_radius;
uniform float spotlight_tint;
uniform int spotlight_enabled;
uniform float fade_alpha;

void main() {
    vec4 pixel = texture2D(image_texture, uv);

    if (spotlight_enabled == 1) {
        float distance_from_center = distance(gl_FragCoord.xy, spotlight_center);
        if (distance_from_center > spotlight_radius) {
            pixel.rgb *= spotlight_tint;
        }
    }

    gl_FragColor = vec4(pixel.rgb * fade_alpha, pixel.a * fade_alpha);
}
"#);
    reveal_strlit("uniform sampler2D image_texture;");
    reveal_strlit("uniform vec2 spotlight_center;");
    reveal_strlit("uniform float spotlight_radius;");
    reveal_strlit("uniform float spotlight_tint;");
    reveal_strlit("uniform int spotlight_enabled;");
    reveal_strlit("uniform float fade_alpha;");
    assert(source.subrange(31, 63) =~= "uniform sampler2D image_texture;"@);
    assert(occurs_at(source, "uniform sampler2D image_texture;"@, 31));
    assert(source.subrange(64, 94) =~= "uniform vec2 spotlight_center;"@);
    assert(occurs_at(source, "uniform vec2 spotlight_center;"@, 64));
    assert(source.subrange(95, 126) =~= "uniform float spotlight_radius;"@);
    assert(occurs_at(source, "uniform float spotlight_radius;"@, 95));
    assert(source.subrange(127, 156) =~= "uniform float spotlight_tint;"@);
    assert(occurs_at(source, "uniform float spotlight_tint;"@, 127));
    assert(source.subrange(157, 187) =~= "uniform int spotlight_enabled;"@);
    assert(occurs_at(source, "uniform int spotlight_enabled;"@, 157));
    assert(source.subrange(188, 213) =~= "uniform float fade_alpha;"@);
    assert(occurs_at(source, "uniform float fade_alpha;"@, 188));
}

proof fn lemma_gles2_vertex_shader()
    ensures
        is_c_text(GLES2_VERTEX_SHADER@),
        occurs(GLES2_VERTEX_SHADER@, "attribute vec2 position;"@),
        occurs(GLES2_VERTEX_SHADER@, "attribute vec2 tex_coord;"@),
        occurs(GLES2_VERTEX_SHADER@, "uniform vec2 viewport;"@),
{
    let source = GLES2_VERTEX_SHADER@;
    reveal_strlit(r#"#version 100
attribute vec2 position;
attribute vec2 tex_coord;

uniform vec2 viewport;
varying vec2 uv;

void main() {
    vec2 ndc = vec2(
        (position.x / viewport.x) * 2.0 - 1.0,
        1.0 - (position.y / viewport.y) * 2.0
    );
    gl_Position = vec4(ndc, 0.0, 1.0);
    uv = tex_coord;
}
"#);
    reveal_strlit("attribute vec2 position;");
    reveal_strlit("attribute vec2 tex_coord;");
    reveal_strlit("uniform vec2 viewport;");
    assert(source.subrange(13, 37) =~= "attribute vec2 position;"@);
    assert(occurs_at(source, "attribute vec2 position;"@, 13));
    assert(source.subrange(38, 63) =~= "attribute vec2 tex_coord;"@);
    assert(occurs_at(source, "attribute vec2 tex_coord;"@, 38));
    assert(source.subrange(65, 87) =~= "uniform vec2 viewport;"@);
    assert(occurs_at(source, "uniform vec2 viewport;"@, 65));
}

proof fn lemma_gles2_fragment_shader()
    ensures
        is_c_text(GLES2_FRAGMENT_SHADER@),
        occurs(GLES2_FRAGMENT_SHADER@, "uniform sampler2D image_texture;"@),
        occurs(GLES2_FRAGMENT_SHADER@, "uniform vec2 spotlight_center;"@),
        occurs(GLES2_FRAGMENT_SHADER@, "uniform float spotlight_radius;"@),
        occurs(GLES2_FRAGMENT_SHADER@, "uniform float spotlight_tint;"@),
        occurs(GLES2_FRAGMENT_SHADER@, "uniform int spotlight_enabled;"@),
        occurs(GLES2_FRAGMENT_SHADER@, "uniform float fade_alpha;"@),
{
    let source = GLES2_FRAGMENT_SHADER@;
    reveal_strlit(r#"#version 100
precision mediump float;

varying vec2 uv;

uniform sampler2D image_texture;
uniform vec2 spotlight_center;
uniform float spotlight_radius;
uniform float spotlight_tint;
uniform int spotlight_enabled;
uniform float fade_alpha;

void main() {
    vec4 pixel = texture2D(image_texture, uv);

    if (spotlight_enabled == 1) {
        float distance_from_center = distance(gl_FragCoord.xy, spotlight_center);
        if (distance_from_center > spotlight_radius) {
            pixel.rgb *= spotlight_tint;
        }
    }

    gl_FragColor = vec4(pixel.rgb * fade_alpha, pixel.a * fade_alpha);
}
"#);
    reveal_strlit("uniform sampler2D image_texture;");
    reveal_strlit("uniform vec2 spotlight_center;");
    reveal_strlit("uniform float spotlight_radius;");
    reveal_strlit("uniform float spotlight_tint;");
    reveal_strlit("uniform int spotlight_enabled;");
    reveal_strlit("uniform float fade_alpha;");
    assert(source.subrange(57, 89) =~= "uniform sampler2D image_texture;"@);
    assert(occurs_at(source, "uniform sampler2D image_texture;"@, 57));
    assert(source.subrange(90, 120) =~= "uniform vec2 spotlight_center;"@);
    assert(occurs_at(source, "uniform vec2 spotlight_center;"@, 90));
    assert(source.subrange(121, 152) =~= "uniform float spotlight_radius;"@);
    assert(occurs_at(source, "uniform float spotlight_radius;"@, 121));
    assert(source.subrange(153, 182) =~= "uniform float spotlight_tint;"@);
    assert(occurs_at(source, "uniform float spotlight_tint;"@, 153));
    assert(source.subrange(183, 213) =~= "uniform int spotlight_enabled;"@);
    assert(occurs_at(source, "uniform int spotlight_enabled;"@, 183));
    assert(source.subrange(214, 239) =~= "uniform float fade_alpha;"@);
    assert(occurs_at(source, "uniform float fade_alpha;"@, 214));
}

/// A C string can be made of every shader source and of every name, and the sources declare,
/// under its name and with its type, every parameter and every attribute that the pipeline
/// looks up or binds.
pub proof fn law_shaders_declare_what_is_looked_up(backend: RenderBackend)
    ensures
        forall|stage: Stage| is_c_text(#[trigger] shader_source(backend, stage)),
        forall|uniform: Uniform|
            {
                &&& is_c_text(uniform.spec_name())
                &&& occurs(
                    shader_source(backend, uniform_stage(uniform)),
                    #[trigger] uniform_declaration(uniform),
                )
            },
        forall|attribute: Attribute|
            {
                &&& is_c_text(attribute.spec_name())
                &&& occurs(
                    shader_source(backend, Stage::Vertex),
                    #[trigger] attribute_declaration(backend, attribute),
                )
            },
{
    lemma_uniform_declarations();
    lemma_attribute_declarations(backend);
    match backend {
        RenderBackend::Gles2 => {
            lemma_gles2_vertex_shader();
            lemma_gles2_fragment_shader();
        },
        RenderBackend::Gl33 => {
            lemma_gl33_vertex_shader();
            lemma_gl33_fragment_shader();
        },
        RenderBackend::Gl20 => {
            lemma_gl20_vertex_shader();
            lemma_gl20_fragment_shader();
        },
    }
    assert forall|stage: Stage| is_c_text(#[trigger] shader_source(backend, stage)) by {
        match stage {
            Stage::Vertex => {},
            Stage::Fragment => {},
        }
    }
    assert forall|uniform: Uniform|
        {
            &&& is_c_text(uniform.spec_name())
            &&& occurs(
                shader_source(backend, uniform_stage(uniform)),
                #[trigger] uniform_declaration(uniform),
            )
        } by {
        match uniform {
            Uniform::ImageTexture => {},
            Uniform::Viewport => {},
            Uniform::SpotlightCenter => {},
            Uniform::SpotlightRadius => {},
            Uniform::SpotlightTint => {},
            Uniform::SpotlightEnabled => {},
            Uniform::FadeAlpha => {},
        }
    }
    assert forall|attribute: Attribute|
        {
            &&& is_c_text(attribute.spec_name())
            &&& occurs(
                shader_source(backend, Stage::Vertex),
                #[trigger] attribute_declaration(backend, attribute),
            )
        } by {
        match attribute {
            Attribute::Position => {},
            Attribute::TexCoord => {},
        }
    }
}

/// The first line of a backend's shaders: the version of the shading language that comes with
/// OpenGL 3.3, OpenGL ES 2.0 and OpenGL 2.0.
pub open spec fn version_line(backend: RenderBackend) -> Seq<char> {
    match backend {
        RenderBackend::Gl33 => "#version 330 core\n"@,
        RenderBackend::Gles2 => "#version 100\n"@,
        RenderBackend::Gl20 => "#version 110\n"@,
    }
}

proof fn lemma_gl33_vertex_shader_computes()
    ensures
        occurs_at(GL33_VERTEX_SHADER@, "#version 330 core\n"@, 0),
        occurs(GL33_VERTEX_SHADER@, "(position.x / viewport.x) * 2.0 - 1.0,"@),
        occurs(GL33_VERTEX_SHADER@, "1.0 - (position.y / viewport.y) * 2.0\n"@),
        occurs(GL33_VERTEX_SHADER@, "gl_Position = vec4(ndc, 0.0, 1.0);"@),
        occurs(GL33_VERTEX_SHADER@, "uv = tex_coord;"@),
{
    let source = GL33_VERTEX_SHADER@;
    reveal_strlit(r#"#version 330 core
layout (location = 0) in vec2 position;
layout (location = 1) in vec2 tex_coord;

uniform vec2 viewport;
out vec2 uv;

void main() {
    vec2 ndc = vec2(
        (position.x / viewport.x) * 2.0 - 1.0,
        1.0 - (position.y / viewport.y) * 2.0
    );
    gl_Position = vec4(ndc, 0.0, 1.0);
    uv = tex_coord;
}
"#);
    reveal_strlit("#version 330 core\n");
    reveal_strlit("(position.x / viewport.x) * 2.0 - 1.0,");
    reveal_strlit("1.0 - (position.y / viewport.y) * 2.0\n");
    reveal_strlit("gl_Position = vec4(ndc, 0.0, 1.0);");
    reveal_strlit("uv = tex_coord;");
    assert(source.subrange(0, 18) =~= "#version 330 core\n"@);
    assert(occurs_at(source, "#version 330 core\n"@, 0));
    assert(source.subrange(180, 218) =~= "(position.x / viewport.x) * 2.0 - 1.0,"@);
    assert(occurs_at(source, "(position.x / viewport.x) * 2.0 - 1.0,"@, 180));
    assert(source.subrange(227, 265) =~= "1.0 - (position.y / viewport.y) * 2.0\n"@);
    assert(occurs_at(source, "1.0 - (position.y / viewport.y) * 2.0\n"@, 227));
    assert(source.subrange(276, 310) =~= "gl_Position = vec4(ndc, 0.0, 1.0);"@);
    assert(occurs_at(source, "gl_Position = vec4(ndc, 0.0, 1.0);"@, 276));
    assert(source.subrange(315, 330) =~= "uv = tex_coord;"@);
    assert(occurs_at(source, "uv = tex_coord;"@, 315));
}

proof fn lemma_gl33_fragment_shader_computes()
    ensures
        occurs_at(GL33_FRAGMENT_SHADER@, "#version 330 core\n"@, 0),
        occurs(GL33_FRAGMENT_SHADER@, "vec4 pixel = texture(image_texture, uv);"@),
        occurs(GL33_FRAGMENT_SHADER@, "if (spotlight_enabled == 1) {"@),
        occurs(GL33_FRAGMENT_SHADER@, "distance(gl_FragCoord.xy, spotlight_center);"@),
        occurs(GL33_FRAGMENT_SHADER@, "if (distance_from_center > spotlight_radius) {"@),
        occurs(GL33_FRAGMENT_SHADER@, "pixel.rgb *= spotlight_tint;"@),
        occurs(GL33_FRAGMENT_SHADER@, "color = vec4(pixel.rgb * fade_alpha, pixel.a * fade_alpha);"@),
{
    let source = GL33_FRAGMENT_SHADER@;
    reveal_strlit(r#"#version 330 core
in vec2 uv;

uniform sampler2D image_texture;
uniform vec2 spotlight_center;
uniform float spotlight_radius;
uniform float spotlight_tint;
uniform int spotlight_enabled;
uniform float fade_alpha;
out vec4 color;

void main() {
    vec4 pixel = texture(image_texture, uv);

    if (spotlight_enabled == 1) {
        float distance_from_center = distance(gl_FragCoord.xy, spotlight_center);
        if (distance_from_center > spotlight_radius) {
            pixel.rgb *= spotlight_tint;
        }
    }

    color = vec4(pixel.rgb * fade_alpha, pixel.a * fade_alpha);
}
"#);
    reveal_strlit("#version 330 core\n");
    reveal_strlit("vec4 pixel = texture(image_texture, uv);");
    reveal_strlit("if (spotlight_enabled == 1) {");
    reveal_strlit("distance(gl_FragCoord.xy, spotlight_center);");
    reveal_strlit("if (distance_from_center > spotlight_radius) {");
    reveal_strlit("pixel.rgb *= spotlight_tint;");
    reveal_strlit("color = vec4(pixel.rgb * fade_alpha, pixel.a * fade_alpha);");
    assert(source.subrange(0, 18) =~= "#version 330 core\n"@);
    assert(occurs_at(source, "#version 330 core\n"@, 0));
    assert(source.subrange(249, 289) =~= "vec4 pixel = texture(image_texture, uv);"@);
    assert(occurs_at(source, "vec4 pixel = texture(image_texture, uv);"@, 249));
    assert(source.subrange(295, 324) =~= "if (spotlight_enabled == 1) {"@);
    assert(occurs_at(source, "if (spotlight_enabled == 1) {"@, 295));
    assert(source.subrange(362, 406) =~= "distance(gl_FragCoord.xy, spotlight_center);"@);
    assert(occurs_at(source, "distance(gl_FragCoord.xy, spotlight_center);"@, 362));
    assert(source.subrange(415, 461) =~= "if (distance_from_center > spotlight_radius) {"@);
    assert(occurs_at(source, "if (distance_from_center > spotlight_radius) {"@, 415));
    assert(source.subrange(474, 502) =~= "pixel.rgb *= spotlight_tint;"@);
    assert(occurs_at(source, "pixel.rgb *= spotlight_tint;"@, 474));
    assert(source.subrange(524, 583) =~= "color = vec4(pixel.rgb * fade_alpha, pixel.a * fade_alpha);"@);
    assert(occurs_at(source, "color = vec4(pixel.rgb * fade_alpha, pixel.a * fade_alpha);"@, 524));
}

proof fn lemma_gl20_vertex_shader_computes()
    ensures
        occurs_at(GL20_VERTEX_SHADER@, "#version 110\n"@, 0),
        occurs(GL20_VERTEX_SHADER@, "(position.x / viewport.x) * 2.0 - 1.0,"@),
        occurs(GL20_VERTEX_SHADER@, "1.0 - (position.y / viewport.y) * 2.0\n"@),
        occurs(GL20_VERTEX_SHADER@, "gl_Position = vec4(ndc, 0.0, 1.0);"@),
        occurs(GL20_VERTEX_SHADER@, "uv = tex_coord;"@),
{
    let source = GL20_VERTEX_SHADER@;
    reveal_strlit(r#"#version 110
attribute vec2 position;
attribute vec2 tex_coord;

uniform vec2 viewport;
varying vec2 uv;

void main() {
    vec2 ndc = vec2(
        (position.x / viewport.x) * 2.0 - 1.0,
        1.0 - (position.y / viewport.y) * 2.0
    );
    gl_Position = vec4(ndc, 0.0, 1.0);
    uv = tex_coord;
}
"#);
    reveal_strlit("#version 110\n");
    reveal_strlit("(position.x / viewport.x) * 2.0 - 1.0,");
    reveal_strlit("1.0 - (position.y / viewport.y) * 2.0\n");
    reveal_strlit("gl_Position = vec4(ndc, 0.0, 1.0);");
    reveal_strlit("uv = tex_coord;");
    assert(source.subrange(0, 13) =~= "#version 110\n"@);
    assert(occurs_at(source, "#version 110\n"@, 0));
    assert(source.subrange(149, 187) =~= "(position.x / viewport.x) * 2.0 - 1.0,"@);
    assert(occurs_at(source, "(position.x / viewport.x) * 2.0 - 1.0,"@, 149));
    assert(source.subrange(196, 234) =~= "1.0 - (position.y / viewport.y) * 2.0\n"@);
    assert(occurs_at(source, "1.0 - (position.y / viewport.y) * 2.0\n"@, 196));
    assert(source.subrange(245, 279) =~= "gl_Position = vec4(ndc, 0.0, 1.0);"@);
    assert(occurs_at(source, "gl_Position = vec4(ndc, 0.0, 1.0);"@, 245));
    assert(source.subrange(284, 299) =~= "uv = tex_coord;"@);
    assert(occurs_at(source, "uv = tex_coord;"@, 284));
}

proof fn lemma_gl20_fragment_shader_computes()
    ensures
        occurs_at(GL20_FRAGMENT_SHADER@, "#version 110\n"@, 0),
        occurs(GL20_FRAGMENT_SHADER@, "vec4 pixel = texture2D(image_texture, uv);"@),
        occurs(GL20_FRAGMENT_SHADER@, "if (spotlight_enabled == 1) {"@),
        occurs(GL20_FRAGMENT_SHADER@, "distance(gl_FragCoord.xy, spotlight_center);"@),
        occurs(GL20_FRAGMENT_SHADER@, "if (distance_from_center > spotlight_radius) {"@),
        occurs(GL20_FRAGMENT_SHADER@, "pixel.rgb *= spotlight_tint;"@),
        occurs(GL20_FRAGMENT_SHADER@, "gl_FragColor = vec4(pixel.rgb * fade_alpha, pixel.a * fade_alpha);"@),
{
    let source = GL20_FRAGMENT_SHADER@;
    reveal_strlit(r#"#version 110
varying vec2 uv;

uniform sampler2D image_texture;
uniform vec2 spotlight_center;
uniform float spotlight_radius;
uniform float spotlight_tint;
uniform int spotlight_enabled;
uniform float fade_alpha;

void main() {
    vec4 pixel = texture2D(image_texture, uv);

    if (spotlight_enabled == 1) {
        float distance_from_center = distance(gl_FragCoord.xy, spotlight_center);
        if (distance_from_center > spotlight_radius) {
            pixel.rgb *= spotlight_tint;
        }
    }

    gl_FragColor = vec4(pixel.rgb * fade_alpha, pixel.a * fade_alpha);
}
"#);
    reveal_strlit("#version 110\n");
    reveal_strlit("vec4 pixel = texture2D(image_texture, uv);");
    reveal_strlit("if (spotlight_enabled == 1) {");
    reveal_strlit("distance(gl_FragCoord.xy, spotlight_center);");
    reveal_strlit("if (distance_from_center > spotlight_radius) {");
    reveal_strlit("pixel.rgb *= spotlight_tint;");
    reveal_strlit("gl_FragColor = vec4(pixel.rgb * fade_alpha, pixel.a * fade_alpha);");
    assert(source.subrange(0, 13) =~= "#version 110\n"@);
    assert(occurs_at(source, "#version 110\n"@, 0));
    assert(source.subrange(233, 275) =~= "vec4 pixel = texture2D(image_texture, uv);"@);
    assert(occurs_at(source, "vec4 pixel = texture2D(image_texture, uv);"@, 233));
    assert(source.subrange(281, 310) =~= "if (spotlight_enabled == 1) {"@);
    assert(occurs_at(source, "if (spotlight_enabled == 1) {"@, 281));
    assert(source.subrange(348, 392) =~= "distance(gl_FragCoord.xy, spotlight_center);"@);
    assert(occurs_at(source, "distance(gl_FragCoord.xy, spotlight_center);"@, 348));
    assert(source.subrange(401, 447) =~= "if (distance_from_center > spotlight_radius) {"@);
    assert(occurs_at(source, "if (distance_from_center > spotlight_radius) {"@, 401));
    assert(source.subrange(460, 488) =~= "pixel.rgb *= spotlight_tint;"@);
    assert(occurs_at(source, "pixel.rgb *= spotlight_tint;"@, 460));
    assert(source.subrange(510, 576) =~= "gl_FragColor = vec4(pixel.rgb * fade_alpha, pixel.a * fade_alpha);"@);
    assert(occurs_at(source, "gl_FragColor = vec4(pixel.rgb * fade_alpha, pixel.a * fade_alpha);"@, 510));
}

proof fn lemma_gles2_vertex_shader_computes()
    ensures
        occurs_at(GLES2_VERTEX_SHADER@, "#version 100\n"@, 0),
        occurs(GLES2_VERTEX_SHADER@, "(position.x / viewport.x) * 2.0 - 1.0,"@),
        occurs(GLES2_VERTEX_SHADER@, "1.0 - (position.y / viewport.y) * 2.0\n"@),
        occurs(GLES2_VERTEX_SHADER@, "gl_Position = vec4(ndc, 0.0, 1.0);"@),
        occurs(GLES2_VERTEX_SHADER@, "uv = tex_coord;"@),
{
    let source = GLES2_VERTEX_SHADER@;
    reveal_strlit(r#"#version 100
attribute vec2 position;
attribute vec2 tex_coord;

uniform vec2 viewport;
varying vec2 uv;

void main() {
    vec2 ndc = vec2(
        (position.x / viewport.x) * 2.0 - 1.0,
        1.0 - (position.y / viewport.y) * 2.0
    );
    gl_Position = vec4(ndc, 0.0, 1.0);
    uv = tex_coord;
}
"#);
    reveal_strlit("#version 100\n");
    reveal_strlit("(position.x / viewport.x) * 2.0 - 1.0,");
    reveal_strlit("1.0 - (position.y / viewport.y) * 2.0\n");
    reveal_strlit("gl_Position = vec4(ndc, 0.0, 1.0);");
    reveal_strlit("uv = tex_coord;");
    assert(source.subrange(0, 13) =~= "#version 100\n"@);
    assert(occurs_at(source, "#version 100\n"@, 0));
    assert(source.subrange(149, 187) =~= "(position.x / viewport.x) * 2.0 - 1.0,"@);
    assert(occurs_at(source, "(position.x / viewport.x) * 2.0 - 1.0,"@, 149));
    assert(source.subrange(196, 234) =~= "1.0 - (position.y / viewport.y) * 2.0\n"@);
    assert(occurs_at(source, "1.0 - (position.y / viewport.y) * 2.0\n"@, 196));
    assert(source.subrange(245, 279) =~= "gl_Position = vec4(ndc, 0.0, 1.0);"@);
    assert(occurs_at(source, "gl_Position = vec4(ndc, 0.0, 1.0);"@, 245));
    assert(source.subrange(284, 299) =~= "uv = tex_coord;"@);
    assert(occurs_at(source, "uv = tex_coord;"@, 284));
}

proof fn lemma_gles2_fragment_shader_computes()
    ensures
        occurs_at(GLES2_FRAGMENT_SHADER@, "#version 100\n"@, 0),
        occurs(GLES2_FRAGMENT_SHADER@, "vec4 pixel = texture2D(image_texture, uv);"@),
        occurs(GLES2_FRAGMENT_SHADER@, "if (spotlight_enabled == 1) {"@),
        occurs(GLES2_FRAGMENT_SHADER@, "distance(gl_FragCoord.xy, spotlight_center);"@),
        occurs(GLES2_FRAGMENT_SHADER@, "if (distance_from_center > spotlight_radius) {"@),
        occurs(GLES2_FRAGMENT_SHADER@, "pixel.rgb *= spotlight_tint;"@),
        occurs(GLES2_FRAGMENT_SHADER@, "gl_FragColor = vec4(pixel.rgb * fade_alpha, pixel.a * fade_alpha);"@),
        occurs(GLES2_FRAGMENT_SHADER@, "precision mediump float;"@),
{
    let source = GLES2_FRAGMENT_SHADER@;
    reveal_strlit(r#"#version 100
precision mediump float;

varying vec2 uv;

uniform sampler2D image_texture;
uniform vec2 spotlight_center;
uniform float spotlight_radius;
uniform float spotlight_tint;
uniform int spotlight_enabled;
uniform float fade_alpha;

void main() {
    vec4 pixel = texture2D(image_texture, uv);

    if (spotlight_enabled == 1) {
        float distance_from_center = distance(gl_FragCoord.xy, spotlight_center);
        if (distance_from_center > spotlight_radius) {
            pixel.rgb *= spotlight_tint;
        }
    }

    gl_FragColor = vec4(pixel.rgb * fade_alpha, pixel.a * fade_alpha);
}
"#);
    reveal_strlit("#version 100\n");
    reveal_strlit("vec4 pixel = texture2D(image_texture, uv);");
    reveal_strlit("if (spotlight_enabled == 1) {");
    reveal_strlit("distance(gl_FragCoord.xy, spotlight_center);");
    reveal_strlit("if (distance_from_center > spotlight_radius) {");
    reveal_strlit("pixel.rgb *= spotlight_tint;");
    reveal_strlit("gl_FragColor = vec4(pixel.rgb * fade_alpha, pixel.a * fade_alpha);");
    reveal_strlit("precision mediump float;");
    assert(source.subrange(0, 13) =~= "#version 100\n"@);
    assert(occurs_at(source, "#version 100\n"@, 0));
    assert(source.subrange(259, 301) =~= "vec4 pixel = texture2D(image_texture, uv);"@);
    assert(occurs_at(source, "vec4 pixel = texture2D(image_texture, uv);"@, 259));
    assert(source.subrange(307, 336) =~= "if (spotlight_enabled == 1) {"@);
    assert(occurs_at(source, "if (spotlight_enabled == 1) {"@, 307));
    assert(source.subrange(374, 418) =~= "distance(gl_FragCoord.xy, spotlight_center);"@);
    assert(occurs_at(source, "distance(gl_FragCoord.xy, spotlight_center);"@, 374));
    assert(source.subrange(427, 473) =~= "if (distance_from_center > spotlight_radius) {"@);
    assert(occurs_at(source, "if (distance_from_center > spotlight_radius) {"@, 427));
    assert(source.subrange(486, 514) =~= "pixel.rgb *= spotlight_tint;"@);
    assert(occurs_at(source, "pixel.rgb *= spotlight_tint;"@, 486));
    assert(source.subrange(536, 602) =~= "gl_FragColor = vec4(pixel.rgb * fade_alpha, pixel.a * fade_alpha);"@);
    assert(occurs_at(source, "gl_FragColor = vec4(pixel.rgb * fade_alpha, pixel.a * fade_alpha);"@, 536));
    assert(source.subrange(13, 37) =~= "precision mediump float;"@);
    assert(occurs_at(source, "precision mediump float;"@, 13));
}

proof fn lemma_shaders_compute(backend: RenderBackend)
    ensures
        ({
            let vertex = shader_source(backend, Stage::Vertex);
            let fragment = shader_source(backend, Stage::Fragment);
            &&& occurs_at(vertex, version_line(backend), 0)
            &&& occurs_at(fragment, version_line(backend), 0)
            &&& occurs(vertex, "(position.x / viewport.x) * 2.0 - 1.0,"@)
            &&& occurs(vertex, "1.0 - (position.y / viewport.y) * 2.0\n"@)
            &&& occurs(vertex, "gl_Position = vec4(ndc, 0.0, 1.0);"@)
            &&& occurs(vertex, "uv = tex_coord;"@)
            &&& occurs(fragment, "if (spotlight_enabled == 1) {"@)
            &&& occurs(fragment, "distance(gl_FragCoord.xy, spotlight_center);"@)
            &&& occurs(fragment, "if (distance_from_center > spotlight_radius) {"@)
            &&& occurs(fragment, "pixel.rgb *= spotlight_tint;"@)
            &&& backend == RenderBackend::Gl33 ==> {
                &&& occurs(fragment, "vec4 pixel = texture(image_texture, uv);"@)
                &&& occurs(
                    fragment,
                    "color = vec4(pixel.rgb * fade_alpha, pixel.a * fade_alpha);"@,
                )
            }
            &&& backend != RenderBackend::Gl33 ==> {
                &&& occurs(fragment, "vec4 pixel = texture2D(image_texture, uv);"@)
                &&& occurs(
                    fragment,
                    "gl_FragColor = vec4(pixel.rgb * fade_alpha, pixel.a * fade_alpha);"@,
                )
            }
            &&& backend == RenderBackend::Gles2 ==> occurs(fragment, "precision mediump float;"@)
        }),
{
    match backend {
        RenderBackend::Gles2 => {
            lemma_gles2_vertex_shader_computes();
            lemma_gles2_fragment_shader_computes();
        },
        RenderBackend::Gl33 => {
            lemma_gl33_vertex_shader_computes();
            lemma_gl33_fragment_shader_computes();
        },
        RenderBackend::Gl20 => {
            lemma_gl20_vertex_shader_computes();
            lemma_gl20_fragment_shader_computes();
        },
    }
}

/// The parameter that each statement of the fragment shaders works with, under the name by
/// which it is looked up: the centre is what distances are measured from, the radius what they
/// are compared to, the tint what darkens the rest, and the switch decides whether any of this
/// is done.
pub proof fn law_names_are_those_that_shaders_use(
    backend: RenderBackend,
    sources: (&'static str, &'static str),
    center: &'static str,
    radius: &'static str,
    tint: &'static str,
    enabled: &'static str,
)
    requires
        call_ensures(RenderBackend::shaders, (backend,), sources),
        call_ensures(Uniform::name, (Uniform::SpotlightCenter,), center),
        call_ensures(Uniform::name, (Uniform::SpotlightRadius,), radius),
        call_ensures(Uniform::name, (Uniform::SpotlightTint,), tint),
        call_ensures(Uniform::name, (Uniform::SpotlightEnabled,), enabled),
    ensures
        occurs(sources.1@, "distance(gl_FragCoord.xy, "@ + center@ + ");"@),
        occurs(sources.1@, "if (distance_from_center > "@ + radius@ + ") {"@),
        occurs(sources.1@, "pixel.rgb *= "@ + tint@ + ";"@),
        occurs(sources.1@, "if ("@ + enabled@ + " == 1) {"@),
{
    lemma_shaders_compute(backend);
    reveal_strlit("spotlight_center");
    reveal_strlit("spotlight_radius");
    reveal_strlit("spotlight_tint");
    reveal_strlit("spotlight_enabled");
    reveal_strlit("distance(gl_FragCoord.xy, ");
    reveal_strlit(");");
    reveal_strlit("if (distance_from_center > ");
    reveal_strlit(") {");
    reveal_strlit("pixel.rgb *= ");
    reveal_strlit(";");
    reveal_strlit("if (");
    reveal_strlit(" == 1) {");
    reveal_strlit("distance(gl_FragCoord.xy, spotlight_center);");
    reveal_strlit("if (distance_from_center > spotlight_radius) {");
    reveal_strlit("pixel.rgb *= spotlight_tint;");
    reveal_strlit("if (spotlight_enabled == 1) {");
    assert("distance(gl_FragCoord.xy, "@ + center@ + ");"@
        =~= "distance(gl_FragCoord.xy, spotlight_center);"@);
    assert("if (distance_from_center > "@ + radius@ + ") {"@
        =~= "if (distance_from_center > spotlight_radius) {"@);
    assert("pixel.rgb *= "@ + tint@ + ";"@ =~= "pixel.rgb *= spotlight_tint;"@);
    assert("if ("@ + enabled@ + " == 1) {"@ =~= "if (spotlight_enabled == 1) {"@);
}

/// Every parameter and every attribute is looked up under its own name.
pub proof fn law_names_are_fixed(
    uniform: Uniform,
    attribute: Attribute,
    name: &'static str,
    attribute_name: &'static str,
)
    requires
        call_ensures(Uniform::name, (uniform,), name),
        call_ensures(Attribute::name, (attribute,), attribute_name),
    ensures
        uniform == Uniform::ImageTexture ==> name@ == "image_texture"@,
        uniform == Uniform::Viewport ==> name@ == "viewport"@,
        uniform == Uniform::SpotlightCenter ==> name@ == "spotlight_center"@,
        uniform == Uniform::SpotlightRadius ==> name@ == "spotlight_radius"@,
        uniform == Uniform::SpotlightTint ==> name@ == "spotlight_tint"@,
        uniform == Uniform::SpotlightEnabled ==> name@ == "spotlight_enabled"@,
        uniform == Uniform::FadeAlpha ==> name@ == "fade_alpha"@,
        attribute == Attribute::Position ==> attribute_name@ == "position"@,
        attribute == Attribute::TexCoord ==> attribute_name@ == "tex_coord"@,
{
}

/// What every backend's shaders compute: a position in the window, from the top left corner, is
/// mapped to the clip space, and the texture coordinate passed on; a pixel is sampled there,
/// darkened if the spotlight is on and the pixel further from its centre than its radius, and
/// faded. They are written in the version of the language that the backend's context has.
pub proof fn law_shaders_light_and_fade(
    backend: RenderBackend,
    sources: (&'static str, &'static str),
)
    requires
        call_ensures(RenderBackend::shaders, (backend,), sources),
    ensures
        occurs_at(sources.0@, version_line(backend), 0),
        occurs_at(sources.1@, version_line(backend), 0),
        occurs(sources.0@, "(position.x / viewport.x) * 2.0 - 1.0,"@),
        occurs(sources.0@, "1.0 - (position.y / viewport.y) * 2.0\n"@),
        occurs(sources.0@, "gl_Position = vec4(ndc, 0.0, 1.0);"@),
        occurs(sources.0@, "uv = tex_coord;"@),
        occurs(sources.1@, "if (spotlight_enabled == 1) {"@),
        occurs(sources.1@, "distance(gl_FragCoord.xy, spotlight_center);"@),
        occurs(sources.1@, "if (distance_from_center > spotlight_radius) {"@),
        occurs(sources.1@, "pixel.rgb *= spotlight_tint;"@),
        backend == RenderBackend::Gl33 ==> {
            &&& occurs(sources.1@, "vec4 pixel = texture(image_texture, uv);"@)
            &&& occurs(
                sources.1@,
                "color = vec4(pixel.rgb * fade_alpha, pixel.a * fade_alpha);"@,
            )
        },
        backend != RenderBackend::Gl33 ==> {
            &&& occurs(sources.1@, "vec4 pixel = texture2D(image_texture, uv);"@)
            &&& occurs(
                sources.1@,
                "gl_FragColor = vec4(pixel.rgb * fade_alpha, pixel.a * fade_alpha);"@,
            )
        },
        backend == RenderBackend::Gles2 ==> occurs(sources.1@, "precision mediump float;"@),
{
    lemma_shaders_compute(backend);
}

} // verus!
