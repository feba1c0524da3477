use panium::config::{RenderBackend, Stage};
use panium::pipeline::{
    draw_commands, quad_vertices, release_commands, setup_commands, Attribute, DrawCommand,
    ReleaseCommand, SetupCommand, Uniform, FLOAT_BYTES, QUAD_BYTES, QUAD_VERTICES, VERTEX_BYTES,
    VERTEX_FLOATS,
};
use panium::pixels::Screenshot;
use panium::program::{
    create_program, link_commands, BuildCommand, BuildError, Compiled, LinkRequest,
    RejectedProgram, RejectedShader,
};
use panium::window::show_zoom_window;

const UNIFORMS: [Uniform; 7] = [
    Uniform::ImageTexture,
    Uniform::Viewport,
    Uniform::SpotlightCenter,
    Uniform::SpotlightRadius,
    Uniform::SpotlightTint,
    Uniform::SpotlightEnabled,
    Uniform::FadeAlpha,
];

#[test]
fn the_picture_is_two_triangles() {
    let vertices = quad_vertices(10.0f32, 20.0, 30.0, 40.0, 0.0, 1.0);
    assert_eq!(
        vertices,
        [
            10.0, 20.0, 0.0, 0.0, 30.0, 20.0, 1.0, 0.0, 30.0, 40.0, 1.0, 1.0, 10.0, 20.0, 0.0,
            0.0, 30.0, 40.0, 1.0, 1.0, 10.0, 40.0, 0.0, 1.0,
        ]
    );
    assert_eq!(std::mem::size_of_val(&vertices), QUAD_BYTES as usize);
    assert_eq!(std::mem::size_of::<f32>(), FLOAT_BYTES as usize);
    assert_eq!(vertices.len(), (QUAD_VERTICES * VERTEX_FLOATS) as usize);
}

#[test]
fn attributes_lie_side_by_side() {
    let position = Attribute::Position;
    let tex_coord = Attribute::TexCoord;
    assert_eq!((position.index(), position.components(), position.offset()), (0, 2, 0));
    assert_eq!((tex_coord.index(), tex_coord.components(), tex_coord.offset()), (1, 2, 8));
    assert_eq!(VERTEX_BYTES, 16);
    assert_eq!(position.name(), "position");
    assert_eq!(tex_coord.name(), "tex_coord");
}

#[test]
fn shaders_declare_what_the_pipeline_names() {
    for backend in [RenderBackend::Gles2, RenderBackend::Gl33, RenderBackend::Gl20] {
        let (vertex, fragment) = backend.shaders();
        for (uniform, kind) in [
            (Uniform::ImageTexture, "sampler2D"),
            (Uniform::SpotlightCenter, "vec2"),
            (Uniform::SpotlightRadius, "float"),
            (Uniform::SpotlightTint, "float"),
            (Uniform::SpotlightEnabled, "int"),
            (Uniform::FadeAlpha, "float"),
        ] {
            assert!(fragment.contains(&format!("uniform {kind} {};", uniform.name())));
        }
        assert!(vertex.contains(&format!("uniform vec2 {};", Uniform::Viewport.name())));
        for attribute in [Attribute::Position, Attribute::TexCoord] {
            let qualifier = if backend == RenderBackend::Gl33 {
                format!("layout (location = {}) in", attribute.index())
            } else {
                "attribute".to_string()
            };
            assert!(vertex.contains(&format!("{qualifier} vec2 {};", attribute.name())));
        }
    }
}

#[test]
fn a_link_attaches_binds_and_deletes() {
    assert_eq!(
        link_commands(LinkRequest { vertex: 4, fragment: 5 }),
        [
            BuildCommand::MakeProgram,
            BuildCommand::AttachShader { shader: 4 },
            BuildCommand::AttachShader { shader: 5 },
            BuildCommand::BindAttribute { attribute: Attribute::Position },
            BuildCommand::BindAttribute { attribute: Attribute::TexCoord },
            BuildCommand::LinkProgram,
            BuildCommand::DeleteShader { shader: 4 },
            BuildCommand::DeleteShader { shader: 5 },
            BuildCommand::ReadLinkStatus,
        ]
    );
}

#[test]
fn what_is_rejected_is_deleted_after_its_log_is_read() {
    assert_eq!(
        RejectedShader { shader: 6 }.commands(),
        [
            BuildCommand::ReadShaderLog { shader: 6 },
            BuildCommand::DeleteShader { shader: 6 },
        ]
    );
    assert_eq!(
        RejectedProgram { program: 7 }.commands(),
        [
            BuildCommand::ReadProgramLog { program: 7 },
            BuildCommand::DeleteProgram { program: 7 },
        ]
    );
}

#[test]
fn setup_has_a_vertex_array_for_the_core_profile() {
    let commands = setup_commands(RenderBackend::Gl33, 5, 4);
    assert_eq!(commands.len(), 26);
    assert_eq!(commands[0], SetupCommand::MakeVertexArray);
    assert_eq!(commands[1], SetupCommand::BindVertexArray);
    assert_eq!(commands[4], SetupCommand::AllocateVertices { bytes: 96 });
    for backend in [RenderBackend::Gl20, RenderBackend::Gles2] {
        assert_eq!(setup_commands(backend, 5, 4), commands[2..].to_vec());
    }
}

#[test]
fn setup_uploads_the_screenshot() {
    let commands = setup_commands(RenderBackend::Gles2, 5, 4);
    assert!(commands.contains(&SetupCommand::UploadImage { width: 5, height: 4 }));
    assert!(commands.contains(&SetupCommand::UnpackTightly));
    for uniform in UNIFORMS {
        assert!(commands.contains(&SetupCommand::Locate { uniform }));
    }
    assert_eq!(commands.last(), Some(&SetupCommand::SampleUnit { unit: 0 }));
    let layout = SetupCommand::LayOutAttribute { attribute: Attribute::TexCoord, stride: 16 };
    assert!(commands.contains(&layout));
}

#[test]
fn frames_bind_a_vertex_array_if_there_is_one() {
    let without = draw_commands(0, false);
    let with = draw_commands(9, true);
    assert_eq!(without.len(), 14);
    assert_eq!(with.len(), 15);
    assert_eq!(with[11], DrawCommand::BindVertexArray { vertex_array: 9 });
    assert_eq!(without[7], DrawCommand::SetSpotlight { enabled: 0 });
    assert_eq!(with[7], DrawCommand::SetSpotlight { enabled: 1 });
    assert_eq!(without[12], DrawCommand::UploadVertices { bytes: 96 });
    assert_eq!(without.last(), Some(&DrawCommand::DrawTriangles { vertices: 6 }));
}

#[test]
fn everything_made_is_deleted() {
    assert_eq!(
        release_commands(0),
        [
            ReleaseCommand::DeleteTexture,
            ReleaseCommand::DeleteVertexBuffer,
            ReleaseCommand::DeleteProgram,
        ]
    );
    assert_eq!(
        release_commands(3),
        [
            ReleaseCommand::DeleteTexture,
            ReleaseCommand::DeleteVertexBuffer,
            ReleaseCommand::DeleteVertexArray { vertex_array: 3 },
            ReleaseCommand::DeleteProgram,
        ]
    );
}

#[test]
fn both_shaders_compile_before_linking() {
    let first = create_program(RenderBackend::Gl20);
    let (vertex, fragment) = RenderBackend::Gl20.shaders();
    assert_eq!((first.stage(), first.source()), (Stage::Vertex, vertex));
    let second = match first.compiled(7, 1) {
        Compiled::Next(second) => second,
        next => panic!("the fragment shader comes next: {next:?}"),
    };
    assert_eq!((second.stage(), second.source()), (Stage::Fragment, fragment));
    let link = LinkRequest { vertex: 7, fragment: 8 };
    assert_eq!(second.compiled(8, 1), Compiled::Link(link));
    assert_eq!(link.linked(9, 1), Ok(9));
}

#[test]
fn shaders_that_do_not_compile_are_rejected() {
    let first = create_program(RenderBackend::Gl33);
    let rejected = match first.compiled(7, 0) {
        Compiled::Rejected(rejected) => rejected,
        next => panic!("the shader did not compile: {next:?}"),
    };
    assert_eq!(rejected.shader, 7);
    let error = rejected.error(b"0:1: syntax error\0\0\0");
    assert_eq!(error, BuildError::Compile("0:1: syntax error".to_string()));
    assert_eq!(error.message(), "OpenGL shader compile failed: 0:1: syntax error");
}

#[test]
fn programs_that_do_not_link_are_rejected() {
    let rejected = LinkRequest { vertex: 1, fragment: 2 }.linked(3, 0).unwrap_err();
    assert_eq!(rejected.program, 3);
    let error = rejected.error(b"no main\0");
    assert_eq!(error, BuildError::Link("no main".to_string()));
    assert_eq!(error.message(), "OpenGL program link failed: no main");
}

#[test]
fn windows_open_on_the_screenshot() {
    let screenshot = Screenshot { width: 2, height: 1, rgba: vec![0; 8] };
    let window = show_zoom_window(&screenshot, RenderBackend::Gl33, 640, 480);
    assert_eq!((window.viewer.image_width, window.viewer.image_height), (2, 1));
    assert_eq!((window.viewer.cursor_x2, window.viewer.cursor_y2), (640, 480));
    assert_eq!(window.program, create_program(RenderBackend::Gl33));
    assert_eq!(window.setup, setup_commands(RenderBackend::Gl33, 2, 1));
}

#[test]
fn the_upload_takes_the_whole_screenshot() {
    let screenshot = Screenshot { width: 3, height: 2, rgba: vec![0; 24] };
    let window = show_zoom_window(&screenshot, RenderBackend::Gl20, 1, 1);
    for command in &window.setup {
        if let SetupCommand::UploadImage { width, height } = command {
            assert_eq!(4 * (width * height) as usize, screenshot.rgba.len());
        }
    }
    assert!(window.setup.contains(&SetupCommand::UploadImage { width: 3, height: 2 }));
}
