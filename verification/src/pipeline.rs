//! The drawing pipeline: what is set up once, drawn for every frame, and released at the
//! end.

use crate::config::RenderBackend;
use crate::signed::{as_signed, signed};
use vstd::prelude::*;

verus! {

/// The bytes of one number in the vertex buffer.
pub const FLOAT_BYTES: u32 = 4;

/// The numbers of one vertex: a position, and where it lies in the texture.
pub const VERTEX_FLOATS: u32 = 4;

/// The vertices of the picture: two triangles.
pub const QUAD_VERTICES: u32 = 6;

/// The bytes of one vertex.
pub const VERTEX_BYTES: u32 = 16;

/// The bytes of all vertices of the picture.
pub const QUAD_BYTES: u32 = 96;

/// A corner of the picture.
pub struct Corner {
    pub right: bool,
    pub bottom: bool,
}

/// The corner at which vertex `v` of the picture lies.
pub open spec fn quad_corner(v: int) -> Corner {
    if v == 0 || v == 3 {
        Corner { right: false, bottom: false }
    } else if v == 1 {
        Corner { right: true, bottom: false }
    } else if v == 2 || v == 4 {
        Corner { right: true, bottom: true }
    } else {
        Corner { right: false, bottom: true }
    }
}

/// Component `c` of a vertex at `corner`: its position, then the same corner of the texture.
pub open spec fn vertex_component<T>(
    corner: Corner,
    c: int,
    left: T,
    top: T,
    right: T,
    bottom: T,
    zero: T,
    one: T,
) -> T {
    if c == 0 {
        if corner.right {
            right
        } else {
            left
        }
    } else if c == 1 {
        if corner.bottom {
            bottom
        } else {
            top
        }
    } else if c == 2 {
        if corner.right {
            one
        } else {
            zero
        }
    } else {
        if corner.bottom {
            one
        } else {
            zero
        }
    }
}

/// The vertices of a picture with the given edges, one after the other; `zero` and `one` are
/// the edges of the texture.
pub open spec fn quad<T>(left: T, top: T, right: T, bottom: T, zero: T, one: T) -> Seq<T> {
    Seq::new(
        24,
        |i: int|
            vertex_component(quad_corner(i / 4), i % 4, left, top, right, bottom, zero, one),
    )
}

/// The vertices of a picture with the given edges; `zero` and `one` are the edges of the
/// texture.
pub fn quad_vertices<T: Copy>(left: T, top: T, right: T, bottom: T, zero: T, one: T) -> (vertices:
    [T; 24])
    ensures
        vertices@ == quad(left, top, right, bottom, zero, one),
{
    let vertices: [T; 24] = [
        left, top, zero, zero,
        right, top, one, zero,
        right, bottom, one, one,
        left, top, zero, zero,
        right, bottom, one, one,
        left, bottom, zero, one,
    ];
    assert(vertices@ =~= quad(left, top, right, bottom, zero, one));
    vertices
}

/// A parameter of the shader program.
#[derive(Clone, Copy, Debug, PartialEq, Eq, Structural)]
pub enum Uniform {
    ImageTexture,
    Viewport,
    SpotlightCenter,
    SpotlightRadius,
    SpotlightTint,
    SpotlightEnabled,
    FadeAlpha,
}

impl Uniform {
    /// The name that the shaders give this parameter.
    pub open spec fn spec_name(self) -> Seq<char> {
        match self {
            Uniform::ImageTexture => "image_texture"@,
            Uniform::Viewport => "viewport"@,
            Uniform::SpotlightCenter => "spotlight_center"@,
            Uniform::SpotlightRadius => "spotlight_radius"@,
            Uniform::SpotlightTint => "spotlight_tint"@,
            Uniform::SpotlightEnabled => "spotlight_enabled"@,
            Uniform::FadeAlpha => "fade_alpha"@,
        }
    }

    /// The name that the shaders give this parameter.
    pub fn name(self) -> (name: &'static str)
        ensures
            name@ == self.spec_name(),
    {
        match self {
            Uniform::ImageTexture => "image_texture",
            Uniform::Viewport => "viewport",
            Uniform::SpotlightCenter => "spotlight_center",
            Uniform::SpotlightRadius => "spotlight_radius",
            Uniform::SpotlightTint => "spotlight_tint",
            Uniform::SpotlightEnabled => "spotlight_enabled",
            Uniform::FadeAlpha => "fade_alpha",
        }
    }
}

/// A part of a vertex, as the vertex shader takes it in.
#[derive(Clone, Copy, Debug, PartialEq, Eq, Structural)]
pub enum Attribute {
    /// Where the vertex lies in the window.
    Position,
    /// Where the vertex lies in the texture.
    TexCoord,
}

impl Attribute {
    /// The slot of this attribute.
    pub open spec fn spec_index(self) -> u32 {
        match self {
            Attribute::Position => 0,
            Attribute::TexCoord => 1,
        }
    }

    /// The numbers that this attribute takes.
    pub open spec fn spec_components(self) -> u32 {
        2
    }

    /// The bytes of a vertex before this attribute.
    pub open spec fn spec_offset(self) -> u32 {
        match self {
            Attribute::Position => 0,
            Attribute::TexCoord => 8,
        }
    }

    /// The name that the vertex shaders give this attribute.
    pub open spec fn spec_name(self) -> Seq<char> {
        match self {
            Attribute::Position => "position"@,
            Attribute::TexCoord => "tex_coord"@,
        }
    }

    /// The slot of this attribute.
    pub fn index(self) -> (index: u32)
        ensures
            index == self.spec_index(),
    {
        match self {
            Attribute::Position => 0,
            Attribute::TexCoord => 1,
        }
    }

    /// The numbers that this attribute takes.
    pub fn components(self) -> (components: u32)
        ensures
            components == self.spec_components(),
    {
        2
    }

    /// The bytes of a vertex before this attribute.
    pub fn offset(self) -> (offset: u32)
        ensures
            offset == self.spec_offset(),
    {
        match self {
            Attribute::Position => 0,
            Attribute::TexCoord => 2 * FLOAT_BYTES,
        }
    }

    /// The name that the vertex shaders give this attribute.
    pub fn name(self) -> (name: &'static str)
        ensures
            name@ == self.spec_name(),
    {
        match self {
            Attribute::Position => "position",
            Attribute::TexCoord => "tex_coord",
        }
    }
}

/// A step of setting up the pipeline.
#[derive(Clone, Copy, Debug, PartialEq, Eq, Structural)]
pub enum SetupCommand {
    /// Make the vertex array.
    MakeVertexArray,
    /// Make the vertex array current.
    BindVertexArray,
    /// Make the vertex buffer.
    MakeVertexBuffer,
    /// Make the vertex buffer current.
    BindVertexBuffer,
    /// Give the vertex buffer room for this many bytes, to be written often.
    AllocateVertices { bytes: u32 },
    /// Feed this attribute from the vertex buffer.
    EnableAttribute { attribute: Attribute },
    /// Say where the attribute lies in vertices that start `stride` bytes apart.
    LayOutAttribute { attribute: Attribute, stride: u32 },
    /// Make the texture.
    MakeTexture,
    /// Make the texture current.
    BindTexture,
    /// Blend neighbouring pixels when the picture is drawn smaller.
    SmoothWhenSmaller,
    /// Blend neighbouring pixels when the picture is drawn larger.
    SmoothWhenLarger,
    /// Repeat the edge beyond the left and right sides.
    ClampSides,
    /// Repeat the edge beyond the top and bottom.
    ClampEnds,
    /// Take rows of pixels without padding.
    UnpackTightly,
    /// Fill the texture with the screenshot.
    UploadImage { width: i32, height: i32 },
    /// Look up where the program keeps a parameter.
    Locate { uniform: Uniform },
    /// Make the program current.
    UseProgram,
    /// Have the program sample a texture unit.
    SampleUnit { unit: i32 },
}

/// The steps that set up the pipeline for a screenshot of the given size.
pub open spec fn setup_steps(backend: RenderBackend, width: u32, height: u32) -> Seq<
    SetupCommand,
> {
    vertex_array_steps(backend) + buffer_steps() + texture_steps(width, height) + program_steps()
}

/// The steps that make the vertex array, where the backend has one.
pub open spec fn vertex_array_steps(backend: RenderBackend) -> Seq<SetupCommand> {
    if backend == RenderBackend::Gl33 {
        seq![SetupCommand::MakeVertexArray, SetupCommand::BindVertexArray]
    } else {
        Seq::empty()
    }
}

/// The steps that make the vertex buffer and lay out its vertices.
pub open spec fn buffer_steps() -> Seq<SetupCommand> {
    seq![
        SetupCommand::MakeVertexBuffer,
        SetupCommand::BindVertexBuffer,
        SetupCommand::AllocateVertices { bytes: QUAD_BYTES },
        SetupCommand::EnableAttribute { attribute: Attribute::Position },
        SetupCommand::LayOutAttribute { attribute: Attribute::Position, stride: VERTEX_BYTES },
        SetupCommand::EnableAttribute { attribute: Attribute::TexCoord },
        SetupCommand::LayOutAttribute { attribute: Attribute::TexCoord, stride: VERTEX_BYTES },
    ]
}

/// The steps that make the texture of a screenshot.
pub open spec fn texture_steps(width: u32, height: u32) -> Seq<SetupCommand> {
    seq![
        SetupCommand::MakeTexture,
        SetupCommand::BindTexture,
        SetupCommand::SmoothWhenSmaller,
        SetupCommand::SmoothWhenLarger,
        SetupCommand::ClampSides,
        SetupCommand::ClampEnds,
        SetupCommand::UnpackTightly,
        SetupCommand::UploadImage { width: signed(width) as i32, height: signed(height) as i32 },
    ]
}

/// The steps that find the program's parameters and select the texture unit.
pub open spec fn program_steps() -> Seq<SetupCommand> {
    seq![
        SetupCommand::Locate { uniform: Uniform::ImageTexture },
        SetupCommand::Locate { uniform: Uniform::Viewport },
        SetupCommand::Locate { uniform: Uniform::SpotlightCenter },
        SetupCommand::Locate { uniform: Uniform::SpotlightRadius },
        SetupCommand::Locate { uniform: Uniform::SpotlightTint },
        SetupCommand::Locate { uniform: Uniform::SpotlightEnabled },
        SetupCommand::Locate { uniform: Uniform::FadeAlpha },
        SetupCommand::UseProgram,
        SetupCommand::SampleUnit { unit: 0 },
    ]
}

/// The steps that set up the pipeline for a screenshot of the given size.
pub fn setup_commands(backend: RenderBackend, width: u32, height: u32) -> (commands: Vec<
    SetupCommand,
>)
    ensures
        commands@ == setup_steps(backend, width, height),
{
    let mut commands: Vec<SetupCommand> = Vec::new();
    if backend.uses_vertex_arrays() {
        commands.push(SetupCommand::MakeVertexArray);
        commands.push(SetupCommand::BindVertexArray);
    }
    assert(commands@ =~= vertex_array_steps(backend));
    commands.push(SetupCommand::MakeVertexBuffer);
    commands.push(SetupCommand::BindVertexBuffer);
    commands.push(SetupCommand::AllocateVertices { bytes: QUAD_BYTES });
    commands.push(SetupCommand::EnableAttribute { attribute: Attribute::Position });
    commands.push(
        SetupCommand::LayOutAttribute { attribute: Attribute::Position, stride: VERTEX_BYTES },
    );
    commands.push(SetupCommand::EnableAttribute { attribute: Attribute::TexCoord });
    commands.push(
        SetupCommand::LayOutAttribute { attribute: Attribute::TexCoord, stride: VERTEX_BYTES },
    );
    assert(commands@ =~= vertex_array_steps(backend) + buffer_steps());
    commands.push(SetupCommand::MakeTexture);
    commands.push(SetupCommand::BindTexture);
    commands.push(SetupCommand::SmoothWhenSmaller);
    commands.push(SetupCommand::SmoothWhenLarger);
    commands.push(SetupCommand::ClampSides);
    commands.push(SetupCommand::ClampEnds);
    commands.push(SetupCommand::UnpackTightly);
    commands.push(
        SetupCommand::UploadImage { width: as_signed(width), height: as_signed(height) },
    );
    assert(commands@ =~= vertex_array_steps(backend) + buffer_steps() + texture_steps(
        width,
        height,
    ));
    commands.push(SetupCommand::Locate { uniform: Uniform::ImageTexture });
    commands.push(SetupCommand::Locate { uniform: Uniform::Viewport });
    commands.push(SetupCommand::Locate { uniform: Uniform::SpotlightCenter });
    commands.push(SetupCommand::Locate { uniform: Uniform::SpotlightRadius });
    commands.push(SetupCommand::Locate { uniform: Uniform::SpotlightTint });
    commands.push(SetupCommand::Locate { uniform: Uniform::SpotlightEnabled });
    commands.push(SetupCommand::Locate { uniform: Uniform::FadeAlpha });
    commands.push(SetupCommand::UseProgram);
    commands.push(SetupCommand::SampleUnit { unit: 0 });
    assert(commands@ =~= setup_steps(backend, width, height));
    commands
}

/// A step of drawing a frame.
#[derive(Clone, Copy, Debug, PartialEq, Eq, Structural)]
pub enum DrawCommand {
    /// Draw on the whole drawable area.
    SetViewport,
    /// Clear the drawable area.
    Clear,
    /// Make the program current.
    UseProgram,
    /// Give a parameter its value for this frame.
    SetUniform { uniform: Uniform },
    /// Switch the spotlight on with one, off with zero.
    SetSpotlight { enabled: i32 },
    /// Select the texture unit that the program samples.
    SelectUnit { unit: u32 },
    /// Make the texture current.
    BindTexture,
    /// Make this vertex array current.
    BindVertexArray { vertex_array: u32 },
    /// Make the vertex buffer current.
    BindVertexBuffer,
    /// Write the picture's vertices, this many bytes, to the start of the vertex buffer.
    UploadVertices { bytes: u32 },
    /// Draw triangles from this many vertices.
    DrawTriangles { vertices: u32 },
}

/// The steps that draw a frame; a vertex array of zero stands for none.
pub open spec fn draw_steps(vertex_array: u32, spotlight: bool) -> Seq<DrawCommand> {
    seq![
        DrawCommand::SetViewport,
        DrawCommand::Clear,
        DrawCommand::UseProgram,
        DrawCommand::SetUniform { uniform: Uniform::Viewport },
        DrawCommand::SetUniform { uniform: Uniform::SpotlightCenter },
        DrawCommand::SetUniform { uniform: Uniform::SpotlightRadius },
        DrawCommand::SetUniform { uniform: Uniform::SpotlightTint },
        DrawCommand::SetSpotlight {
            enabled: if spotlight {
                1
            } else {
                0
            },
        },
        DrawCommand::SetUniform { uniform: Uniform::FadeAlpha },
        DrawCommand::SelectUnit { unit: 0 },
        DrawCommand::BindTexture,
    ] + (if vertex_array != 0 {
        seq![DrawCommand::BindVertexArray { vertex_array }]
    } else {
        Seq::empty()
    }) + seq![
        DrawCommand::BindVertexBuffer,
        DrawCommand::UploadVertices { bytes: QUAD_BYTES },
        DrawCommand::DrawTriangles { vertices: QUAD_VERTICES },
    ]
}

/// The steps that draw a frame; a vertex array of zero stands for none.
pub fn draw_commands(vertex_array: u32, spotlight: bool) -> (commands: Vec<DrawCommand>)
    ensures
        commands@ == draw_steps(vertex_array, spotlight),
{
    let mut commands: Vec<DrawCommand> = Vec::new();
    commands.push(DrawCommand::SetViewport);
    commands.push(DrawCommand::Clear);
    commands.push(DrawCommand::UseProgram);
    commands.push(DrawCommand::SetUniform { uniform: Uniform::Viewport });
    commands.push(DrawCommand::SetUniform { uniform: Uniform::SpotlightCenter });
    commands.push(DrawCommand::SetUniform { uniform: Uniform::SpotlightRadius });
    commands.push(DrawCommand::SetUniform { uniform: Uniform::SpotlightTint });
    commands.push(
        DrawCommand::SetSpotlight {
            enabled: if spotlight {
                1
            } else {
                0
            },
        },
    );
    commands.push(DrawCommand::SetUniform { uniform: Uniform::FadeAlpha });
    commands.push(DrawCommand::SelectUnit { unit: 0 });
    commands.push(DrawCommand::BindTexture);
    if vertex_array != 0 {
        commands.push(DrawCommand::BindVertexArray { vertex_array });
    }
    commands.push(DrawCommand::BindVertexBuffer);
    commands.push(DrawCommand::UploadVertices { bytes: QUAD_BYTES });
    commands.push(DrawCommand::DrawTriangles { vertices: QUAD_VERTICES });
    assert(commands@ =~= draw_steps(vertex_array, spotlight));
    commands
}

/// A step of releasing the pipeline.
#[derive(Clone, Copy, Debug, PartialEq, Eq, Structural)]
pub enum ReleaseCommand {
    DeleteTexture,
    DeleteVertexBuffer,
    DeleteVertexArray { vertex_array: u32 },
    DeleteProgram,
}

/// The steps that release the pipeline; a vertex array of zero stands for none.
pub open spec fn release_steps(vertex_array: u32) -> Seq<ReleaseCommand> {
    seq![ReleaseCommand::DeleteTexture, ReleaseCommand::DeleteVertexBuffer] + (if vertex_array
        != 0 {
        seq![ReleaseCommand::DeleteVertexArray { vertex_array }]
    } else {
        Seq::empty()
    }) + seq![ReleaseCommand::DeleteProgram]
}

/// The steps that release the pipeline; a vertex array of zero stands for none.
pub fn release_commands(vertex_array: u32) -> (commands: Vec<ReleaseCommand>)
    ensures
        commands@ == release_steps(vertex_array),
{
    let mut commands: Vec<ReleaseCommand> = Vec::new();
    commands.push(ReleaseCommand::DeleteTexture);
    commands.push(ReleaseCommand::DeleteVertexBuffer);
    if vertex_array != 0 {
        commands.push(ReleaseCommand::DeleteVertexArray { vertex_array });
    }
    commands.push(ReleaseCommand::DeleteProgram);
    assert(commands@ =~= release_steps(vertex_array));
    commands
}

/// The vertices that a frame uploads fill the vertex buffer exactly, and are as many as are
/// drawn from it.
pub proof fn law_vertices_fill_the_buffer<T>(
    left: T,
    top: T,
    right: T,
    bottom: T,
    zero: T,
    one: T,
)
    ensures
        quad(left, top, right, bottom, zero, one).len() * FLOAT_BYTES == QUAD_BYTES,
        VERTEX_FLOATS * FLOAT_BYTES == VERTEX_BYTES,
        QUAD_VERTICES * VERTEX_BYTES == QUAD_BYTES,
{
}

/// Whether byte `n` of a vertex belongs to `attribute`.
pub open spec fn covers(attribute: Attribute, n: int) -> bool {
    attribute.spec_offset() <= n < attribute.spec_offset() + attribute.spec_components()
        * FLOAT_BYTES
}

/// The attributes take up all of a vertex and do not overlap: each of its bytes belongs to
/// exactly one of them, and none lies outside.
pub proof fn law_attributes_fill_a_vertex(n: int)
    ensures
        0 <= n < VERTEX_BYTES <==> (covers(Attribute::Position, n) || covers(
            Attribute::TexCoord,
            n,
        )),
        !(covers(Attribute::Position, n) && covers(Attribute::TexCoord, n)),
{
}

/// Every vertex shows the corner of the texture that it has in the picture: the left edge
/// the left edge, the top the top, and so on.
pub proof fn law_texture_follows_the_picture<T>(
    left: T,
    top: T,
    right: T,
    bottom: T,
    zero: T,
    one: T,
    v: int,
)
    requires
        0 <= v < 6,
    ensures
        ({
            let quad = quad(left, top, right, bottom, zero, one);
            &&& (quad[4 * v] == left && quad[4 * v + 2] == zero) || (quad[4 * v] == right && quad[4
                * v + 2] == one)
            &&& (quad[4 * v + 1] == top && quad[4 * v + 3] == zero) || (quad[4 * v + 1] == bottom
                && quad[4 * v + 3] == one)
        }),
{
}

/// Whether `corner` is one of the three corners of the triangle that starts with vertex
/// `first`.
pub open spec fn triangle_has(first: int, corner: Corner) -> bool {
    ||| quad_corner(first) == corner
    ||| quad_corner(first + 1) == corner
    ||| quad_corner(first + 2) == corner
}

/// Each corner of the picture belongs to one of the two triangles, and both have just the
/// corners of the diagonal from the top left to the bottom right: together they cover the
/// picture once.
pub proof fn law_triangles_cover_the_picture(corner: Corner)
    ensures
        triangle_has(0, corner) || triangle_has(3, corner),
        (triangle_has(0, corner) && triangle_has(3, corner)) == (corner.right == corner.bottom),
{
}

/// What setting up makes, releasing deletes: the texture and the vertex buffer always, and
/// the vertex array where the backend has one.
pub proof fn law_what_is_made_is_deleted(
    backend: RenderBackend,
    width: u32,
    height: u32,
    vertex_array: u32,
)
    requires
        (vertex_array != 0) == setup_steps(backend, width, height).contains(
            SetupCommand::MakeVertexArray,
        ),
    ensures
        setup_steps(backend, width, height).contains(SetupCommand::MakeVertexArray) == (backend
            == RenderBackend::Gl33),
        setup_steps(backend, width, height).contains(SetupCommand::MakeVertexArray)
            == release_steps(vertex_array).contains(
            ReleaseCommand::DeleteVertexArray { vertex_array },
        ),
        setup_steps(backend, width, height).contains(SetupCommand::MakeTexture),
        release_steps(vertex_array).contains(ReleaseCommand::DeleteTexture),
        setup_steps(backend, width, height).contains(SetupCommand::MakeVertexBuffer),
        release_steps(vertex_array).contains(ReleaseCommand::DeleteVertexBuffer),
        release_steps(vertex_array).contains(ReleaseCommand::DeleteProgram),
{
    let setup = setup_steps(backend, width, height);
    let release = release_steps(vertex_array);
    let n = vertex_array_steps(backend).len() as int;
    assert(setup[n] == SetupCommand::MakeVertexBuffer);
    assert(setup[n + 7] == SetupCommand::MakeTexture);
    if backend == RenderBackend::Gl33 {
        assert(setup[0] == SetupCommand::MakeVertexArray);
    } else {
        assert forall|i: int| 0 <= i < setup.len() implies setup[i]
            != SetupCommand::MakeVertexArray by {}
    }
    assert(release[0] == ReleaseCommand::DeleteTexture);
    assert(release[1] == ReleaseCommand::DeleteVertexBuffer);
    assert(release[release.len() - 1] == ReleaseCommand::DeleteProgram);
    if vertex_array != 0 {
        assert(release[2] == ReleaseCommand::DeleteVertexArray { vertex_array });
    } else {
        assert forall|i: int| 0 <= i < release.len() implies release[i] != (
        ReleaseCommand::DeleteVertexArray { vertex_array }) by {}
    }
}

/// Every parameter that a frame sets has been located when the pipeline was set up, and a
/// frame sets each of them but the texture, which is set once.
pub proof fn law_parameters_are_located_and_set(
    backend: RenderBackend,
    width: u32,
    height: u32,
    vertex_array: u32,
    spotlight: bool,
    uniform: Uniform,
)
    ensures
        setup_steps(backend, width, height).contains(SetupCommand::Locate { uniform }),
        draw_steps(vertex_array, spotlight).contains(DrawCommand::SetUniform { uniform }) == (
        uniform != Uniform::ImageTexture && uniform != Uniform::SpotlightEnabled),
        draw_steps(vertex_array, spotlight).contains(
            DrawCommand::SetSpotlight {
                enabled: if spotlight {
                    1
                } else {
                    0
                },
            },
        ),
{
    let setup = setup_steps(backend, width, height);
    let draw = draw_steps(vertex_array, spotlight);
    let n = vertex_array_steps(backend).len() as int + 15;
    assert(setup[n] == (SetupCommand::Locate { uniform: Uniform::ImageTexture }));
    assert(setup[n + 1] == (SetupCommand::Locate { uniform: Uniform::Viewport }));
    assert(setup[n + 2] == (SetupCommand::Locate { uniform: Uniform::SpotlightCenter }));
    assert(setup[n + 3] == (SetupCommand::Locate { uniform: Uniform::SpotlightRadius }));
    assert(setup[n + 4] == (SetupCommand::Locate { uniform: Uniform::SpotlightTint }));
    assert(setup[n + 5] == (SetupCommand::Locate { uniform: Uniform::SpotlightEnabled }));
    assert(setup[n + 6] == (SetupCommand::Locate { uniform: Uniform::FadeAlpha }));
    assert(draw[3] == (DrawCommand::SetUniform { uniform: Uniform::Viewport }));
    assert(draw[4] == (DrawCommand::SetUniform { uniform: Uniform::SpotlightCenter }));
    assert(draw[5] == (DrawCommand::SetUniform { uniform: Uniform::SpotlightRadius }));
    assert(draw[6] == (DrawCommand::SetUniform { uniform: Uniform::SpotlightTint }));
    assert(draw[7] == (DrawCommand::SetSpotlight {
        enabled: if spotlight {
            1
        } else {
            0
        },
    }));
    assert(draw[8] == (DrawCommand::SetUniform { uniform: Uniform::FadeAlpha }));
    if uniform == Uniform::ImageTexture || uniform == Uniform::SpotlightEnabled {
        assert forall|i: int| 0 <= i < draw.len() implies draw[i] != (DrawCommand::SetUniform {
            uniform,
        }) by {}
    }
}

/// Whether `first` stands in `steps`, and `second` after it.
pub open spec fn comes_before<T>(steps: Seq<T>, first: T, second: T) -> bool {
    exists|i: int, j: int|
        0 <= i < j < steps.len() && #[trigger] steps[i] == first && #[trigger] steps[j] == second
}

/// Where each step of setting up stands, after `n` steps for the vertex array.
spec fn setup_place(n: int, step: SetupCommand) -> int {
    match step {
        SetupCommand::MakeVertexArray => 0,
        SetupCommand::BindVertexArray => 1,
        SetupCommand::MakeVertexBuffer => n,
        SetupCommand::BindVertexBuffer => n + 1,
        SetupCommand::AllocateVertices { .. } => n + 2,
        SetupCommand::EnableAttribute { attribute: Attribute::Position } => n + 3,
        SetupCommand::LayOutAttribute { attribute: Attribute::Position, .. } => n + 4,
        SetupCommand::EnableAttribute { attribute: Attribute::TexCoord } => n + 5,
        SetupCommand::LayOutAttribute { attribute: Attribute::TexCoord, .. } => n + 6,
        SetupCommand::MakeTexture => n + 7,
        SetupCommand::BindTexture => n + 8,
        SetupCommand::SmoothWhenSmaller => n + 9,
        SetupCommand::SmoothWhenLarger => n + 10,
        SetupCommand::ClampSides => n + 11,
        SetupCommand::ClampEnds => n + 12,
        SetupCommand::UnpackTightly => n + 13,
        SetupCommand::UploadImage { .. } => n + 14,
        SetupCommand::Locate { uniform: Uniform::ImageTexture } => n + 15,
        SetupCommand::Locate { uniform: Uniform::Viewport } => n + 16,
        SetupCommand::Locate { uniform: Uniform::SpotlightCenter } => n + 17,
        SetupCommand::Locate { uniform: Uniform::SpotlightRadius } => n + 18,
        SetupCommand::Locate { uniform: Uniform::SpotlightTint } => n + 19,
        SetupCommand::Locate { uniform: Uniform::SpotlightEnabled } => n + 20,
        SetupCommand::Locate { uniform: Uniform::FadeAlpha } => n + 21,
        SetupCommand::UseProgram => n + 22,
        SetupCommand::SampleUnit { .. } => n + 23,
    }
}

spec fn belongs_to_setup(
    backend: RenderBackend,
    width: u32,
    height: u32,
    step: SetupCommand,
) -> bool {
    match step {
        SetupCommand::MakeVertexArray | SetupCommand::BindVertexArray => backend
            == RenderBackend::Gl33,
        SetupCommand::AllocateVertices { bytes } => bytes == 6 * 16,
        SetupCommand::LayOutAttribute { stride, .. } => stride == 16,
        SetupCommand::UploadImage { width: w, height: h } => w == signed(width) && h == signed(
            height,
        ),
        SetupCommand::SampleUnit { unit } => unit == 0,
        _ => true,
    }
}

/// Whether `later` can only be done after `earlier`: what is made current has been made, and
/// what works on the current array, buffer, texture or program comes when that is current.
pub open spec fn setup_needs(later: SetupCommand, earlier: SetupCommand) -> bool {
    match earlier {
        SetupCommand::MakeVertexArray => later == SetupCommand::BindVertexArray,
        SetupCommand::BindVertexArray => later == SetupCommand::BindVertexBuffer
            || later is EnableAttribute || later is LayOutAttribute,
        SetupCommand::MakeVertexBuffer => later == SetupCommand::BindVertexBuffer,
        SetupCommand::BindVertexBuffer => later is AllocateVertices || later is EnableAttribute
            || later is LayOutAttribute,
        SetupCommand::MakeTexture => later == SetupCommand::BindTexture,
        SetupCommand::BindTexture => later == SetupCommand::SmoothWhenSmaller || later
            == SetupCommand::SmoothWhenLarger || later == SetupCommand::ClampSides || later
            == SetupCommand::ClampEnds || later is UploadImage,
        SetupCommand::UnpackTightly => later is UploadImage,
        SetupCommand::Locate { uniform } => uniform == Uniform::ImageTexture
            && later is SampleUnit,
        SetupCommand::UseProgram => later is SampleUnit,
        _ => false,
    }
}

proof fn lemma_setup_places(backend: RenderBackend, width: u32, height: u32)
    ensures
        ({
            let steps = setup_steps(backend, width, height);
            let n = vertex_array_steps(backend).len() as int;
            &&& n == if backend == RenderBackend::Gl33 {
                2int
            } else {
                0int
            }
            &&& steps.len() == n + 24
            &&& forall|i: int|
                0 <= i < steps.len() ==> {
                    &&& setup_place(n, #[trigger] steps[i]) == i
                    &&& belongs_to_setup(backend, width, height, steps[i])
                }
            &&& forall|step: SetupCommand|
                #[trigger] belongs_to_setup(backend, width, height, step) ==> {
                    &&& 0 <= setup_place(n, step) < steps.len()
                    &&& steps[setup_place(n, step)] == step
                }
        }),
{
}

/// Setting up takes each of its steps once and no other, for every backend and size: all that
/// there are, with the numbers of the vertices and of the screenshot, but those for the vertex
/// array only where there is one.
pub proof fn law_setup_takes_each_step_once(
    backend: RenderBackend,
    width: u32,
    height: u32,
    commands: Vec<SetupCommand>,
    step: SetupCommand,
)
    requires
        call_ensures(setup_commands, (backend, width, height), commands),
    ensures
        commands@.contains(step) <==> match step {
            SetupCommand::MakeVertexArray | SetupCommand::BindVertexArray => backend
                == RenderBackend::Gl33,
            SetupCommand::AllocateVertices { bytes } => bytes == 6 * 16,
            SetupCommand::LayOutAttribute { stride, .. } => stride == 16,
            SetupCommand::UploadImage { width: w, height: h } => w == signed(width) && h == signed(
                height,
            ),
            SetupCommand::SampleUnit { unit } => unit == 0,
            _ => true,
        },
        commands@.no_duplicates(),
{
    lemma_setup_places(backend, width, height);
    let n = vertex_array_steps(backend).len() as int;
    if belongs_to_setup(backend, width, height, step) {
        assert(commands@[setup_place(n, step)] == step);
    }
}

/// Setting up takes its steps in an order in which they can be taken.
pub proof fn law_setup_is_in_order(
    backend: RenderBackend,
    width: u32,
    height: u32,
    commands: Vec<SetupCommand>,
    i: int,
    j: int,
)
    requires
        call_ensures(setup_commands, (backend, width, height), commands),
        0 <= i < commands@.len(),
        0 <= j < commands@.len(),
        setup_needs(commands@[j], commands@[i]),
    ensures
        i < j,
{
    lemma_setup_places(backend, width, height);
    let n = vertex_array_steps(backend).len() as int;
    assert(setup_place(n, commands@[i]) == i);
    assert(setup_place(n, commands@[j]) == j);
}

/// For every backend and size each attribute that the vertex shader takes in is fed from the
/// vertex buffer: once that is current, the attribute is enabled, and laid out in vertices that
/// start as many bytes apart as one takes.
pub proof fn law_every_attribute_is_fed(
    backend: RenderBackend,
    width: u32,
    height: u32,
    commands: Vec<SetupCommand>,
    attribute: Attribute,
)
    requires
        call_ensures(setup_commands, (backend, width, height), commands),
    ensures
        comes_before(
            commands@,
            SetupCommand::BindVertexBuffer,
            SetupCommand::EnableAttribute { attribute },
        ),
        comes_before(
            commands@,
            SetupCommand::BindVertexBuffer,
            SetupCommand::LayOutAttribute { attribute, stride: VERTEX_BYTES },
        ),
        VERTEX_BYTES == 4 * FLOAT_BYTES,
        FLOAT_BYTES == 4,
{
    let n = vertex_array_steps(backend).len() as int;
    let at = n + if attribute == Attribute::Position {
        3int
    } else {
        5int
    };
    assert(commands@[n + 1] == SetupCommand::BindVertexBuffer);
    assert(commands@[at] == SetupCommand::EnableAttribute { attribute });
    assert(commands@[at + 1] == SetupCommand::LayOutAttribute { attribute, stride: VERTEX_BYTES });
}

/// For every backend and size the texture is filled once, with the screenshot's size, after it
/// has been made current and tight rows have been selected.
pub proof fn law_the_texture_is_filled(
    backend: RenderBackend,
    width: u32,
    height: u32,
    commands: Vec<SetupCommand>,
)
    requires
        call_ensures(setup_commands, (backend, width, height), commands),
        width <= i32::MAX,
        height <= i32::MAX,
    ensures
        forall|i: int|
            0 <= i < commands@.len() ==> (#[trigger] commands@[i] matches SetupCommand::UploadImage {
                width: w,
                height: h,
            } ==> w == width && h == height),
        comes_before(
            commands@,
            SetupCommand::BindTexture,
            SetupCommand::UploadImage { width: width as i32, height: height as i32 },
        ),
        comes_before(
            commands@,
            SetupCommand::UnpackTightly,
            SetupCommand::UploadImage { width: width as i32, height: height as i32 },
        ),
{
    let n = vertex_array_steps(backend).len() as int;
    let upload = SetupCommand::UploadImage { width: width as i32, height: height as i32 };
    assert(commands@[n + 8] == SetupCommand::BindTexture);
    assert(commands@[n + 13] == SetupCommand::UnpackTightly);
    assert(commands@[n + 14] == upload);
}

/// Where each step of drawing stands, with `n` steps for the vertex array.
spec fn draw_place(n: int, step: DrawCommand) -> int {
    match step {
        DrawCommand::SetViewport => 0,
        DrawCommand::Clear => 1,
        DrawCommand::UseProgram => 2,
        DrawCommand::SetUniform { uniform: Uniform::Viewport } => 3,
        DrawCommand::SetUniform { uniform: Uniform::SpotlightCenter } => 4,
        DrawCommand::SetUniform { uniform: Uniform::SpotlightRadius } => 5,
        DrawCommand::SetUniform { uniform: Uniform::SpotlightTint } => 6,
        DrawCommand::SetSpotlight { .. } => 7,
        DrawCommand::SetUniform { .. } => 8,
        DrawCommand::SelectUnit { .. } => 9,
        DrawCommand::BindTexture => 10,
        DrawCommand::BindVertexArray { .. } => 11,
        DrawCommand::BindVertexBuffer => n + 11,
        DrawCommand::UploadVertices { .. } => n + 12,
        DrawCommand::DrawTriangles { .. } => n + 13,
    }
}

spec fn belongs_to_drawing(vertex_array: u32, spotlight: bool, step: DrawCommand) -> bool {
    match step {
        DrawCommand::SetUniform { uniform } => uniform != Uniform::ImageTexture && uniform
            != Uniform::SpotlightEnabled,
        DrawCommand::SetSpotlight { enabled } => if spotlight {
            enabled == 1
        } else {
            enabled == 0
        },
        DrawCommand::SelectUnit { unit } => unit == 0,
        DrawCommand::BindVertexArray { vertex_array: bound } => bound == vertex_array && bound
            != 0,
        DrawCommand::UploadVertices { bytes } => bytes == 6 * 16,
        DrawCommand::DrawTriangles { vertices } => vertices == 6,
        _ => true,
    }
}

/// Whether `later` can only be done after `earlier`: parameters are set in the current program,
/// the texture is bound to the selected unit, vertices are written to the current buffer, the
/// area is cleared before anything shows, and drawing comes last.
pub open spec fn drawing_needs(later: DrawCommand, earlier: DrawCommand) -> bool {
    ||| later is DrawTriangles && !(earlier is DrawTriangles)
    ||| match earlier {
        DrawCommand::SetViewport => later == DrawCommand::Clear,
        DrawCommand::Clear => later == DrawCommand::UseProgram,
        DrawCommand::UseProgram => later is SetUniform || later is SetSpotlight,
        DrawCommand::SelectUnit { .. } => later == DrawCommand::BindTexture,
        DrawCommand::BindVertexArray { .. } => later == DrawCommand::BindVertexBuffer,
        DrawCommand::BindVertexBuffer => later is UploadVertices,
        _ => false,
    }
}

proof fn lemma_draw_places(vertex_array: u32, spotlight: bool)
    ensures
        ({
            let steps = draw_steps(vertex_array, spotlight);
            let n = if vertex_array != 0 {
                1int
            } else {
                0int
            };
            &&& steps.len() == n + 14
            &&& forall|i: int|
                0 <= i < steps.len() ==> {
                    &&& draw_place(n, #[trigger] steps[i]) == i
                    &&& belongs_to_drawing(vertex_array, spotlight, steps[i])
                }
            &&& forall|step: DrawCommand|
                #[trigger] belongs_to_drawing(vertex_array, spotlight, step) ==> {
                    &&& 0 <= draw_place(n, step) < steps.len()
                    &&& steps[draw_place(n, step)] == step
                }
        }),
{
}

/// Drawing takes each of its steps once and no other, for every vertex array and with the
/// spotlight on or off: all that there are, with the numbers of the vertices, the state of the
/// spotlight, and the vertex array if there is one. Every parameter is set but the texture,
/// which stays, and the spotlight's switch, which has a step of its own.
pub proof fn law_drawing_takes_each_step_once(
    vertex_array: u32,
    spotlight: bool,
    commands: Vec<DrawCommand>,
    step: DrawCommand,
)
    requires
        call_ensures(draw_commands, (vertex_array, spotlight), commands),
    ensures
        commands@.contains(step) <==> match step {
            DrawCommand::SetUniform { uniform } => uniform != Uniform::ImageTexture && uniform
                != Uniform::SpotlightEnabled,
            DrawCommand::SetSpotlight { enabled } => if spotlight {
                enabled == 1
            } else {
                enabled == 0
            },
            DrawCommand::SelectUnit { unit } => unit == 0,
            DrawCommand::BindVertexArray { vertex_array: bound } => bound == vertex_array && bound
                != 0,
            DrawCommand::UploadVertices { bytes } => bytes == 6 * 16,
            DrawCommand::DrawTriangles { vertices } => vertices == 6,
            _ => true,
        },
        commands@.no_duplicates(),
{
    lemma_draw_places(vertex_array, spotlight);
    let n = if vertex_array != 0 {
        1int
    } else {
        0int
    };
    if belongs_to_drawing(vertex_array, spotlight, step) {
        assert(commands@[draw_place(n, step)] == step);
    }
}

/// Drawing takes its steps in an order in which they can be taken.
pub proof fn law_drawing_is_in_order(
    vertex_array: u32,
    spotlight: bool,
    commands: Vec<DrawCommand>,
    i: int,
    j: int,
)
    requires
        call_ensures(draw_commands, (vertex_array, spotlight), commands),
        0 <= i < commands@.len(),
        0 <= j < commands@.len(),
        drawing_needs(commands@[j], commands@[i]),
    ensures
        i < j,
{
    lemma_draw_places(vertex_array, spotlight);
    let n = if vertex_array != 0 {
        1int
    } else {
        0int
    };
    assert(draw_place(n, commands@[i]) == i);
    assert(draw_place(n, commands@[j]) == j);
}

/// For every vertex array, and with the spotlight on or off, a frame ends by drawing both
/// triangles, and draws nothing before: from six vertices, which take just the bytes uploaded
/// before it, and these just the bytes that were set aside when the pipeline was set up.
pub proof fn law_frames_draw_what_they_upload(
    vertex_array: u32,
    spotlight: bool,
    commands: Vec<DrawCommand>,
    backend: RenderBackend,
    width: u32,
    height: u32,
    setup: Vec<SetupCommand>,
    bytes: u32,
    room: u32,
    i: int,
)
    requires
        call_ensures(draw_commands, (vertex_array, spotlight), commands),
        call_ensures(setup_commands, (backend, width, height), setup),
        commands@.contains(DrawCommand::UploadVertices { bytes }),
        setup@.contains(SetupCommand::AllocateVertices { bytes: room }),
        0 <= i < commands@.len(),
    ensures
        commands@[i] is DrawTriangles <==> i == commands@.len() - 1,
        commands@[i] matches DrawCommand::DrawTriangles { vertices } ==> vertices == 6
            && vertices * VERTEX_BYTES == bytes,
        VERTEX_BYTES == 16,
        room == bytes,
{
}

/// A frame samples the unit that the program was told to, and binds the vertex array just if
/// there is one.
pub proof fn law_frames_use_what_was_set_up(
    vertex_array: u32,
    spotlight: bool,
    commands: Vec<DrawCommand>,
    backend: RenderBackend,
    width: u32,
    height: u32,
    setup: Vec<SetupCommand>,
    unit: u32,
    bound: u32,
)
    requires
        call_ensures(draw_commands, (vertex_array, spotlight), commands),
        call_ensures(setup_commands, (backend, width, height), setup),
    ensures
        unit <= i32::MAX ==> (commands@.contains(DrawCommand::SelectUnit { unit })
            <==> setup@.contains(SetupCommand::SampleUnit { unit: unit as i32 })),
        commands@.contains(DrawCommand::BindVertexArray { vertex_array: bound }) <==> bound
            == vertex_array && bound != 0,
        commands@.contains(DrawCommand::SetSpotlight { enabled: 1 }) <==> spotlight,
        commands@.contains(DrawCommand::SetSpotlight { enabled: 0 }) <==> !spotlight,
{
    law_drawing_takes_each_step_once(
        vertex_array,
        spotlight,
        commands,
        DrawCommand::SelectUnit { unit },
    );
    law_drawing_takes_each_step_once(
        vertex_array,
        spotlight,
        commands,
        DrawCommand::BindVertexArray { vertex_array: bound },
    );
    law_drawing_takes_each_step_once(
        vertex_array,
        spotlight,
        commands,
        DrawCommand::SetSpotlight { enabled: 1 },
    );
    law_drawing_takes_each_step_once(
        vertex_array,
        spotlight,
        commands,
        DrawCommand::SetSpotlight { enabled: 0 },
    );
    law_setup_takes_each_step_once(
        backend,
        width,
        height,
        setup,
        SetupCommand::SampleUnit { unit: unit as i32 },
    );
}

/// Releasing deletes each thing once: the texture, the vertex buffer, the program, and the
/// vertex array under its own number if there is one.
pub proof fn law_each_thing_is_deleted_once(
    vertex_array: u32,
    commands: Vec<ReleaseCommand>,
    step: ReleaseCommand,
)
    requires
        call_ensures(release_commands, (vertex_array,), commands),
    ensures
        commands@.contains(step) <==> (step matches ReleaseCommand::DeleteVertexArray {
            vertex_array: deleted,
        } ==> deleted == vertex_array && deleted != 0),
        commands@.no_duplicates(),
{
    let steps = commands@;
    assert(steps[0] == ReleaseCommand::DeleteTexture);
    assert(steps[1] == ReleaseCommand::DeleteVertexBuffer);
    assert(steps[steps.len() - 1] == ReleaseCommand::DeleteProgram);
    if vertex_array != 0 {
        assert(steps.len() == 4);
        assert(steps[2] == ReleaseCommand::DeleteVertexArray { vertex_array });
    } else {
        assert(steps.len() == 3);
    }
}

/// Each of the six vertices lies at a corner of the picture and of the texture, the same one:
/// a triangle goes from the top left over the top right to the bottom right, the other from the
/// top left over the bottom right to the bottom left.
pub proof fn law_vertices_go_round_the_picture<T: Copy>(
    left: T,
    top: T,
    right: T,
    bottom: T,
    zero: T,
    one: T,
    vertices: [T; 24],
)
    requires
        call_ensures(quad_vertices::<T>, (left, top, right, bottom, zero, one), vertices),
    ensures
        vertices@.subrange(0, 4) == seq![left, top, zero, zero],
        vertices@.subrange(4, 8) == seq![right, top, one, zero],
        vertices@.subrange(8, 12) == seq![right, bottom, one, one],
        vertices@.subrange(12, 16) == vertices@.subrange(0, 4),
        vertices@.subrange(16, 20) == vertices@.subrange(8, 12),
        vertices@.subrange(20, 24) == seq![left, bottom, zero, one],
{
    assert(vertices@.subrange(0, 4) =~= seq![left, top, zero, zero]);
    assert(vertices@.subrange(4, 8) =~= seq![right, top, one, zero]);
    assert(vertices@.subrange(8, 12) =~= seq![right, bottom, one, one]);
    assert(vertices@.subrange(12, 16) =~= vertices@.subrange(0, 4));
    assert(vertices@.subrange(16, 20) =~= vertices@.subrange(8, 12));
    assert(vertices@.subrange(20, 24) =~= seq![left, bottom, zero, one]);
}

/// Attributes find their numbers in every vertex: at the offset of the position lies an edge of
/// the picture each way, at that of the texture coordinate an edge of the texture each way, and
/// both are pairs. The two attributes have the first two slots.
pub proof fn law_attributes_find_their_numbers<T: Copy>(
    left: T,
    top: T,
    right: T,
    bottom: T,
    zero: T,
    one: T,
    vertices: [T; 24],
    attribute: Attribute,
    index: u32,
    components: u32,
    offset: u32,
    v: int,
)
    requires
        call_ensures(quad_vertices::<T>, (left, top, right, bottom, zero, one), vertices),
        call_ensures(Attribute::index, (attribute,), index),
        call_ensures(Attribute::components, (attribute,), components),
        call_ensures(Attribute::offset, (attribute,), offset),
        0 <= v < 6,
    ensures
        components == 2,
        attribute == Attribute::Position <==> index == 0,
        attribute == Attribute::TexCoord <==> index == 1,
        offset % 4 == 0,
        offset + components * 4 <= 16,
        attribute == Attribute::Position ==> {
            let x = vertices@[4 * v + offset / 4];
            let y = vertices@[4 * v + offset / 4 + 1];
            (x == left || x == right) && (y == top || y == bottom)
        },
        attribute == Attribute::TexCoord ==> {
            let s = vertices@[4 * v + offset / 4];
            let t = vertices@[4 * v + offset / 4 + 1];
            (s == zero || s == one) && (t == zero || t == one)
        },
        attribute == Attribute::Position <==> offset == 0,
        attribute == Attribute::TexCoord <==> offset == 8,
{
}

} // verus!
