//! How a shader program is built: two shaders are compiled, then linked.

use crate::config::{shader_source, RenderBackend, Stage};
use crate::pipeline::Attribute;
use crate::text::{c_log_to_string, joined, log_text};
use vstd::prelude::*;

verus! {

/// Why a program could not be built, with the driver's log.
#[derive(Debug, PartialEq, Eq)]
pub enum BuildError {
    /// A shader did not compile.
    Compile(String),
    /// The program did not link.
    Link(String),
}

impl BuildError {
    /// The message of this error.
    pub open spec fn text(self) -> Seq<char> {
        match self {
            BuildError::Compile(log) => "OpenGL shader compile failed: "@ + log@,
            BuildError::Link(log) => "OpenGL program link failed: "@ + log@,
        }
    }

    /// The message to show for this error.
    pub fn message(&self) -> (message: String)
        ensures
            message@ == self.text(),
    {
        match self {
            BuildError::Compile(log) => joined("OpenGL shader compile failed: ", log.as_str()),
            BuildError::Link(log) => joined("OpenGL program link failed: ", log.as_str()),
        }
    }
}

/// A shader that is to be compiled next, and the vertex shader if it has been compiled.
#[derive(Clone, Copy, Debug, PartialEq, Eq, Structural)]
pub struct CompileRequest {
    pub backend: RenderBackend,
    pub vertex: Option<u32>,
}

/// Two compiled shaders to be linked.
#[derive(Clone, Copy, Debug, PartialEq, Eq, Structural)]
pub struct LinkRequest {
    pub vertex: u32,
    pub fragment: u32,
}

/// A shader that did not compile.
#[derive(Clone, Copy, Debug, PartialEq, Eq, Structural)]
pub struct RejectedShader {
    pub shader: u32,
}

/// A program that did not link.
#[derive(Clone, Copy, Debug, PartialEq, Eq, Structural)]
pub struct RejectedProgram {
    pub program: u32,
}

/// What follows the attempt to compile a shader.
#[derive(Clone, Copy, Debug, PartialEq, Eq, Structural)]
pub enum Compiled {
    /// The next shader is to be compiled.
    Next(CompileRequest),
    /// Both shaders are to be linked.
    Link(LinkRequest),
    /// The build fails.
    Rejected(RejectedShader),
}

/// A step that follows the attempts to compile.
#[derive(Clone, Copy, Debug, PartialEq, Eq, Structural)]
pub enum BuildCommand {
    /// Make the program.
    MakeProgram,
    /// Add this shader to the program.
    AttachShader { shader: u32 },
    /// Give an attribute its slot, under its name.
    BindAttribute { attribute: Attribute },
    /// Link the program.
    LinkProgram,
    /// Delete this shader.
    DeleteShader { shader: u32 },
    /// Read whether the program linked.
    ReadLinkStatus,
    /// Read the log of this shader.
    ReadShaderLog { shader: u32 },
    /// Read the log of this program.
    ReadProgramLog { program: u32 },
    /// Delete this program.
    DeleteProgram { program: u32 },
}

/// The steps that link two shaders: both are attached and both attributes bound before the
/// link, and both shaders are deleted after it, before its status is known.
pub open spec fn link_steps(request: LinkRequest) -> Seq<BuildCommand> {
    seq![
        BuildCommand::MakeProgram,
        BuildCommand::AttachShader { shader: request.vertex },
        BuildCommand::AttachShader { shader: request.fragment },
        BuildCommand::BindAttribute { attribute: Attribute::Position },
        BuildCommand::BindAttribute { attribute: Attribute::TexCoord },
        BuildCommand::LinkProgram,
        BuildCommand::DeleteShader { shader: request.vertex },
        BuildCommand::DeleteShader { shader: request.fragment },
        BuildCommand::ReadLinkStatus,
    ]
}

/// The steps that follow a shader that did not compile.
pub open spec fn rejected_shader_steps(rejected: RejectedShader) -> Seq<BuildCommand> {
    seq![
        BuildCommand::ReadShaderLog { shader: rejected.shader },
        BuildCommand::DeleteShader { shader: rejected.shader },
    ]
}

/// The steps that follow a program that did not link.
pub open spec fn rejected_program_steps(rejected: RejectedProgram) -> Seq<BuildCommand> {
    seq![
        BuildCommand::ReadProgramLog { program: rejected.program },
        BuildCommand::DeleteProgram { program: rejected.program },
    ]
}

/// The steps that link two shaders.
pub fn link_commands(request: LinkRequest) -> (commands: Vec<BuildCommand>)
    ensures
        commands@ == link_steps(request),
{
    let mut commands: Vec<BuildCommand> = Vec::new();
    commands.push(BuildCommand::MakeProgram);
    commands.push(BuildCommand::AttachShader { shader: request.vertex });
    commands.push(BuildCommand::AttachShader { shader: request.fragment });
    commands.push(BuildCommand::BindAttribute { attribute: Attribute::Position });
    commands.push(BuildCommand::BindAttribute { attribute: Attribute::TexCoord });
    commands.push(BuildCommand::LinkProgram);
    commands.push(BuildCommand::DeleteShader { shader: request.vertex });
    commands.push(BuildCommand::DeleteShader { shader: request.fragment });
    commands.push(BuildCommand::ReadLinkStatus);
    assert(commands@ =~= link_steps(request));
    commands
}

/// Starts to build the program of a backend, with its vertex shader.
pub fn create_program(backend: RenderBackend) -> (request: CompileRequest)
    ensures
        request == CompileRequest::first(backend),
{
    CompileRequest { backend, vertex: None }
}

impl CompileRequest {
    /// The request that a build starts with.
    pub open spec fn first(backend: RenderBackend) -> CompileRequest {
        CompileRequest { backend, vertex: None }
    }

    /// The stage of the shader to compile.
    pub open spec fn spec_stage(self) -> Stage {
        match self.vertex {
            None => Stage::Vertex,
            Some(_) => Stage::Fragment,
        }
    }

    /// What follows once `shader` has been compiled with the given status, zero for a
    /// failure.
    pub open spec fn after(self, shader: u32, status: i32) -> Compiled {
        if status == 0 {
            Compiled::Rejected(RejectedShader { shader })
        } else {
            match self.vertex {
                None => Compiled::Next(
                    CompileRequest { backend: self.backend, vertex: Some(shader) },
                ),
                Some(vertex) => Compiled::Link(LinkRequest { vertex, fragment: shader }),
            }
        }
    }

    /// The stage of the shader to compile.
    pub fn stage(&self) -> (stage: Stage)
        ensures
            stage == self.spec_stage(),
    {
        match self.vertex {
            None => Stage::Vertex,
            Some(_) => Stage::Fragment,
        }
    }

    /// The source of the shader to compile.
    pub fn source(&self) -> (source: &'static str)
        ensures
            source@ == shader_source(self.backend, self.spec_stage()),
    {
        let (vertex, fragment) = self.backend.shaders();
        match self.vertex {
            None => vertex,
            Some(_) => fragment,
        }
    }

    /// Takes in that `shader` has been compiled with the given status, zero for a failure.
    pub fn compiled(self, shader: u32, status: i32) -> (next: Compiled)
        ensures
            next == self.after(shader, status),
    {
        if status == 0 {
            return Compiled::Rejected(RejectedShader { shader });
        }
        match self.vertex {
            None => Compiled::Next(
                CompileRequest { backend: self.backend, vertex: Some(shader) },
            ),
            Some(vertex) => Compiled::Link(LinkRequest { vertex, fragment: shader }),
        }
    }
}

impl RejectedShader {
    /// The steps that follow.
    pub fn commands(self) -> (commands: Vec<BuildCommand>)
        ensures
            commands@ == rejected_shader_steps(self),
    {
        let mut commands: Vec<BuildCommand> = Vec::new();
        commands.push(BuildCommand::ReadShaderLog { shader: self.shader });
        commands.push(BuildCommand::DeleteShader { shader: self.shader });
        assert(commands@ =~= rejected_shader_steps(self));
        commands
    }

    /// The error that a buffer with the shader's log makes.
    pub fn error(self, log: &[u8]) -> (error: BuildError)
        ensures
            error matches BuildError::Compile(message) && message@ == log_text(log@),
            error.text() == "OpenGL shader compile failed: "@ + log_text(log@),
    {
        BuildError::Compile(c_log_to_string(log))
    }
}

impl LinkRequest {
    /// The program that is ready, or that did not link: `status` is zero for a failure.
    pub open spec fn after(self, program: u32, status: i32) -> Result<u32, RejectedProgram> {
        if status == 0 {
            Err(RejectedProgram { program })
        } else {
            Ok(program)
        }
    }

    /// The program that is ready, or that did not link: `status` is zero for a failure.
    pub fn linked(self, program: u32, status: i32) -> (result: Result<u32, RejectedProgram>)
        ensures
            result == self.after(program, status),
    {
        if status == 0 {
            Err(RejectedProgram { program })
        } else {
            Ok(program)
        }
    }
}

impl RejectedProgram {
    /// The steps that follow.
    pub fn commands(self) -> (commands: Vec<BuildCommand>)
        ensures
            commands@ == rejected_program_steps(self),
    {
        let mut commands: Vec<BuildCommand> = Vec::new();
        commands.push(BuildCommand::ReadProgramLog { program: self.program });
        commands.push(BuildCommand::DeleteProgram { program: self.program });
        assert(commands@ =~= rejected_program_steps(self));
        commands
    }

    /// The error that a buffer with the program's log makes.
    pub fn error(self, log: &[u8]) -> (error: BuildError)
        ensures
            error matches BuildError::Link(message) && message@ == log_text(log@),
            error.text() == "OpenGL program link failed: "@ + log_text(log@),
    {
        BuildError::Link(c_log_to_string(log))
    }
}

/// A build compiles the backend's vertex shader, then its fragment shader, and links exactly
/// these two. It links only if both compiled; whichever did not is the one rejected.
pub proof fn law_both_shaders_compile_before_linking(
    backend: RenderBackend,
    vertex: u32,
    vertex_status: i32,
    fragment: u32,
    fragment_status: i32,
)
    ensures
        ({
            let first = CompileRequest::first(backend);
            &&& first.spec_stage() == Stage::Vertex
            &&& match first.after(vertex, vertex_status) {
                Compiled::Next(second) => {
                    &&& vertex_status != 0
                    &&& second.backend == backend
                    &&& second.spec_stage() == Stage::Fragment
                    &&& second.after(fragment, fragment_status) == if fragment_status == 0 {
                        Compiled::Rejected(RejectedShader { shader: fragment })
                    } else {
                        Compiled::Link(LinkRequest { vertex, fragment })
                    }
                },
                Compiled::Link(_) => false,
                Compiled::Rejected(rejected) => vertex_status == 0 && rejected.shader == vertex,
            }
        }),
{
}

/// What the driver answers in the course of a build: the shaders and the program that it
/// makes, and the statuses, zero for a failure.
pub struct BuildAnswers {
    pub vertex: u32,
    pub vertex_status: i32,
    pub fragment: u32,
    pub fragment_status: i32,
    pub program: u32,
    pub link_status: i32,
}

/// Every step of a build after its attempts to compile, for given answers.
pub open spec fn build_steps(backend: RenderBackend, answers: BuildAnswers) -> Seq<BuildCommand> {
    match CompileRequest::first(backend).after(answers.vertex, answers.vertex_status) {
        Compiled::Rejected(rejected) => rejected_shader_steps(rejected),
        Compiled::Link(request) => link_steps(request),
        Compiled::Next(second) => match second.after(answers.fragment, answers.fragment_status) {
            Compiled::Rejected(rejected) => rejected_shader_steps(rejected),
            Compiled::Next(_) => Seq::empty(),
            Compiled::Link(request) => match request.after(answers.program, answers.link_status) {
                Ok(_) => link_steps(request),
                Err(rejected) => link_steps(request) + rejected_program_steps(rejected),
            },
        },
    }
}

/// How often `command` stands in `commands`.
pub open spec fn times(commands: Seq<BuildCommand>, command: BuildCommand) -> nat
    decreases commands.len(),
{
    if commands.len() == 0 {
        0
    } else {
        times(commands.drop_last(), command) + if commands.last() == command {
            1nat
        } else {
            0nat
        }
    }
}

proof fn lemma_times_concat(a: Seq<BuildCommand>, b: Seq<BuildCommand>, command: BuildCommand)
    ensures
        times(a + b, command) == times(a, command) + times(b, command),
    decreases b.len(),
{
    if b.len() == 0 {
        assert(a + b =~= a);
    } else {
        assert((a + b).drop_last() =~= a + b.drop_last());
        lemma_times_concat(a, b.drop_last(), command);
    }
}

proof fn lemma_times_pair(first: BuildCommand, second: BuildCommand, command: BuildCommand)
    ensures
        times(seq![first, second], command) == (if first == command {
            1nat
        } else {
            0nat
        }) + (if second == command {
            1nat
        } else {
            0nat
        }),
{
    let both = seq![first, second];
    assert(both.drop_last() =~= seq![first]);
    assert(seq![first].drop_last() =~= Seq::empty());
    assert(times(Seq::empty(), command) == 0);
    assert(times(seq![first], command) == if first == command {
        1nat
    } else {
        0nat
    });
}

proof fn lemma_times_in_a_link(request: LinkRequest, shader: u32, program: u32)
    ensures
        times(link_steps(request), BuildCommand::DeleteShader { shader }) == (if shader
            == request.vertex {
            1nat
        } else {
            0nat
        }) + (if shader == request.fragment {
            1nat
        } else {
            0nat
        }),
        times(link_steps(request), BuildCommand::DeleteProgram { program }) == 0,
        times(link_steps(request), BuildCommand::BindAttribute { attribute: Attribute::Position })
            == 1,
        times(link_steps(request), BuildCommand::BindAttribute { attribute: Attribute::TexCoord })
            == 1,
{
    let steps = link_steps(request);
    reveal_with_fuel(times, 10);
    assert(steps.drop_last().len() == 8);
}

/// Each shader that a build makes is deleted once, whether the program links or not, and a
/// program is deleted once if it did not link and not at all otherwise. The one shader that
/// is kept is the vertex shader of a build whose fragment shader does not compile.
pub proof fn law_shaders_are_deleted_once(
    backend: RenderBackend,
    answers: BuildAnswers,
    shader: u32,
    program: u32,
)
    ensures
        ({
            let vertex_compiled = answers.vertex_status != 0;
            let both_compiled = vertex_compiled && answers.fragment_status != 0;
            let steps = build_steps(backend, answers);
            &&& times(steps, BuildCommand::DeleteShader { shader }) == (if shader
                == answers.vertex && (both_compiled || !vertex_compiled) {
                1nat
            } else {
                0nat
            }) + (if shader == answers.fragment && vertex_compiled {
                1nat
            } else {
                0nat
            })
            &&& times(steps, BuildCommand::DeleteProgram { program }) == (if program
                == answers.program && both_compiled && answers.link_status == 0 {
                1nat
            } else {
                0nat
            })
        }),
{
    let deletes_shader = BuildCommand::DeleteShader { shader };
    let deletes_program = BuildCommand::DeleteProgram { program };
    lemma_times_pair(
        BuildCommand::ReadShaderLog { shader: answers.vertex },
        BuildCommand::DeleteShader { shader: answers.vertex },
        deletes_shader,
    );
    lemma_times_pair(
        BuildCommand::ReadShaderLog { shader: answers.vertex },
        BuildCommand::DeleteShader { shader: answers.vertex },
        deletes_program,
    );
    lemma_times_pair(
        BuildCommand::ReadShaderLog { shader: answers.fragment },
        BuildCommand::DeleteShader { shader: answers.fragment },
        deletes_shader,
    );
    lemma_times_pair(
        BuildCommand::ReadShaderLog { shader: answers.fragment },
        BuildCommand::DeleteShader { shader: answers.fragment },
        deletes_program,
    );
    lemma_times_pair(
        BuildCommand::ReadProgramLog { program: answers.program },
        BuildCommand::DeleteProgram { program: answers.program },
        deletes_shader,
    );
    lemma_times_pair(
        BuildCommand::ReadProgramLog { program: answers.program },
        BuildCommand::DeleteProgram { program: answers.program },
        deletes_program,
    );
    let request = LinkRequest { vertex: answers.vertex, fragment: answers.fragment };
    let rejected = RejectedProgram { program: answers.program };
    lemma_times_in_a_link(request, shader, program);
    lemma_times_concat(link_steps(request), rejected_program_steps(rejected), deletes_shader);
    lemma_times_concat(link_steps(request), rejected_program_steps(rejected), deletes_program);
}

/// Before a program is linked both of its shaders are attached and every attribute is bound,
/// each once; the shaders are deleted only after that.
pub proof fn law_links_are_prepared(request: LinkRequest, attribute: Attribute, shader: u32)
    ensures
        ({
            let steps = link_steps(request);
            let link = steps.index_of(BuildCommand::LinkProgram);
            let before = steps.take(link);
            &&& steps.contains(BuildCommand::LinkProgram)
            &&& before.contains(BuildCommand::AttachShader { shader: request.vertex })
            &&& before.contains(BuildCommand::AttachShader { shader: request.fragment })
            &&& before.contains(BuildCommand::BindAttribute { attribute })
            &&& times(steps, BuildCommand::BindAttribute { attribute }) == 1
            &&& !before.contains(BuildCommand::DeleteShader { shader })
        }),
{
    let steps = link_steps(request);
    let link = steps.index_of(BuildCommand::LinkProgram);
    assert(steps[5] == BuildCommand::LinkProgram);
    assert(steps.contains(BuildCommand::LinkProgram));
    assert(link == 5) by {
        assert(0 <= link < steps.len() && steps[link] == BuildCommand::LinkProgram);
    }
    let before = steps.take(5);
    assert(before[1] == BuildCommand::AttachShader { shader: request.vertex });
    assert(before[2] == BuildCommand::AttachShader { shader: request.fragment });
    assert(before[3] == BuildCommand::BindAttribute { attribute: Attribute::Position });
    assert(before[4] == BuildCommand::BindAttribute { attribute: Attribute::TexCoord });
    assert forall|i: int| 0 <= i < before.len() implies before[i] != (
    BuildCommand::DeleteShader { shader }) by {}
    lemma_times_in_a_link(request, shader, 0);
    match attribute {
        Attribute::Position => {},
        Attribute::TexCoord => {},
    }
}

/// Whether `later` can only be done after `earlier`: a program is made first, linked with what
/// was attached and bound before, and asked for its status afterwards; shaders are kept until
/// then.
pub open spec fn linking_needs(later: BuildCommand, earlier: BuildCommand) -> bool {
    match earlier {
        BuildCommand::MakeProgram => later != BuildCommand::MakeProgram,
        BuildCommand::AttachShader { .. } | BuildCommand::BindAttribute { .. } => later
            == BuildCommand::LinkProgram,
        BuildCommand::LinkProgram => later is DeleteShader || later
            == BuildCommand::ReadLinkStatus,
        _ => false,
    }
}

/// Linking attaches both shaders, binds every attribute, links, deletes both shaders and asks
/// for the status, each once and in an order in which that can be done, and does nothing else.
pub proof fn law_links_are_whole(
    request: LinkRequest,
    commands: Vec<BuildCommand>,
    step: BuildCommand,
    shader: u32,
    i: int,
    j: int,
)
    requires
        call_ensures(link_commands, (request,), commands),
    ensures
        commands@.contains(step) <==> match step {
            BuildCommand::AttachShader { shader } | BuildCommand::DeleteShader { shader } => shader
                == request.vertex || shader == request.fragment,
            BuildCommand::MakeProgram
            | BuildCommand::BindAttribute { .. }
            | BuildCommand::LinkProgram
            | BuildCommand::ReadLinkStatus => true,
            _ => false,
        },
        commands@.len() == 9,
        times(commands@, BuildCommand::AttachShader { shader }) == times(
            commands@,
            BuildCommand::DeleteShader { shader },
        ),
        request.vertex != request.fragment ==> commands@.no_duplicates(),
        0 <= i < 9 && 0 <= j < 9 && linking_needs(commands@[j], commands@[i]) ==> i < j,
{
    let steps = link_steps(request);
    assert(steps[0] == BuildCommand::MakeProgram);
    assert(steps[1] == BuildCommand::AttachShader { shader: request.vertex });
    assert(steps[2] == BuildCommand::AttachShader { shader: request.fragment });
    assert(steps[3] == BuildCommand::BindAttribute { attribute: Attribute::Position });
    assert(steps[4] == BuildCommand::BindAttribute { attribute: Attribute::TexCoord });
    assert(steps[5] == BuildCommand::LinkProgram);
    assert(steps[6] == BuildCommand::DeleteShader { shader: request.vertex });
    assert(steps[7] == BuildCommand::DeleteShader { shader: request.fragment });
    assert(steps[8] == BuildCommand::ReadLinkStatus);
    reveal_with_fuel(times, 10);
    assert(steps.drop_last().len() == 8);
}

/// What was rejected has its own log read, then is deleted, and nothing else is done.
pub proof fn law_logs_are_read_before_deletion(
    shader: u32,
    program: u32,
    shader_commands: Vec<BuildCommand>,
    program_commands: Vec<BuildCommand>,
)
    requires
        call_ensures(RejectedShader::commands, (RejectedShader { shader },), shader_commands),
        call_ensures(RejectedProgram::commands, (RejectedProgram { program },), program_commands),
    ensures
        shader_commands@.len() == 2,
        shader_commands@[0] == (BuildCommand::ReadShaderLog { shader }),
        shader_commands@[1] == (BuildCommand::DeleteShader { shader }),
        program_commands@.len() == 2,
        program_commands@[0] == (BuildCommand::ReadProgramLog { program }),
        program_commands@[1] == (BuildCommand::DeleteProgram { program }),
{
}

/// Every attempt to compile: with the status zero, and no other, the shader is rejected; after
/// the vertex shader comes the fragment shader of the same backend, and after that the link of
/// just the two.
pub proof fn law_compiled_shaders_are_linked(
    request: CompileRequest,
    shader: u32,
    status: i32,
    next: Compiled,
)
    requires
        call_ensures(CompileRequest::compiled, (request, shader, status), next),
    ensures
        status == 0 <==> next is Rejected,
        next matches Compiled::Rejected(rejected) ==> rejected.shader == shader,
        status != 0 && request.vertex is None <==> next is Next,
        next matches Compiled::Next(second) ==> second.backend == request.backend
            && second.vertex == Some(shader),
        status != 0 && request.vertex is Some <==> next is Link,
        next matches Compiled::Link(link) ==> request.vertex == Some(link.vertex)
            && link.fragment == shader,
{
}

/// A build starts with the vertex shader, and compiles for each stage the source that the
/// backend has for it.
pub proof fn law_stages_have_their_sources(
    backend: RenderBackend,
    start: CompileRequest,
    request: CompileRequest,
    stage: Stage,
    source: &'static str,
    sources: (&'static str, &'static str),
)
    requires
        call_ensures(create_program, (backend,), start),
        call_ensures(CompileRequest::stage, (&request,), stage),
        call_ensures(CompileRequest::source, (&request,), source),
        call_ensures(RenderBackend::shaders, (request.backend,), sources),
    ensures
        start.backend == backend,
        start.vertex is None,
        request.vertex is None <==> stage == Stage::Vertex,
        stage == Stage::Vertex ==> source@ == sources.0@,
        stage == Stage::Fragment ==> source@ == sources.1@,
{
}

/// A program is ready unless its status is zero, under its own number either way.
pub proof fn law_linked_programs_are_ready(
    request: LinkRequest,
    program: u32,
    status: i32,
    result: Result<u32, RejectedProgram>,
)
    requires
        call_ensures(LinkRequest::linked, (request, program, status), result),
    ensures
        result is Ok <==> status != 0,
        result matches Ok(ready) ==> ready == program,
        result matches Err(rejected) ==> rejected.program == program,
{
}

/// The message of a failed build says which part failed, and ends with the driver's log.
pub proof fn law_failed_builds_quote_the_log(
    shader: RejectedShader,
    program: RejectedProgram,
    log: &[u8],
    text: String,
    compile: BuildError,
    link: BuildError,
    compile_message: String,
    link_message: String,
)
    requires
        call_ensures(c_log_to_string, (log,), text),
        call_ensures(RejectedShader::error, (shader, log), compile),
        call_ensures(RejectedProgram::error, (program, log), link),
        call_ensures(BuildError::message, (&compile,), compile_message),
        call_ensures(BuildError::message, (&link,), link_message),
    ensures
        compile_message@ == "OpenGL shader compile failed: "@ + text@,
        link_message@ == "OpenGL program link failed: "@ + text@,
{
}

} // verus!
