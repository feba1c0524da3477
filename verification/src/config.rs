//! The command line and the ways of rendering that it selects from.

use crate::declarations::{
    attribute_declaration, is_c_text, law_shaders_declare_what_is_looked_up, occurs,
    uniform_declaration, uniform_stage,
};
use crate::pipeline::{Attribute, Uniform};
use crate::shaders::{
    GL20_FRAGMENT_SHADER, GL20_VERTEX_SHADER, GL33_FRAGMENT_SHADER, GL33_VERTEX_SHADER,
    GLES2_FRAGMENT_SHADER, GLES2_VERTEX_SHADER,
};
use crate::text::{joined, same_text};
use vstd::prelude::*;

verus! {

/// A way of rendering.
#[derive(Clone, Copy, Debug, PartialEq, Eq, Structural)]
pub enum RenderBackend {
    Gles2,
    Gl33,
    Gl20,
}

/// The kind of OpenGL context.
#[derive(Clone, Copy, Debug, PartialEq, Eq, Structural)]
pub enum GlProfile {
    Gles,
    Core,
    Compatibility,
}

/// The OpenGL context that a backend needs.
#[derive(Clone, Copy, Debug, PartialEq, Eq, Structural)]
pub struct ContextSettings {
    pub profile: GlProfile,
    pub major: u8,
    pub minor: u8,
}

/// The stage of the pipeline that a shader is for.
#[derive(Clone, Copy, Debug, PartialEq, Eq, Structural)]
pub enum Stage {
    Vertex,
    Fragment,
}

/// The source of a backend's shader.
pub open spec fn shader_source(backend: RenderBackend, stage: Stage) -> Seq<char> {
    match (backend, stage) {
        (RenderBackend::Gles2, Stage::Vertex) => GLES2_VERTEX_SHADER@,
        (RenderBackend::Gles2, Stage::Fragment) => GLES2_FRAGMENT_SHADER@,
        (RenderBackend::Gl33, Stage::Vertex) => GL33_VERTEX_SHADER@,
        (RenderBackend::Gl33, Stage::Fragment) => GL33_FRAGMENT_SHADER@,
        (RenderBackend::Gl20, Stage::Vertex) => GL20_VERTEX_SHADER@,
        (RenderBackend::Gl20, Stage::Fragment) => GL20_FRAGMENT_SHADER@,
    }
}

impl Default for RenderBackend {
    fn default() -> (backend: Self)
        ensures
            backend == RenderBackend::Gl33,
    {
        RenderBackend::Gl33
    }
}

/// Why the command line was not accepted.
#[derive(Debug, PartialEq, Eq)]
pub enum ConfigError {
    /// The user asked for help.
    Usage,
    /// `--backend` was the last argument.
    MissingBackend,
    /// An argument that is not an option.
    UnknownArgument(String),
    /// A backend of this name does not exist.
    UnsupportedBackend(String),
}

/// What a configuration error says.
pub enum ConfigFault {
    Usage,
    MissingBackend,
    UnknownArgument(Seq<char>),
    UnsupportedBackend(Seq<char>),
}

impl View for ConfigError {
    type V = ConfigFault;

    open spec fn view(&self) -> ConfigFault {
        match self {
            ConfigError::Usage => ConfigFault::Usage,
            ConfigError::MissingBackend => ConfigFault::MissingBackend,
            ConfigError::UnknownArgument(argument) => ConfigFault::UnknownArgument(argument@),
            ConfigError::UnsupportedBackend(name) => ConfigFault::UnsupportedBackend(name@),
        }
    }
}

impl ConfigFault {
    /// The message of this fault.
    pub open spec fn text(self) -> Seq<char> {
        match self {
            ConfigFault::Usage => "usage: panium [--backend <gles2|gl33|gl20>]"@,
            ConfigFault::MissingBackend => "--backend requires one of: gles2, gl33, gl20"@,
            ConfigFault::UnknownArgument(argument) => "unknown argument: "@ + argument,
            ConfigFault::UnsupportedBackend(name) => "unsupported backend '"@ + name
                + "', expected gles2, gl33, or gl20"@,
        }
    }
}

impl ConfigError {
    /// The message to show for this error.
    pub fn message(&self) -> (message: String)
        ensures
            message@ == self@.text(),
    {
        match self {
            ConfigError::Usage => "usage: panium [--backend <gles2|gl33|gl20>]".to_owned(),
            ConfigError::MissingBackend =>
                "--backend requires one of: gles2, gl33, gl20".to_owned(),
            ConfigError::UnknownArgument(argument) => joined(
                "unknown argument: ",
                argument.as_str(),
            ),
            ConfigError::UnsupportedBackend(name) => joined(
                "unsupported backend '",
                name.as_str(),
            ).concat("', expected gles2, gl33, or gl20"),
        }
    }
}

impl RenderBackend {
    /// The backend with the given name.
    pub open spec fn named(name: Seq<char>) -> Option<RenderBackend> {
        if name == "gles2"@ {
            Some(RenderBackend::Gles2)
        } else if name == "gl33"@ {
            Some(RenderBackend::Gl33)
        } else if name == "gl20"@ {
            Some(RenderBackend::Gl20)
        } else {
            None
        }
    }

    /// The name that selects this backend.
    pub open spec fn name(self) -> Seq<char> {
        match self {
            RenderBackend::Gles2 => "gles2"@,
            RenderBackend::Gl33 => "gl33"@,
            RenderBackend::Gl20 => "gl20"@,
        }
    }

    /// The context that this backend needs.
    pub fn configure_gl(self) -> (settings: ContextSettings)
        ensures
            settings == match self {
                RenderBackend::Gles2 => (ContextSettings {
                    profile: GlProfile::Gles,
                    major: 2,
                    minor: 0,
                }),
                RenderBackend::Gl33 => (ContextSettings {
                    profile: GlProfile::Core,
                    major: 3,
                    minor: 3,
                }),
                RenderBackend::Gl20 => (ContextSettings {
                    profile: GlProfile::Compatibility,
                    major: 2,
                    minor: 0,
                }),
            },
    {
        match self {
            RenderBackend::Gles2 => {
                ContextSettings { profile: GlProfile::Gles, major: 2, minor: 0 }
            },
            RenderBackend::Gl33 => {
                ContextSettings { profile: GlProfile::Core, major: 3, minor: 3 }
            },
            RenderBackend::Gl20 => {
                ContextSettings { profile: GlProfile::Compatibility, major: 2, minor: 0 }
            },
        }
    }

    /// The sources of the vertex shader and the fragment shader. C strings can be made of
    /// both, and they declare what the pipeline looks up and binds.
    pub fn shaders(self) -> (sources: (&'static str, &'static str))
        ensures
            sources.0@ == shader_source(self, Stage::Vertex),
            sources.1@ == shader_source(self, Stage::Fragment),
            is_c_text(sources.0@),
            is_c_text(sources.1@),
            forall|attribute: Attribute|
                occurs(sources.0@, #[trigger] attribute_declaration(self, attribute)),
            forall|uniform: Uniform|
                occurs(
                    match uniform_stage(uniform) {
                        Stage::Vertex => sources.0@,
                        Stage::Fragment => sources.1@,
                    },
                    #[trigger] uniform_declaration(uniform),
                ),
    {
        proof {
            law_shaders_declare_what_is_looked_up(self);
            assert(is_c_text(shader_source(self, Stage::Vertex)));
            assert(is_c_text(shader_source(self, Stage::Fragment)));
        }
        match self {
            RenderBackend::Gles2 => (GLES2_VERTEX_SHADER, GLES2_FRAGMENT_SHADER),
            RenderBackend::Gl33 => (GL33_VERTEX_SHADER, GL33_FRAGMENT_SHADER),
            RenderBackend::Gl20 => (GL20_VERTEX_SHADER, GL20_FRAGMENT_SHADER),
        }
    }

    /// Whether vertex state is kept in a vertex array object.
    pub fn uses_vertex_arrays(self) -> (uses: bool)
        ensures
            uses == (self == RenderBackend::Gl33),
    {
        self == RenderBackend::Gl33
    }

    /// The backend with the given name.
    pub fn from_str(value: &str) -> (result: Result<RenderBackend, ConfigError>)
        ensures
            match result {
                Ok(backend) => RenderBackend::named(value@) == Some(backend),
                Err(error) => {
                    &&& RenderBackend::named(value@) is None
                    &&& error@ == ConfigFault::UnsupportedBackend(value@)
                },
            },
    {
        if same_text(value, "gles2") {
            Ok(RenderBackend::Gles2)
        } else if same_text(value, "gl33") {
            Ok(RenderBackend::Gl33)
        } else if same_text(value, "gl20") {
            Ok(RenderBackend::Gl20)
        } else {
            Err(ConfigError::UnsupportedBackend(value.to_owned()))
        }
    }
}

/// What the command line sets.
#[derive(Clone, Copy, Debug, PartialEq, Eq, Structural)]
pub struct Config {
    pub backend: RenderBackend,
}

/// Reads the arguments from left to right, starting with the setting `backend`: the first
/// argument that is not acceptable decides, and the last backend counts.
pub open spec fn parse_from(backend: RenderBackend, args: Seq<Seq<char>>) -> Result<
    RenderBackend,
    ConfigFault,
>
    decreases args.len(),
{
    if args.len() == 0 {
        Ok(backend)
    } else if args[0] == "--help"@ || args[0] == "-h"@ {
        Err(ConfigFault::Usage)
    } else if args[0] != "--backend"@ {
        Err(ConfigFault::UnknownArgument(args[0]))
    } else if args.len() == 1 {
        Err(ConfigFault::MissingBackend)
    } else {
        match RenderBackend::named(args[1]) {
            Some(selected) => parse_from(selected, args.skip(2)),
            None => Err(ConfigFault::UnsupportedBackend(args[1])),
        }
    }
}

/// Reads arguments one at a time, so that none is asked for after one that is refused.
#[derive(Clone, Copy, Debug, PartialEq, Eq, Structural)]
pub struct ArgumentReader {
    /// The backend selected so far.
    pub backend: RenderBackend,
    /// Whether the next argument is the name of a backend.
    pub awaiting_backend: bool,
}

impl ArgumentReader {
    /// What becomes of the arguments `args` that are still to come.
    pub open spec fn reads(self, args: Seq<Seq<char>>) -> Result<RenderBackend, ConfigFault> {
        if !self.awaiting_backend {
            parse_from(self.backend, args)
        } else if args.len() == 0 {
            Err(ConfigFault::MissingBackend)
        } else {
            match RenderBackend::named(args[0]) {
                Some(selected) => parse_from(selected, args.skip(1)),
                None => Err(ConfigFault::UnsupportedBackend(args[0])),
            }
        }
    }

    /// The reader after one more argument, or why it is refused.
    pub open spec fn after(self, arg: Seq<char>) -> Result<ArgumentReader, ConfigFault> {
        if self.awaiting_backend {
            match RenderBackend::named(arg) {
                Some(backend) => Ok(ArgumentReader { backend, awaiting_backend: false }),
                None => Err(ConfigFault::UnsupportedBackend(arg)),
            }
        } else if arg == "--help"@ || arg == "-h"@ {
            Err(ConfigFault::Usage)
        } else if arg == "--backend"@ {
            Ok(ArgumentReader { backend: self.backend, awaiting_backend: true })
        } else {
            Err(ConfigFault::UnknownArgument(arg))
        }
    }

    /// Starts to read, with the backend that is used unless one is selected.
    pub fn new() -> (reader: ArgumentReader)
        ensures
            reader == (ArgumentReader { backend: RenderBackend::Gl33, awaiting_backend: false }),
    {
        ArgumentReader { backend: RenderBackend::default(), awaiting_backend: false }
    }

    /// Reads one more argument.
    pub fn read(self, arg: &str) -> (result: Result<ArgumentReader, ConfigError>)
        ensures
            match result {
                Ok(reader) => self.after(arg@) == Ok::<ArgumentReader, ConfigFault>(reader),
                Err(error) => self.after(arg@) == Err::<ArgumentReader, ConfigFault>(error@),
            },
    {
        if self.awaiting_backend {
            return match RenderBackend::from_str(arg) {
                Ok(backend) => Ok(ArgumentReader { backend, awaiting_backend: false }),
                Err(error) => Err(error),
            };
        }
        if same_text(arg, "--help") || same_text(arg, "-h") {
            Err(ConfigError::Usage)
        } else if same_text(arg, "--backend") {
            Ok(ArgumentReader { backend: self.backend, awaiting_backend: true })
        } else {
            Err(ConfigError::UnknownArgument(arg.to_owned()))
        }
    }

    /// Ends the command line.
    pub fn finish(self) -> (result: Result<Config, ConfigError>)
        ensures
            match result {
                Ok(config) => self.reads(Seq::empty()) == Ok::<RenderBackend, ConfigFault>(
                    config.backend,
                ),
                Err(error) => self.reads(Seq::empty()) == Err::<RenderBackend, ConfigFault>(
                    error@,
                ),
            },
    {
        if self.awaiting_backend {
            Err(ConfigError::MissingBackend)
        } else {
            Ok(Config { backend: self.backend })
        }
    }
}

/// Reading one argument after the other comes to the same as reading them at once: the first
/// either is refused, whatever follows, or leaves a reader that reads the others.
pub proof fn law_arguments_can_be_read_one_by_one(reader: ArgumentReader, args: Seq<Seq<char>>)
    requires
        args.len() > 0,
    ensures
        reader.reads(args) == match reader.after(args[0]) {
            Ok(next) => next.reads(args.skip(1)),
            Err(fault) => Err::<RenderBackend, ConfigFault>(fault),
        },
{
    reveal_strlit("--backend");
    reveal_strlit("--help");
    reveal_strlit("-h");
    assert("--backend"@.len() != "--help"@.len());
    assert("--backend"@.len() != "-h"@.len());
    if !reader.awaiting_backend && args[0] == "--backend"@ && args.len() > 1 {
        assert(args.skip(1)[0] == args[1]);
        assert(args.skip(1).skip(1) =~= args.skip(2));
    }
}

impl Config {
    /// Reads the command line, without the program's name.
    pub fn parse(args: Vec<String>) -> (result: Result<Config, ConfigError>)
        ensures
            match result {
                Ok(config) => parse_from(RenderBackend::Gl33, args.deep_view()) == Ok::<
                    RenderBackend,
                    ConfigFault,
                >(config.backend),
                Err(error) => parse_from(RenderBackend::Gl33, args.deep_view()) == Err::<
                    RenderBackend,
                    ConfigFault,
                >(error@),
            },
    {
        let mut reader = ArgumentReader::new();
        let mut i: usize = 0;
        let ghost texts = args.deep_view();
        assert(texts.skip(0) =~= texts);
        while i < args.len()
            invariant
                i <= args@.len(),
                texts == args.deep_view(),
                texts.len() == args@.len(),
                parse_from(RenderBackend::Gl33, texts) == reader.reads(texts.skip(i as int)),
            decreases args@.len() - i,
        {
            proof {
                law_arguments_can_be_read_one_by_one(reader, texts.skip(i as int));
                assert(texts.skip(i as int)[0] == args@[i as int]@);
                assert(texts.skip(i as int).skip(1) =~= texts.skip(i + 1));
            }
            match reader.read(args[i].as_str()) {
                Ok(next) => {
                    reader = next;
                },
                Err(error) => return Err(error),
            }
            i += 1;
        }
        assert(texts.skip(i as int) =~= Seq::empty());
        reader.finish()
    }
}

impl core::str::FromStr for RenderBackend {
    type Err = ConfigError;

    fn from_str(value: &str) -> (result: Result<Self, ConfigError>)
        ensures
            match result {
                Ok(backend) => RenderBackend::named(value@) == Some(backend),
                Err(error) => {
                    &&& RenderBackend::named(value@) is None
                    &&& error@ == ConfigFault::UnsupportedBackend(value@)
                },
            },
    {
        RenderBackend::from_str(value)
    }
}

/// Each backend is selected by its own name, and by no other text.
pub proof fn law_names_select_backends(backend: RenderBackend, text: Seq<char>)
    ensures
        RenderBackend::named(backend.name()) == Some(backend),
        RenderBackend::named(text) == Some(backend) ==> text == backend.name(),
{
    reveal_strlit("gles2");
    reveal_strlit("gl33");
    reveal_strlit("gl20");
    assert("gl33"@[2] != "gl20"@[2]);
    assert("gles2"@.len() != "gl33"@.len());
    assert("gles2"@.len() != "gl20"@.len());
}

/// Arguments are read from left to right: what follows an accepted command line is read with
/// the backend that it selected, and nothing that follows a refused argument is looked at.
pub proof fn law_arguments_are_read_in_order(
    backend: RenderBackend,
    args: Seq<Seq<char>>,
    rest: Seq<Seq<char>>,
)
    ensures
        match parse_from(backend, args) {
            Ok(selected) => parse_from(backend, args + rest) == parse_from(selected, rest),
            Err(ConfigFault::MissingBackend) => true,
            Err(fault) => parse_from(backend, args + rest) == Err::<RenderBackend, ConfigFault>(
                fault,
            ),
        },
    decreases args.len(),
{
    let all = args + rest;
    if args.len() == 0 {
        assert(all =~= rest);
    } else {
        assert(all[0] == args[0]);
        if args.len() > 1 {
            assert(all[1] == args[1]);
            assert(all.skip(2) =~= args.skip(2) + rest);
            if let Some(selected) = RenderBackend::named(args[1]) {
                law_arguments_are_read_in_order(selected, args.skip(2), rest);
            }
        }
    }
}

/// The last `--backend` counts: after an accepted command line, one more selects the backend
/// whatever was selected before.
pub proof fn law_last_backend_counts(
    backend: RenderBackend,
    args: Seq<Seq<char>>,
    last: RenderBackend,
)
    requires
        parse_from(backend, args) is Ok,
    ensures
        parse_from(backend, args + seq!["--backend"@, last.name()]) == Ok::<
            RenderBackend,
            ConfigFault,
        >(last),
{
    let rest = seq!["--backend"@, last.name()];
    let selected = parse_from(backend, args)->Ok_0;
    law_arguments_are_read_in_order(backend, args, rest);
    law_names_select_backends(last, last.name());
    reveal_strlit("--backend");
    reveal_strlit("--help");
    reveal_strlit("-h");
    assert("--backend"@.len() != "--help"@.len());
    assert("--backend"@.len() != "-h"@.len());
    assert(rest.skip(2) =~= Seq::empty());
    assert(parse_from(last, rest.skip(2)) == Ok::<RenderBackend, ConfigFault>(last));
}

/// A request for help where an option may stand shows the usage, whatever follows.
pub proof fn law_help_shows_the_usage(
    backend: RenderBackend,
    args: Seq<Seq<char>>,
    help: Seq<char>,
    rest: Seq<Seq<char>>,
)
    requires
        parse_from(backend, args) is Ok,
        help == "--help"@ || help == "-h"@,
    ensures
        parse_from(backend, args + seq![help] + rest) == Err::<RenderBackend, ConfigFault>(
            ConfigFault::Usage,
        ),
{
    let tail = seq![help] + rest;
    law_arguments_are_read_in_order(backend, args, tail);
    assert(args + seq![help] + rest =~= args + tail);
    assert(tail[0] == help);
}

/// The text that selects each backend on the command line.
pub open spec fn backend_text(backend: RenderBackend) -> Seq<char> {
    match backend {
        RenderBackend::Gles2 => "gles2"@,
        RenderBackend::Gl33 => "gl33"@,
        RenderBackend::Gl20 => "gl20"@,
    }
}

/// The command line that makes one choice after the other.
pub open spec fn command_line(choices: Seq<RenderBackend>) -> Seq<Seq<char>>
    decreases choices.len(),
{
    if choices.len() == 0 {
        Seq::empty()
    } else {
        seq!["--backend"@, backend_text(choices[0])] + command_line(choices.skip(1))
    }
}

/// The backend after one choice after the other, if it was `backend` before.
pub open spec fn chosen(backend: RenderBackend, choices: Seq<RenderBackend>) -> RenderBackend {
    if choices.len() == 0 {
        backend
    } else {
        choices.last()
    }
}

/// Whether `text` selects a backend.
pub open spec fn selects_a_backend(text: Seq<char>) -> bool {
    text == "gles2"@ || text == "gl33"@ || text == "gl20"@
}

proof fn lemma_options_differ()
    ensures
        "--backend"@ != "--help"@,
        "--backend"@ != "-h"@,
        "gles2"@ != "gl33"@,
        "gles2"@ != "gl20"@,
        "gl33"@ != "gl20"@,
{
    reveal_strlit("--backend");
    reveal_strlit("--help");
    reveal_strlit("-h");
    reveal_strlit("gles2");
    reveal_strlit("gl33");
    reveal_strlit("gl20");
    assert("--backend"@.len() != "--help"@.len());
    assert("--backend"@.len() != "-h"@.len());
    assert("gl33"@[2] != "gl20"@[2]);
    assert("gles2"@.len() != "gl33"@.len());
    assert("gles2"@.len() != "gl20"@.len());
}

proof fn lemma_choices_are_read(
    backend: RenderBackend,
    choices: Seq<RenderBackend>,
    tail: Seq<Seq<char>>,
)
    ensures
        parse_from(backend, command_line(choices) + tail) == parse_from(
            chosen(backend, choices),
            tail,
        ),
    decreases choices.len(),
{
    let args = command_line(choices) + tail;
    if choices.len() == 0 {
        assert(args =~= tail);
    } else {
        lemma_options_differ();
        let rest = choices.skip(1);
        assert(args[0] == "--backend"@);
        assert(args[1] == backend_text(choices[0]));
        assert(args.skip(2) =~= command_line(rest) + tail);
        lemma_choices_are_read(choices[0], rest, tail);
        assert(chosen(choices[0], rest) == chosen(backend, choices));
    }
}

/// What becomes of every command line: choices may come first, as many as there are, and the
/// last of them counts, or the core profile's backend if there is none. What follows them
/// decides if it is anything but one more choice: a request for help shows the usage, an
/// option without a value or with the wrong one is refused, and so is any other argument,
/// under its own words and whatever comes after it.
pub proof fn law_command_lines_are_choices(
    args: Vec<String>,
    choices: Seq<RenderBackend>,
    tail: Seq<Seq<char>>,
    result: Result<Config, ConfigError>,
)
    requires
        call_ensures(Config::parse, (args,), result),
        args.deep_view() == command_line(choices) + tail,
    ensures
        tail.len() == 0 ==> (result matches Ok(config) && config.backend == (if choices.len()
            == 0 {
            RenderBackend::Gl33
        } else {
            choices.last()
        })),
        tail.len() > 0 && (tail[0] == "--help"@ || tail[0] == "-h"@) ==> (result matches Err(error)
            && error is Usage),
        tail.len() == 1 && tail[0] == "--backend"@ ==> (result matches Err(error)
            && error is MissingBackend),
        tail.len() > 1 && tail[0] == "--backend"@ && !selects_a_backend(tail[1]) ==> (
        result matches Err(error) && error@ == ConfigFault::UnsupportedBackend(tail[1])),
        tail.len() > 0 && tail[0] != "--help"@ && tail[0] != "-h"@ && tail[0] != "--backend"@ ==> (
        result matches Err(error) && error@ == ConfigFault::UnknownArgument(tail[0])),
{
    lemma_options_differ();
    lemma_choices_are_read(RenderBackend::Gl33, choices, tail);
}

/// A single argument: an option is remembered until its value comes, the value takes effect
/// at once, and anything else is refused under its own words.
pub proof fn law_arguments_are_options_or_values(
    reader: ArgumentReader,
    arg: &str,
    result: Result<ArgumentReader, ConfigError>,
)
    requires
        call_ensures(ArgumentReader::read, (reader, arg), result),
    ensures
        reader.awaiting_backend && arg@ == "gles2"@ ==> result == Ok::<_, ConfigError>(
            ArgumentReader { backend: RenderBackend::Gles2, awaiting_backend: false },
        ),
        reader.awaiting_backend && arg@ == "gl33"@ ==> result == Ok::<_, ConfigError>(
            ArgumentReader { backend: RenderBackend::Gl33, awaiting_backend: false },
        ),
        reader.awaiting_backend && arg@ == "gl20"@ ==> result == Ok::<_, ConfigError>(
            ArgumentReader { backend: RenderBackend::Gl20, awaiting_backend: false },
        ),
        reader.awaiting_backend && !selects_a_backend(arg@) ==> (result matches Err(error)
            && error@ == ConfigFault::UnsupportedBackend(arg@)),
        !reader.awaiting_backend && arg@ == "--backend"@ ==> result == Ok::<_, ConfigError>(
            ArgumentReader { backend: reader.backend, awaiting_backend: true },
        ),
        !reader.awaiting_backend && (arg@ == "--help"@ || arg@ == "-h"@) ==> (
        result matches Err(error) && error is Usage),
        !reader.awaiting_backend && arg@ != "--backend"@ && arg@ != "--help"@ && arg@ != "-h"@
            ==> (result matches Err(error) && error@ == ConfigFault::UnknownArgument(arg@)),
{
    lemma_options_differ();
}

/// A command line may end wherever no value is awaited, and selects what was chosen last; to
/// begin with that is the core profile's backend, which is also the default.
pub proof fn law_command_lines_end_with_a_choice(
    reader: ArgumentReader,
    result: Result<Config, ConfigError>,
    start: ArgumentReader,
    default: RenderBackend,
)
    requires
        call_ensures(ArgumentReader::finish, (reader,), result),
        call_ensures(ArgumentReader::new, (), start),
        call_ensures(RenderBackend::default, (), default),
    ensures
        !reader.awaiting_backend ==> (result matches Ok(config) && config.backend
            == reader.backend),
        reader.awaiting_backend ==> (result matches Err(error) && error is MissingBackend),
        !start.awaiting_backend,
        start.backend == RenderBackend::Gl33,
        default == start.backend,
{
}

/// Three texts select a backend, each its own, and every other text is refused by name.
pub proof fn law_three_texts_select_a_backend(
    value: &str,
    result: Result<RenderBackend, ConfigError>,
)
    requires
        call_ensures(RenderBackend::from_str, (value,), result),
    ensures
        value@ == "gles2"@ ==> result == Ok::<_, ConfigError>(RenderBackend::Gles2),
        value@ == "gl33"@ ==> result == Ok::<_, ConfigError>(RenderBackend::Gl33),
        value@ == "gl20"@ ==> result == Ok::<_, ConfigError>(RenderBackend::Gl20),
        !selects_a_backend(value@) ==> (result matches Err(error) && error@
            == ConfigFault::UnsupportedBackend(value@)),
{
    lemma_options_differ();
}

/// Messages quote what was refused.
pub proof fn law_messages_quote_what_was_refused(error: ConfigError, message: String)
    requires
        call_ensures(ConfigError::message, (&error,), message),
    ensures
        error is Usage ==> message@ == "usage: panium [--backend <gles2|gl33|gl20>]"@,
        error is MissingBackend ==> message@ == "--backend requires one of: gles2, gl33, gl20"@,
        error matches ConfigError::UnknownArgument(argument) ==> message@ == "unknown argument: "@
            + argument@,
        error matches ConfigError::UnsupportedBackend(name) ==> message@
            == "unsupported backend '"@ + name@ + "', expected gles2, gl33, or gl20"@,
{
}

/// A backend has the context that its name says, and keeps vertex state in an array just
/// where the core profile demands it.
pub proof fn law_backends_have_their_context(
    backend: RenderBackend,
    settings: ContextSettings,
    arrays: bool,
)
    requires
        call_ensures(RenderBackend::configure_gl, (backend,), settings),
        call_ensures(RenderBackend::uses_vertex_arrays, (backend,), arrays),
    ensures
        backend == RenderBackend::Gles2 <==> settings.profile == GlProfile::Gles,
        backend == RenderBackend::Gl33 <==> settings.profile == GlProfile::Core,
        backend == RenderBackend::Gl20 <==> settings.profile == GlProfile::Compatibility,
        10 * settings.major + settings.minor == (if backend == RenderBackend::Gl33 {
            33int
        } else {
            20int
        }),
        settings.minor < 10,
        arrays <==> settings.profile == GlProfile::Core,
{
}

} // verus!
