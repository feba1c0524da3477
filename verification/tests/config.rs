use panium::config::{ArgumentReader, Config, ConfigError, ContextSettings, GlProfile, RenderBackend};
use panium::shaders::{
    GL20_FRAGMENT_SHADER, GL20_VERTEX_SHADER, GL33_FRAGMENT_SHADER, GL33_VERTEX_SHADER,
    GLES2_FRAGMENT_SHADER, GLES2_VERTEX_SHADER,
};

fn args(texts: &[&str]) -> Vec<String> {
    texts.iter().map(|text| text.to_string()).collect()
}

fn failure(texts: &[&str]) -> ConfigError {
    Config::parse(args(texts)).expect_err("the command line is refused")
}

#[test]
fn no_arguments_select_desktop_opengl() {
    let config = Config::parse(args(&[])).unwrap();
    assert_eq!(config.backend, RenderBackend::Gl33);
    assert_eq!(RenderBackend::default(), RenderBackend::Gl33);
}

#[test]
fn each_backend_can_be_selected() {
    assert_eq!(Config::parse(args(&["--backend", "gles2"])).unwrap().backend, RenderBackend::Gles2);
    assert_eq!(Config::parse(args(&["--backend", "gl33"])).unwrap().backend, RenderBackend::Gl33);
    assert_eq!(Config::parse(args(&["--backend", "gl20"])).unwrap().backend, RenderBackend::Gl20);
}

#[test]
fn the_last_backend_counts() {
    let config = Config::parse(args(&["--backend", "gles2", "--backend", "gl20"])).unwrap();
    assert_eq!(config.backend, RenderBackend::Gl20);
}

#[test]
fn help_shows_the_usage() {
    assert_eq!(failure(&["--help"]), ConfigError::Usage);
    assert_eq!(failure(&["--backend", "gl20", "-h", "more"]), ConfigError::Usage);
    assert_eq!(failure(&["-h"]).message(), "usage: panium [--backend <gles2|gl33|gl20>]");
}

#[test]
fn backend_needs_a_value() {
    assert_eq!(failure(&["--backend"]), ConfigError::MissingBackend);
    assert_eq!(
        failure(&["--backend", "gl20", "--backend"]).message(),
        "--backend requires one of: gles2, gl33, gl20"
    );
}

#[test]
fn help_after_backend_is_taken_as_its_value() {
    assert_eq!(
        failure(&["--backend", "--help"]),
        ConfigError::UnsupportedBackend("--help".to_string())
    );
}

#[test]
fn unknown_arguments_are_named() {
    let error = failure(&["--fullscreen", "--help"]);
    assert_eq!(error, ConfigError::UnknownArgument("--fullscreen".to_string()));
    assert_eq!(error.message(), "unknown argument: --fullscreen");
    assert_eq!(failure(&[""]).message(), "unknown argument: ");
}

#[test]
fn unsupported_backends_are_named() {
    assert_eq!(
        failure(&["--backend", "vulkan"]).message(),
        "unsupported backend 'vulkan', expected gles2, gl33, or gl20"
    );
    assert!("GL33".parse::<RenderBackend>().is_err());
    assert_eq!("gl33".parse::<RenderBackend>(), Ok(RenderBackend::Gl33));
}

#[test]
fn backends_ask_for_their_context() {
    let settings = |profile, major, minor| ContextSettings { profile, major, minor };
    assert_eq!(RenderBackend::Gles2.configure_gl(), settings(GlProfile::Gles, 2, 0));
    assert_eq!(RenderBackend::Gl33.configure_gl(), settings(GlProfile::Core, 3, 3));
    assert_eq!(RenderBackend::Gl20.configure_gl(), settings(GlProfile::Compatibility, 2, 0));
}

#[test]
fn only_the_core_profile_has_vertex_arrays() {
    assert!(RenderBackend::Gl33.uses_vertex_arrays());
    assert!(!RenderBackend::Gl20.uses_vertex_arrays());
    assert!(!RenderBackend::Gles2.uses_vertex_arrays());
}

#[test]
fn shaders_match_their_backend() {
    assert_eq!(RenderBackend::Gles2.shaders(), (GLES2_VERTEX_SHADER, GLES2_FRAGMENT_SHADER));
    assert_eq!(RenderBackend::Gl33.shaders(), (GL33_VERTEX_SHADER, GL33_FRAGMENT_SHADER));
    assert_eq!(RenderBackend::Gl20.shaders(), (GL20_VERTEX_SHADER, GL20_FRAGMENT_SHADER));
    for (backend, version) in [
        (RenderBackend::Gles2, "#version 100\n"),
        (RenderBackend::Gl33, "#version 330 core\n"),
        (RenderBackend::Gl20, "#version 110\n"),
    ] {
        let (vertex, fragment) = backend.shaders();
        assert!(vertex.starts_with(version));
        assert!(fragment.starts_with(version));
    }
}

#[test]
fn shaders_can_be_passed_as_c_strings() {
    for backend in [RenderBackend::Gles2, RenderBackend::Gl33, RenderBackend::Gl20] {
        let (vertex, fragment) = backend.shaders();
        assert!(!vertex.contains('\0'));
        assert!(!fragment.contains('\0'));
    }
}

#[test]
fn arguments_can_be_read_one_by_one() {
    let reader = ArgumentReader::new();
    assert_eq!(reader.finish(), Ok(Config { backend: RenderBackend::Gl33 }));
    let awaiting = reader.read("--backend").unwrap();
    assert_eq!(awaiting.finish(), Err(ConfigError::MissingBackend));
    let selected = awaiting.read("gl20").unwrap();
    assert_eq!(selected.finish(), Ok(Config { backend: RenderBackend::Gl20 }));
    assert_eq!(selected.read("-h"), Err(ConfigError::Usage));
    assert_eq!(
        awaiting.read("-h"),
        Err(ConfigError::UnsupportedBackend("-h".to_string()))
    );
    assert_eq!(reader.read("gl20"), Err(ConfigError::UnknownArgument("gl20".to_string())));
}
