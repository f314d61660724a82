use glcore::binding::BindingState;
use glcore::command::GlCommand;
use glcore::shader::{create_whitespace_string_with_len, Program, Shader};

#[test]
fn successful_compile_yields_the_shader() {
    let result = Shader::from_source(41, true, String::new());
    let shader = result.unwrap();
    assert_eq!(shader.id(), 41);
}

#[test]
fn failed_compile_returns_the_full_log() {
    let log = String::from("0:1(1): error: syntax error, unexpected NEW_IDENTIFIER");
    let expected_len = log.len();
    let result = Shader::from_source(42, false, log);
    let message = result.unwrap_err();
    // The error payload is the driver's log, whole: its length equals the
    // length that was queried, and it is not empty.
    assert_eq!(message.len(), expected_len);
    assert!(!message.is_empty());
    assert_eq!(message, "0:1(1): error: syntax error, unexpected NEW_IDENTIFIER");
}

#[test]
fn log_buffer_has_exactly_the_queried_length() {
    assert_eq!(create_whitespace_string_with_len(0), "");
    assert_eq!(create_whitespace_string_with_len(5), "     ");
    let buffer = create_whitespace_string_with_len(64);
    assert_eq!(buffer.len(), 64);
    assert!(buffer.chars().all(|c| c == ' '));
}

#[test]
fn linking_attaches_every_shader_then_links() {
    let vertex = Shader::from_source(1, true, String::new()).unwrap();
    let fragment = Shader::from_source(2, true, String::new()).unwrap();
    let shaders = vec![vertex, fragment];
    let commands = Program::attach_commands(50, &shaders);
    assert_eq!(
        commands,
        vec![
            GlCommand::AttachShader { program: 50, shader: 1 },
            GlCommand::AttachShader { program: 50, shader: 2 },
            GlCommand::LinkProgram { program: 50 },
        ]
    );
}

#[test]
fn successful_link_yields_the_program_and_detaches() {
    let vertex = Shader::from_source(1, true, String::new()).unwrap();
    let fragment = Shader::from_source(2, true, String::new()).unwrap();
    let shaders = vec![vertex, fragment];
    let program = Program::from_shaders(50, true, String::new()).unwrap();
    assert_eq!(program.id(), 50);
    let commands = program.detach_commands(&shaders);
    assert_eq!(
        commands,
        vec![
            GlCommand::DetachShader { program: 50, shader: 1 },
            GlCommand::DetachShader { program: 50, shader: 2 },
        ]
    );
}

#[test]
fn failed_link_returns_the_full_log() {
    let result = Program::from_shaders(51, false, String::from("error: linking failed"));
    assert_eq!(result.unwrap_err(), "error: linking failed");
}

#[test]
fn set_used_activates_the_program() {
    let program = Program::from_shaders(52, true, String::new()).unwrap();
    let mut state = BindingState::new();
    let command = program.set_used(&mut state);
    assert_eq!(command, GlCommand::UseProgram { handle: 52 });
    assert_eq!(state.active_program, 52);

    // Activating it again leaves the binding state unchanged.
    let before = state;
    program.set_used(&mut state);
    assert_eq!(state, before);
}

#[test]
fn shader_and_program_release_their_handles() {
    let shader = Shader::from_source(61, true, String::new()).unwrap();
    assert_eq!(shader.delete(), GlCommand::DeleteShader { handle: 61 });
    let program = Program::from_shaders(62, true, String::new()).unwrap();
    assert_eq!(program.delete(), GlCommand::DeleteProgram { handle: 62 });
}
