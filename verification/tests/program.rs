use renderer::{Answers, GLError, Program, Request, Shader, ShaderType, Step, Target};

const FRAGMENT_SOURCE: &str = "\n#version 330 core\nout vec4 FragColor;\nin vec3 something;\nuniform sampler2D tex;\n\nvoid main()\n{\n    vec2 windowPos = (gl_FragCoord.xy / 1024);\n\tvec3 rgb = texture(tex, windowPos).rgb;\n    FragColor = vec4(rgb, 1.0f);\n} \n\n";

const VERTEX_SOURCE: &str = "\n#version 330 core\nlayout (location = 0) in vec3 aPos;\n\nvoid main()\n{\n    gl_Position = vec4(aPos.x, aPos.y, aPos.z, 1.0);\n}\n";

fn program(handle: u32) -> Program {
    match Program::create(Some(handle)) {
        Step::Done(Ok(program)) => program,
        other => panic!("no program for handle {}: {:?}", handle, other),
    }
}

fn shader(kind: ShaderType, handle: u32) -> Shader {
    match Shader::create(kind, Some(handle)) {
        Step::Done(Ok(shader)) => shader,
        other => panic!("no shader for handle {}: {:?}", handle, other),
    }
}

#[test]
fn program_create_first_asks_the_driver() {
    assert!(matches!(Program::create(None), Step::Ask(Request::CreateProgram)));
}

#[test]
fn program_create_wraps_a_nonzero_handle() {
    assert_eq!(program(1).id(), 1);
    assert_eq!(program(77).id(), 77);
    assert_eq!(program(u32::MAX).id(), u32::MAX);
}

#[test]
fn program_create_fails_on_a_zero_handle() {
    assert!(matches!(
        Program::create(Some(0)),
        Step::Done(Err(GLError::ResourceAllocationFailed))
    ));
}

#[test]
fn attach_first_names_both_objects() {
    let mut target = program(4);
    let piece = shader(ShaderType::Vertex, 9);
    match target.attach(&piece, None) {
        Step::Ask(Request::Attach { program: to, shader: what }) => {
            assert_eq!(to, 4);
            assert_eq!(what, 9);
        }
        other => panic!("unexpected step {:?}", other),
    }
    assert_eq!(target.id(), 4);
}

#[test]
fn attach_succeeds_when_the_driver_flags_no_error() {
    let mut target = program(4);
    let piece = shader(ShaderType::Vertex, 9);
    assert!(matches!(target.attach(&piece, Some(gl::NO_ERROR)), Step::Done(Ok(()))));
    assert!(matches!(target.attach(&piece, Some(0)), Step::Done(Ok(()))));
}

#[test]
fn attach_fails_on_any_flagged_error() {
    let mut target = program(4);
    let piece = shader(ShaderType::Vertex, 9);
    for flag in [gl::INVALID_VALUE, gl::INVALID_OPERATION, gl::OUT_OF_MEMORY, 1, u32::MAX] {
        assert!(matches!(
            target.attach(&piece, Some(flag)),
            Step::Done(Err(GLError::ResourceAllocationFailed))
        ));
    }
}

#[test]
fn attach_does_not_look_at_the_identifiers() {
    let mut target = Program::unallocated();
    let piece = Shader::unallocated(ShaderType::Fragment);
    assert!(matches!(
        target.attach(&piece, None),
        Step::Ask(Request::Attach { program: 0, shader: 0 })
    ));
    assert!(matches!(target.attach(&piece, Some(0)), Step::Done(Ok(()))));
}

#[test]
fn link_without_identifier_is_refused_and_asks_nothing() {
    let answered = Answers { status: Some(0), log_length: Some(3), log: Some(String::from("no")) };
    let succeeded = Answers { status: Some(1), log_length: None, log: None };
    for answers in [&Answers::new(), &answered, &succeeded] {
        let mut target = Program::unallocated();
        assert!(matches!(
            target.link(answers),
            Step::Done(Err(GLError::ResourceNotAllocated))
        ));
        assert_eq!(target.id(), 0);
    }
}

#[test]
fn link_first_asks_for_the_link_status() {
    let mut target = program(4);
    match target.link(&Answers::new()) {
        Step::Ask(Request::Link { program: id, flag }) => {
            assert_eq!(id, 4);
            assert_eq!(flag, 0x8B82);
            assert_eq!(flag, gl::LINK_STATUS);
        }
        other => panic!("unexpected step {:?}", other),
    }
}

#[test]
fn link_succeeds_on_a_true_status() {
    let mut target = program(4);
    let answers = Answers { status: Some(1), log_length: None, log: None };
    assert!(matches!(target.link(&answers), Step::Done(Ok(()))));
}

#[test]
fn link_pulls_the_log_on_any_other_status() {
    let mut target = program(4);
    let mut answers = Answers { status: Some(0), log_length: None, log: None };
    match target.link(&answers) {
        Step::Ask(Request::LogLength { target: kind, object, parameter }) => {
            assert_eq!(kind, Target::Program);
            assert_eq!(object, 4);
            assert_eq!(parameter, 0x8B84);
        }
        other => panic!("unexpected step {:?}", other),
    }
    answers.log_length = Some(24);
    match target.link(&answers) {
        Step::Ask(Request::Log { target: kind, object, capacity }) => {
            assert_eq!(kind, Target::Program);
            assert_eq!(object, 4);
            assert_eq!(capacity, 24);
        }
        other => panic!("unexpected step {:?}", other),
    }
    answers.log_length = Some(-24);
    assert!(matches!(
        target.link(&answers),
        Step::Ask(Request::Log { target: Target::Program, object: 4, capacity: 0 })
    ));
    answers.log = Some(String::from("error: no main in stage\0"));
    match target.link(&answers) {
        Step::Done(Err(GLError::ProgramLinkError(text))) => {
            assert_eq!(text, "error: no main in stage\0")
        }
        other => panic!("unexpected step {:?}", other),
    }
}

fn compile_with_status(shader: &mut Shader, source: &str, status: i32) -> Result<(), GLError> {
    let mut answers = Answers::new();
    loop {
        match shader.compile(source, &answers) {
            Step::Done(result) => return result,
            Step::Ask(Request::Compile { source: text, flag, .. }) => {
                assert_eq!(text, source);
                assert_eq!(flag, gl::COMPILE_STATUS);
                answers.status = Some(status);
            }
            Step::Ask(other) => panic!("unexpected request {:?}", other),
        }
    }
}

fn attach_with_flag(target: &mut Program, piece: &Shader, flag: u32) -> Result<(), GLError> {
    let mut error: Option<u32> = None;
    loop {
        match target.attach(piece, error) {
            Step::Done(result) => return result,
            Step::Ask(Request::Attach { program, shader }) => {
                assert_eq!(program, target.id());
                assert_eq!(shader, piece.id());
                error = Some(flag);
            }
            Step::Ask(other) => panic!("unexpected request {:?}", other),
        }
    }
}

#[test]
fn a_valid_pair_compiles_attaches_and_links() {
    let mut fragment = shader(ShaderType::Fragment, 1);
    let mut vertex = shader(ShaderType::Vertex, 2);
    assert!(compile_with_status(&mut fragment, FRAGMENT_SOURCE, 1).is_ok());
    assert!(compile_with_status(&mut vertex, VERTEX_SOURCE, 1).is_ok());

    let mut target = program(3);
    assert!(attach_with_flag(&mut target, &fragment, gl::NO_ERROR).is_ok());
    assert!(attach_with_flag(&mut target, &vertex, gl::NO_ERROR).is_ok());

    let mut answers = Answers::new();
    let result = loop {
        match target.link(&answers) {
            Step::Done(result) => break result,
            Step::Ask(Request::Link { program, flag }) => {
                assert_eq!(program, 3);
                assert_eq!(flag, gl::LINK_STATUS);
                answers.status = Some(1);
            }
            Step::Ask(other) => panic!("unexpected request {:?}", other),
        }
    };
    assert!(result.is_ok());
}
