use crate::error::GLError;
use vstd::prelude::*;

verus! {

/// The registry value of `GL_FRAGMENT_SHADER`.
pub open spec fn fragment_shader() -> u32 {
    0x8B30
}

/// The registry value of `GL_VERTEX_SHADER`.
pub open spec fn vertex_shader() -> u32 {
    0x8B31
}

/// The registry value of `GL_GEOMETRY_SHADER`.
pub open spec fn geometry_shader() -> u32 {
    0x8DD9
}

/// The registry value of `GL_COMPILE_STATUS`.
pub open spec fn compile_status() -> u32 {
    0x8B81
}

/// The registry value of `GL_LINK_STATUS`.
pub open spec fn link_status() -> u32 {
    0x8B82
}

/// The registry value of `GL_INFO_LOG_LENGTH`.
pub open spec fn info_log_length() -> u32 {
    0x8B84
}

/// The registry value of `GL_TRUE`.
pub open spec fn gl_true() -> u8 {
    1
}

/// The registry value of `GL_NO_ERROR`.
pub open spec fn no_error() -> u32 {
    0
}

/// Reads `gl::FRAGMENT_SHADER`. Trusted: the binding is generated from the
/// OpenGL registry, which gives this enumerant the value 0x8B30.
#[verifier::external_body]
pub(crate) fn gl_fragment_shader() -> (r: u32)
    ensures
        r == fragment_shader(),
{
    gl::FRAGMENT_SHADER
}

/// Reads `gl::VERTEX_SHADER`. Trusted: the binding is generated from the
/// OpenGL registry, which gives this enumerant the value 0x8B31.
#[verifier::external_body]
pub(crate) fn gl_vertex_shader() -> (r: u32)
    ensures
        r == vertex_shader(),
{
    gl::VERTEX_SHADER
}

/// Reads `gl::GEOMETRY_SHADER`. Trusted: the binding is generated from the
/// OpenGL registry, which gives this enumerant the value 0x8DD9.
#[verifier::external_body]
pub(crate) fn gl_geometry_shader() -> (r: u32)
    ensures
        r == geometry_shader(),
{
    gl::GEOMETRY_SHADER
}

/// Reads `gl::COMPILE_STATUS`. Trusted: the binding is generated from the
/// OpenGL registry, which gives this enumerant the value 0x8B81.
#[verifier::external_body]
pub(crate) fn gl_compile_status() -> (r: u32)
    ensures
        r == compile_status(),
{
    gl::COMPILE_STATUS
}

/// Reads `gl::LINK_STATUS`. Trusted: the binding is generated from the
/// OpenGL registry, which gives this enumerant the value 0x8B82.
#[verifier::external_body]
pub(crate) fn gl_link_status() -> (r: u32)
    ensures
        r == link_status(),
{
    gl::LINK_STATUS
}

/// Reads `gl::INFO_LOG_LENGTH`. Trusted: the binding is generated from the
/// OpenGL registry, which gives this enumerant the value 0x8B84.
#[verifier::external_body]
pub(crate) fn gl_info_log_length() -> (r: u32)
    ensures
        r == info_log_length(),
{
    gl::INFO_LOG_LENGTH
}

/// Reads `gl::TRUE`. Trusted: the binding types it as a `GLboolean`, an
/// unsigned byte, and the OpenGL registry gives it the value 1.
#[verifier::external_body]
pub(crate) fn gl_true_value() -> (r: u8)
    ensures
        r == gl_true(),
{
    gl::TRUE
}

/// Reads `gl::NO_ERROR`. Trusted: the binding is generated from the OpenGL
/// registry, which gives this enumerant the value 0.
#[verifier::external_body]
pub(crate) fn gl_no_error() -> (r: u32)
    ensures
        r == no_error(),
{
    gl::NO_ERROR
}

/// The two kinds of driver object that are built in a round of
/// "submit, query the status flag, pull the log on failure".
#[derive(Debug, Clone, Copy, PartialEq, Eq, Structural)]
pub enum Target {
    Shader,
    Program,
}

/// What the caller is to do with the driver next. Each request ends in one
/// driver call that yields a value, which the caller hands to the operation
/// that made the request when it asks for the next move.
#[derive(Debug)]
pub enum Request {
    /// Create a shader object for the stage that `kind` names; the answer is
    /// the identifier returned.
    CreateShader { kind: u32 },
    /// Create a program object; the answer is the identifier returned.
    CreateProgram,
    /// Give `source` to the driver as the program text of `shader`, compile
    /// it, and read the shader's integer parameter `flag` into
    /// [`Answers::status`].
    Compile { shader: u32, source: String, flag: u32 },
    /// Attach `shader` to `program`; the answer is the driver's error flag
    /// as read after the call.
    Attach { program: u32, shader: u32 },
    /// Link `program` and read the program's integer parameter `flag` into
    /// [`Answers::status`].
    Link { program: u32, flag: u32 },
    /// Read integer parameter `parameter` of `object` into
    /// [`Answers::log_length`].
    LogLength { target: Target, object: u32, parameter: u32 },
    /// Fetch the diagnostic log of `object` into a buffer of `capacity`
    /// bytes and put its text into [`Answers::log`].
    Log { target: Target, object: u32, capacity: i32 },
}

/// The outcome of one decision: a request to the driver, or the result of
/// the whole operation.
#[derive(Debug)]
pub enum Step<T> {
    Ask(Request),
    Done(Result<T, GLError>),
}

/// What the driver has answered so far in one round. A field is `None`
/// until the request that fills it has been performed.
#[derive(Debug)]
pub struct Answers {
    /// The compile or link status flag.
    pub status: Option<i32>,
    /// The length that the driver reports for the diagnostic log.
    pub log_length: Option<i32>,
    /// The diagnostic log.
    pub log: Option<String>,
}

impl Answers {
    /// The state of a round before the driver has been asked anything.
    pub fn new() -> (r: Answers)
        ensures
            r.status is None,
            r.log_length is None,
            r.log is None,
    {
        Answers { status: None, log_length: None, log: None }
    }
}

/// The capacity of the buffer that receives a log of reported length
/// `length`: the length itself, and nothing for a length below zero.
pub open spec fn log_capacity(length: i32) -> i32 {
    if length < 0 {
        0
    } else {
        length
    }
}

/// The error that carries the log of a failed round on `target`.
pub open spec fn is_failure_of(target: Target, log: Seq<char>, error: GLError) -> bool {
    match target {
        Target::Shader => error matches GLError::ShaderCompileError(text) && text@ == log,
        Target::Program => error matches GLError::ProgramLinkError(text) && text@ == log,
    }
}

/// Whether `step` is the move that follows a status flag of `status` in a
/// round on `object`, given what else the driver has answered.
pub open spec fn follows_status(
    target: Target,
    object: u32,
    status: i32,
    answers: Answers,
    step: Step<()>,
) -> bool {
    if status == gl_true() as i32 {
        step == Step::<()>::Done(Ok(()))
    } else {
        match (answers.log_length, answers.log) {
            (None, _) => step == Step::<()>::Ask(
                Request::LogLength { target, object, parameter: info_log_length() },
            ),
            (Some(length), None) => step == Step::<()>::Ask(
                Request::Log { target, object, capacity: log_capacity(length) },
            ),
            (Some(_), Some(log)) => step matches Step::Done(Err(error)) && is_failure_of(
                target,
                log@,
                error,
            ),
        }
    }
}

/// Decides the move that follows a status flag of `status`: success when
/// the flag is `GL_TRUE`; otherwise the log's length is queried, then the
/// log is fetched, then the failure is reported with the log in it.
pub fn after_status(target: Target, object: u32, status: i32, answers: &Answers) -> (step: Step<()>)
    ensures
        follows_status(target, object, status, *answers, step),
{
    if status == gl_true_value() as i32 {
        return Step::Done(Ok(()));
    }
    match answers.log_length {
        None => Step::Ask(Request::LogLength { target, object, parameter: gl_info_log_length() }),
        Some(length) => match &answers.log {
            None => {
                let capacity: i32 = if length < 0 {
                    0
                } else {
                    length
                };
                Step::Ask(Request::Log { target, object, capacity })
            },
            Some(log) => {
                let text = log.clone();
                match target {
                    Target::Shader => Step::Done(Err(GLError::ShaderCompileError(text))),
                    Target::Program => Step::Done(Err(GLError::ProgramLinkError(text))),
                }
            },
        },
    }
}

} // verus!
