use crate::driver::{
    after_status, compile_status, follows_status, fragment_shader, geometry_shader,
    gl_compile_status, gl_fragment_shader, gl_geometry_shader, gl_vertex_shader, vertex_shader,
    Answers, Request, Step, Target,
};
use crate::error::GLError;
use vstd::prelude::*;
use vstd::string::*;

verus! {

/// The pipeline stage that a shader is written for.
#[derive(Debug, Clone, Copy, PartialEq, Eq, Structural)]
pub enum ShaderType {
    Fragment,
    Vertex,
    Geometry,
}

/// The kinds of value that a shader input can carry.
#[derive(Debug, Clone, Copy, PartialEq, Eq, Structural)]
pub enum GLType {
    Vector3,
    Vector4,
    Float,
}

impl ShaderType {
    /// The enumerant by which the driver knows this stage.
    pub open spec fn enumerant(self) -> u32 {
        match self {
            ShaderType::Fragment => fragment_shader(),
            ShaderType::Vertex => vertex_shader(),
            ShaderType::Geometry => geometry_shader(),
        }
    }

    /// The enumerant to hand to the driver when a shader of this kind is
    /// requested.
    pub fn gl_enum(&self) -> (r: u32)
        ensures
            r == self.enumerant(),
    {
        match self {
            ShaderType::Fragment => gl_fragment_shader(),
            ShaderType::Vertex => gl_vertex_shader(),
            ShaderType::Geometry => gl_geometry_shader(),
        }
    }
}

/// A shader object of the driver, named by its identifier. The identifier
/// never changes; zero names no object.
#[derive(Debug)]
pub struct Shader {
    id: u32,
    kind: ShaderType,
}

impl Shader {
    /// The identifier that the driver gave this shader; zero if it has none.
    pub closed spec fn handle(&self) -> u32 {
        self.id
    }

    /// The stage that this shader was requested for.
    pub closed spec fn stage(&self) -> ShaderType {
        self.kind
    }

    /// Whether the shader names an object of the driver.
    pub open spec fn allocated(&self) -> bool {
        self.handle() != 0
    }

    /// Whether `step` is the move of the creation of a shader of `kind`,
    /// given the identifier that the driver has returned, if it has been
    /// asked.
    pub open spec fn create_step(kind: ShaderType, handle: Option<u32>, step: Step<Shader>) -> bool {
        match handle {
            None => step == Step::<Shader>::Ask(Request::CreateShader { kind: kind.enumerant() }),
            Some(id) => if id == 0 {
                step == Step::<Shader>::Done(Err(GLError::ResourceAllocationFailed))
            } else {
                &&& step matches Step::Done(Ok(shader))
                &&& shader.handle() == id
                &&& shader.stage() == kind
            },
        }
    }

    /// Decides the next move of the creation of a shader of `kind`: the
    /// driver is asked for a shader object of that stage, and the identifier
    /// it returns is wrapped. A zero identifier means that the driver
    /// allocated nothing, and the creation fails.
    pub fn create(kind: ShaderType, handle: Option<u32>) -> (step: Step<Shader>)
        ensures
            Self::create_step(kind, handle, step),
            step matches Step::Done(Ok(shader)) ==> shader.allocated(),
            step matches Step::Done(Err(error)) ==> error == GLError::ResourceAllocationFailed,
    {
        match handle {
            None => Step::Ask(Request::CreateShader { kind: kind.gl_enum() }),
            Some(id) => if id == 0 {
                Step::Done(Err(GLError::ResourceAllocationFailed))
            } else {
                Step::Done(Ok(Shader { id, kind }))
            },
        }
    }

    /// A shader that names no object of the driver: every operation on it
    /// fails.
    pub fn unallocated(kind: ShaderType) -> (r: Shader)
        ensures
            r.handle() == 0,
            r.stage() == kind,
    {
        Shader { id: 0, kind }
    }

    /// The identifier to hand to the driver.
    pub fn id(&self) -> (r: u32)
        ensures
            r == self.handle(),
    {
        self.id
    }

    /// The stage that this shader was requested for.
    pub fn kind(&self) -> (r: ShaderType)
        ensures
            r == self.stage(),
    {
        self.kind
    }

    /// Whether `step` is the move of a compilation of `source` on the shader
    /// named `id`, given what the driver has answered so far.
    pub open spec fn compile_step(id: u32, source: Seq<char>, answers: Answers, step: Step<()>) -> bool {
        if id == 0 {
            step == Step::<()>::Done(Err(GLError::ResourceNotAllocated))
        } else {
            match answers.status {
                None => {
                    &&& step matches Step::Ask(Request::Compile { shader, source: text, flag })
                    &&& shader == id
                    &&& text@ == source
                    &&& flag == compile_status()
                },
                Some(status) => follows_status(Target::Shader, id, status, answers, step),
            }
        }
    }

    /// Decides the next move of a compilation of `source`.
    ///
    /// On a shader without an identifier the compilation fails at once and
    /// the driver is asked nothing, whatever the source and the answers.
    /// Otherwise the source is submitted and the compile status queried; a
    /// status of `GL_TRUE` ends the compilation in success; any other has the
    /// log's length queried and the log fetched, and ends the compilation in
    /// a [`GLError::ShaderCompileError`] that carries the log as it came.
    pub fn compile(&mut self, source: &str, answers: &Answers) -> (step: Step<()>)
        ensures
            *final(self) == *old(self),
            Self::compile_step(old(self).handle(), source@, *answers, step),
            !old(self).allocated() ==> step == Step::<()>::Done(
                Err(GLError::ResourceNotAllocated),
            ),
    {
        if self.id == 0 {
            return Step::Done(Err(GLError::ResourceNotAllocated));
        }
        match answers.status {
            None => Step::Ask(
                Request::Compile {
                    shader: self.id,
                    source: String::from_str(source),
                    flag: gl_compile_status(),
                },
            ),
            Some(status) => after_status(Target::Shader, self.id, status, answers),
        }
    }
}

} // verus!
