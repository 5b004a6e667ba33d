use crate::driver::{
    after_status, follows_status, gl_link_status, gl_no_error, link_status, no_error, Answers,
    Request, Step, Target,
};
use crate::error::GLError;
use crate::shader::Shader;
use vstd::prelude::*;

verus! {

/// A program object of the driver, named by its identifier. The identifier
/// never changes; zero names no object. A program does not own the shaders
/// attached to it: the driver records the association, and each shader stays
/// with the caller.
#[derive(Debug)]
pub struct Program {
    id: u32,
}

impl Program {
    /// The identifier that the driver gave this program; zero if it has none.
    pub closed spec fn handle(&self) -> u32 {
        self.id
    }

    /// Whether the program names an object of the driver.
    pub open spec fn allocated(&self) -> bool {
        self.handle() != 0
    }

    /// Whether `step` is the move of the creation of a program, given the
    /// identifier that the driver has returned, if it has been asked.
    pub open spec fn create_step(handle: Option<u32>, step: Step<Program>) -> bool {
        match handle {
            None => step == Step::<Program>::Ask(Request::CreateProgram),
            Some(id) => if id == 0 {
                step == Step::<Program>::Done(Err(GLError::ResourceAllocationFailed))
            } else {
                step matches Step::Done(Ok(program)) && program.handle() == id
            },
        }
    }

    /// Decides the next move of the creation of a program: the driver is
    /// asked for a program object, and the identifier it returns is wrapped.
    /// A zero identifier means that the driver allocated nothing, and the
    /// creation fails.
    pub fn create(handle: Option<u32>) -> (step: Step<Program>)
        ensures
            Self::create_step(handle, step),
            step matches Step::Done(Ok(program)) ==> program.allocated(),
            step matches Step::Done(Err(error)) ==> error == GLError::ResourceAllocationFailed,
    {
        match handle {
            None => Step::Ask(Request::CreateProgram),
            Some(id) => if id == 0 {
                Step::Done(Err(GLError::ResourceAllocationFailed))
            } else {
                Step::Done(Ok(Program { id }))
            },
        }
    }

    /// A program that names no object of the driver: linking it fails.
    pub fn unallocated() -> (r: Program)
        ensures
            r.handle() == 0,
    {
        Program { id: 0 }
    }

    /// The identifier to hand to the driver.
    pub fn id(&self) -> (r: u32)
        ensures
            r == self.handle(),
    {
        self.id
    }

    /// Whether `step` is the move of attaching the shader named `shader` to
    /// the program named `program`, given the error flag that the driver
    /// showed after the call, if the call has been made.
    pub open spec fn attach_step(program: u32, shader: u32, error: Option<u32>, step: Step<()>) -> bool {
        match error {
            None => step == Step::<()>::Ask(Request::Attach { program, shader }),
            Some(flag) => if flag == no_error() {
                step == Step::<()>::Done(Ok(()))
            } else {
                step == Step::<()>::Done(Err(GLError::ResourceAllocationFailed))
            },
        }
    }

    /// Decides the next move of attaching `shader` to this program: the
    /// driver is asked to record the association, and any error that it
    /// flags afterwards fails the operation with
    /// [`GLError::ResourceAllocationFailed`].
    pub fn attach(&mut self, shader: &Shader, error: Option<u32>) -> (step: Step<()>)
        ensures
            *final(self) == *old(self),
            Self::attach_step(old(self).handle(), shader.handle(), error, step),
    {
        match error {
            None => Step::Ask(Request::Attach { program: self.id, shader: shader.id() }),
            Some(flag) => if flag != gl_no_error() {
                Step::Done(Err(GLError::ResourceAllocationFailed))
            } else {
                Step::Done(Ok(()))
            },
        }
    }

    /// Whether `step` is the move of linking the program named `id`, given
    /// what the driver has answered so far.
    pub open spec fn link_step(id: u32, answers: Answers, step: Step<()>) -> bool {
        if id == 0 {
            step == Step::<()>::Done(Err(GLError::ResourceNotAllocated))
        } else {
            match answers.status {
                None => step == Step::<()>::Ask(Request::Link { program: id, flag: link_status() }),
                Some(status) => follows_status(Target::Program, id, status, answers, step),
            }
        }
    }

    /// Decides the next move of linking this program.
    ///
    /// On a program without an identifier the link fails at once and the
    /// driver is asked nothing, whatever the answers. Otherwise the link is
    /// requested and the link status queried; a status of `GL_TRUE` ends the
    /// link in success; any other has the log's length queried and the log
    /// fetched, and ends the link in a [`GLError::ProgramLinkError`] that
    /// carries the log as it came.
    pub fn link(&mut self, answers: &Answers) -> (step: Step<()>)
        ensures
            *final(self) == *old(self),
            Self::link_step(old(self).handle(), *answers, step),
            !old(self).allocated() ==> step == Step::<()>::Done(
                Err(GLError::ResourceNotAllocated),
            ),
    {
        if self.id == 0 {
            return Step::Done(Err(GLError::ResourceNotAllocated));
        }
        match answers.status {
            None => Step::Ask(Request::Link { program: self.id, flag: gl_link_status() }),
            Some(status) => after_status(Target::Program, self.id, status, answers),
        }
    }
}

} // verus!
