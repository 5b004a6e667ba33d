use vstd::prelude::*;
use vstd::string::*;

verus! {

/// Why an operation on a driver resource failed.
#[derive(Debug, Clone)]
pub enum GLError {
    /// The driver refused to allocate an object, or reported an error while a
    /// shader was being attached.
    ResourceAllocationFailed,
    /// The operation was invoked on a wrapper whose identifier is zero.
    ResourceNotAllocated,
    /// The driver rejected the shader source; the payload is its diagnostic log.
    ShaderCompileError(String),
    /// The driver could not link the program; the payload is its diagnostic log.
    ProgramLinkError(String),
}

impl GLError {
    /// The fixed text that introduces each kind of error.
    pub open spec fn headline(&self) -> Seq<char> {
        match self {
            GLError::ResourceAllocationFailed => "GlError: Resource allocation failed"@,
            GLError::ResourceNotAllocated => "GlError: Resource not allocated"@,
            GLError::ShaderCompileError(_) => "GlError: Shader compilation failed: "@,
            GLError::ProgramLinkError(_) => "GlError: Program linking failed: "@,
        }
    }

    /// The driver's diagnostic log, empty for the kinds that carry none.
    pub open spec fn detail(&self) -> Seq<char> {
        match self {
            GLError::ShaderCompileError(log) => log@,
            GLError::ProgramLinkError(log) => log@,
            _ => Seq::empty(),
        }
    }

    /// The text shown to a user: headline, one space, detail.
    pub open spec fn text(&self) -> Seq<char> {
        self.headline() + " "@ + self.detail()
    }

    /// Renders the error for display.
    pub fn to_string(&self) -> (r: String)
        ensures
            r@ == self.text(),
    {
        let mut out = match self {
            GLError::ResourceAllocationFailed => String::from_str(
                "GlError: Resource allocation failed",
            ),
            GLError::ResourceNotAllocated => String::from_str("GlError: Resource not allocated"),
            GLError::ShaderCompileError(_) => String::from_str(
                "GlError: Shader compilation failed: ",
            ),
            GLError::ProgramLinkError(_) => String::from_str("GlError: Program linking failed: "),
        };
        out.append(" ");
        match self {
            GLError::ShaderCompileError(log) => out.append(log.as_str()),
            GLError::ProgramLinkError(log) => out.append(log.as_str()),
            _ => {
                assert(out@ + Seq::<char>::empty() == out@);
            },
        }
        out
    }
}

} // verus!
