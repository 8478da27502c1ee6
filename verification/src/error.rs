//! Structured construction errors.
//!
//! Every failure of shader or mesh construction is terminal and carries the
//! context a caller needs: which resource could not be allocated, or which
//! stage failed to compile, for which program, with the verbatim driver log.

use vstd::prelude::*;

verus! {

/// One half of a program, compiled independently before linking.
#[derive(Clone, Copy, PartialEq, Eq, Structural, Debug)]
pub enum ShaderStage {
    Vertex,
    Fragment,
}

impl ShaderStage {
    /// A human-readable label for diagnostics.
    pub fn as_ref(&self) -> (r: &'static str)
        ensures
            self is Vertex ==> r@ == "vertex shader"@,
            self is Fragment ==> r@ == "fragment shader"@,
    {
        match self {
            ShaderStage::Vertex => "vertex shader",
            ShaderStage::Fragment => "fragment shader",
        }
    }
}

/// The kind of GPU object whose allocation was refused.
#[derive(Clone, Copy, PartialEq, Eq, Structural, Debug)]
pub enum GpuResource {
    Program,
    VertexStage,
    FragmentStage,
    VertexBuffer,
    IndexBuffer,
}

/// A terminal construction failure.
pub enum BindError {
    /// The context refused to allocate a GPU object; `name` is the program
    /// or mesh name the object was for.
    ResourceAllocation { resource: GpuResource, name: Vec<u8> },
    /// A stage's source did not compile; carries the stage, the program name
    /// and the verbatim driver log.
    ShaderCompile { stage: ShaderStage, program_name: Vec<u8>, log: String },
    /// The compiled stages did not link; carries the program name and the
    /// verbatim driver log.
    Link { program_name: Vec<u8>, log: String },
}

/// `e` reports that allocating `resource` for `name` failed.
pub open spec fn is_alloc_error(e: BindError, resource: GpuResource, name: Seq<u8>) -> bool {
    match e {
        BindError::ResourceAllocation { resource: r, name: n } => r == resource && n@ == name,
        _ => false,
    }
}

/// `e` reports that `stage` of program `program_name` failed to compile.
pub open spec fn is_compile_error(e: BindError, stage: ShaderStage, program_name: Seq<u8>) -> bool {
    match e {
        BindError::ShaderCompile { stage: s, program_name: pn, log: _ } => s == stage && pn@
            == program_name,
        _ => false,
    }
}

/// `e` reports that program `program_name` failed to link.
pub open spec fn is_link_error(e: BindError, program_name: Seq<u8>) -> bool {
    match e {
        BindError::Link { program_name: pn, log: _ } => pn@ == program_name,
        _ => false,
    }
}

/// The outcome of a stage compile: the compile-status flag decides, and a
/// failure carries the stage, the program name and the driver log unchanged.
pub fn compile_outcome(status: bool, stage: ShaderStage, program_name: Vec<u8>, log: String) -> (r:
    Result<(), BindError>)
    ensures
        status ==> r == Ok::<(), BindError>(()),
        !status ==> r == Err::<(), BindError>(
            (BindError::ShaderCompile { stage, program_name, log }),
        ),
{
    if status {
        Ok(())
    } else {
        Err(BindError::ShaderCompile { stage, program_name, log })
    }
}

/// The outcome of a program link: the link-status flag decides, and a failure
/// carries the program name and the driver log unchanged.
pub fn link_outcome(status: bool, program_name: Vec<u8>, log: String) -> (r: Result<
    (),
    BindError,
>)
    ensures
        status ==> r == Ok::<(), BindError>(()),
        !status ==> r == Err::<(), BindError>((BindError::Link { program_name, log })),
{
    if status {
        Ok(())
    } else {
        Err(BindError::Link { program_name, log })
    }
}

} // verus!
