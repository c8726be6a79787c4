//! Bookkeeping half of the shader-pipeline wrapper.
//!
//! Compiling and linking happen through foreign calls that only the
//! surrounding application can make; this module owns the decisions those
//! calls feed: whether a build succeeded, which handle the resulting object
//! owns, and which diagnostic text a failed build reports.

use vstd::prelude::*;

verus! {

/// The two shader stages the pipeline uses.
#[derive(Clone, Copy, PartialEq, Eq, Debug)]
pub enum ShaderKind {
    Vertex,
    Fragment,
}

/// A compiled shader stage: the foreign handle it owns and its stage.
#[derive(Clone, Copy, PartialEq, Eq, Debug)]
pub struct Shader {
    pub id: u32,
    pub kind: ShaderKind,
}

/// A linked shader program: the foreign handle it owns.
#[derive(Clone, Copy, PartialEq, Eq, Debug)]
pub struct Program {
    pub id: u32,
}

impl Shader {
    /// Decides the outcome of compiling one shader stage. A zero compile
    /// status means failure: the diagnostic log is returned verbatim and no
    /// shader is produced. Any other status yields a shader owning `id`.
    pub fn from_source(id: u32, kind: ShaderKind, compile_status: i32, info_log: String) -> (r:
        Result<Shader, String>)
        ensures
            (compile_status == 0) <==> (r is Err),
            r matches Err(e) ==> e@ == info_log@,
            r matches Ok(s) ==> s.id == id && s.kind == kind,
    {
        if compile_status == 0 {
            Err(info_log)
        } else {
            Ok(Shader { id, kind })
        }
    }

    /// `from_source` for the vertex stage.
    pub fn from_vert_source(id: u32, compile_status: i32, info_log: String) -> (r: Result<
        Shader,
        String,
    >)
        ensures
            (compile_status == 0) <==> (r is Err),
            r matches Err(e) ==> e@ == info_log@,
            r matches Ok(s) ==> s.id == id && s.kind == ShaderKind::Vertex,
    {
        Self::from_source(id, ShaderKind::Vertex, compile_status, info_log)
    }

    /// `from_source` for the fragment stage.
    pub fn from_frag_source(id: u32, compile_status: i32, info_log: String) -> (r: Result<
        Shader,
        String,
    >)
        ensures
            (compile_status == 0) <==> (r is Err),
            r matches Err(e) ==> e@ == info_log@,
            r matches Ok(s) ==> s.id == id && s.kind == ShaderKind::Fragment,
    {
        Self::from_source(id, ShaderKind::Fragment, compile_status, info_log)
    }

    /// The foreign handle this shader owns.
    pub fn id(&self) -> (r: u32)
        ensures
            r == self.id,
    {
        self.id
    }
}

impl Program {
    /// Decides the outcome of linking a program from already-compiled
    /// shaders. A zero link status means failure: the diagnostic log is
    /// returned verbatim and no program is produced. Any other status yields
    /// a program owning `program_id`; the shaders stay with the caller.
    pub fn from_shaders(program_id: u32, link_status: i32, info_log: String) -> (r: Result<
        Program,
        String,
    >)
        ensures
            (link_status == 0) <==> (r is Err),
            r matches Err(e) ==> e@ == info_log@,
            r matches Ok(p) ==> p.id == program_id,
    {
        if link_status == 0 {
            Err(info_log)
        } else {
            Ok(Program { id: program_id })
        }
    }

    /// The foreign handle this program owns.
    pub fn id(&self) -> (r: u32)
        ensures
            r == self.id,
    {
        self.id
    }
}

/// Builds a value by letting a caller-supplied function rework the type's
/// default value; the result is whatever the function made of that default.
pub fn from_mutator<T: Default, F: FnOnce(T) -> T>(func: F) -> (r: T)
    requires
        forall|t: T| call_ensures(T::default, (), t) ==> #[trigger] call_requires(func, (t,)),
    ensures
        exists|t: T| #[trigger] call_ensures(T::default, (), t) && call_ensures(func, (t,), r),
{
    let t = T::default();
    func(t)
}

} // verus!
