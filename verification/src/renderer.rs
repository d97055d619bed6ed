use vstd::prelude::*;

use crate::registry::ProgramRegistry;

verus! {

/// A stand-alone program registry for callers that drive shader compilation
/// themselves and only need name-to-handle bookkeeping.
pub struct Renderer {
    shader_programs: ProgramRegistry,
}

impl Renderer {
    /// The program registry owned by this renderer.
    pub closed spec fn registry(self) -> ProgramRegistry {
        self.shader_programs
    }

    /// A renderer is well formed when its registry holds no duplicate names.
    pub open spec fn wf(self) -> bool {
        self.registry().names_unique()
    }

    pub fn new() -> (r: Renderer)
        ensures
            r.wf(),
            r.registry().entries() == Seq::<(Seq<char>, u32)>::empty(),
    {
        Renderer { shader_programs: ProgramRegistry::new() }
    }

    /// Registers a linked program handle under `program_name`. Fails, leaving
    /// the registry unchanged, exactly when the name is already taken.
    pub fn add_shader_program(
        &mut self,
        program_name: &String,
        shader_handle: u32,
    ) -> (r: Result<(), &'static str>)
        requires
            old(self).wf(),
        ensures
            final(self).wf(),
            r is Ok <==> !old(self).registry().contains_name(program_name@),
            r is Ok ==> final(self).registry().entries() == old(self).registry().entries().push(
                (program_name@, shader_handle),
            ),
            r is Ok ==> final(self).registry().contains_name(program_name@),
            r is Err ==> final(self).registry().entries() == old(self).registry().entries(),
    {
        self.shader_programs.insert(program_name, shader_handle)
    }
}

} // verus!
