use vstd::prelude::*;

use crate::registry::ProgramRegistry;

verus! {

/// Owner of the process-wide rendering state the engine keeps for itself: the
/// registry of compiled shader programs. The windowing-subsystem handle that
/// accompanies it lives with the embedding binary, which must create the
/// context before any window and keep it alive until every window is gone.
pub struct RenderCtx {
    shader_programs: ProgramRegistry,
}

impl RenderCtx {
    /// The program registry owned by this context.
    pub closed spec fn registry(self) -> ProgramRegistry {
        self.shader_programs
    }

    /// A context is well formed when its registry holds no duplicate names.
    pub open spec fn wf(self) -> bool {
        self.registry().names_unique()
    }

    /// Creates a context with an empty program registry.
    pub fn create() -> (ctx: RenderCtx)
        ensures
            ctx.wf(),
            ctx.registry().entries() == Seq::<(Seq<char>, u32)>::empty(),
    {
        RenderCtx { shader_programs: ProgramRegistry::new() }
    }

    /// Registers a linked program handle under `program_name`. Fails, leaving
    /// the registry unchanged, exactly when the name is already taken.
    pub fn add_shader_program(
        &mut self,
        program_name: &String,
        shader_handle: u32,
    ) -> (r: Result<(), &'static str>)
        requires
            old(self).wf(),
        ensures
            final(self).wf(),
            r is Ok <==> !old(self).registry().contains_name(program_name@),
            r is Ok ==> final(self).registry().entries() == old(self).registry().entries().push(
                (program_name@, shader_handle),
            ),
            r is Ok ==> final(self).registry().contains_name(program_name@),
            r is Err ==> final(self).registry().entries() == old(self).registry().entries(),
    {
        self.shader_programs.insert(program_name, shader_handle)
    }

    /// Returns the handle registered under `program_name`, if any; no side
    /// effects.
    pub fn get_shader_program(&self, program_name: &String) -> (r: Option<u32>)
        ensures
            r is Some <==> self.registry().contains_name(program_name@),
            match r {
                Some(h) => exists|k: int|
                    0 <= k < self.registry().entries().len()
                        && (#[trigger] self.registry().entries()[k]) == (program_name@, h),
                None => !self.registry().contains_name(program_name@),
            },
    {
        let r = self.shader_programs.lookup(program_name);
        proof {
            if let Some(h) = r {
                let k0 = choose|k: int|
                    0 <= k < self.shader_programs.entries().len() && (
                    #[trigger] self.shader_programs.entries()[k]) == (program_name@, h);
                assert((self.registry().entries()[k0]) == (program_name@, h));
            }
        }
        r
    }
}

} // verus!
