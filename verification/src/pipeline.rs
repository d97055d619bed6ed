use vstd::prelude::*;

verus! {

/// Which of the two transient shader objects of a program pair a command
/// refers to.
#[derive(Clone, Copy, PartialEq, Eq, Structural, Debug)]
pub enum ShaderKind {
    Vertex,
    Fragment,
}

/// The stage at which shader-program construction failed.
#[derive(Clone, Copy, PartialEq, Eq, Structural, Debug)]
pub enum ShaderStage {
    Vertex,
    Fragment,
    Link,
}

/// One graphics-backend call the pipeline asks its driver to perform. The
/// driver executes the commands of each step in order and reports the
/// compile or link status back to the pipeline.
#[derive(Clone, Copy, PartialEq, Eq, Structural, Debug)]
pub enum GlCommand {
    CreateShader(ShaderKind),
    CompileShader(ShaderKind),
    DeleteShader(ShaderKind),
    CreateProgram,
    AttachShader(ShaderKind),
    LinkProgram,
    DetachShader(ShaderKind),
    DeleteProgram,
}

/// The states of the compile/link state machine. Every failure exit carries
/// the stage that failed.
#[derive(Clone, Copy, PartialEq, Eq, Structural, Debug)]
pub enum PipelineState {
    CompilingVertex,
    CompilingFragment,
    Linking,
    Linked,
    Failed(ShaderStage),
}

/// The shader compile/link state machine. It decides, for every compile or
/// link outcome, which backend commands run next, and accounts for every
/// transient object it asked the driver to create or delete: on every exit,
/// success or failure, no intermediate shader object stays allocated, and a
/// program object survives only a successful link.
pub struct ShaderPipeline {
    state: PipelineState,
    shaders_created: u64,
    shaders_deleted: u64,
    programs_created: u64,
    programs_deleted: u64,
}

impl ShaderPipeline {
    /// The current state of the machine.
    pub closed spec fn state(self) -> PipelineState {
        self.state
    }

    /// How many transient shader objects the emitted commands create.
    pub closed spec fn shaders_created(self) -> u64 {
        self.shaders_created
    }

    /// How many transient shader objects the emitted commands delete.
    pub closed spec fn shaders_deleted(self) -> u64 {
        self.shaders_deleted
    }

    /// How many program objects the emitted commands create.
    pub closed spec fn programs_created(self) -> u64 {
        self.programs_created
    }

    /// How many program objects the emitted commands delete.
    pub closed spec fn programs_deleted(self) -> u64 {
        self.programs_deleted
    }

    /// Each state pins the object accounting exactly; in particular every
    /// failure state has deletes equal to creates.
    pub open spec fn wf(self) -> bool {
        match self.state() {
            PipelineState::CompilingVertex => self.counters_are(1, 0, 0, 0),
            PipelineState::CompilingFragment => self.counters_are(2, 0, 0, 0),
            PipelineState::Linking => self.counters_are(2, 0, 1, 0),
            PipelineState::Linked => self.counters_are(2, 2, 1, 0),
            PipelineState::Failed(ShaderStage::Vertex) => self.counters_are(1, 1, 0, 0),
            PipelineState::Failed(ShaderStage::Fragment) => self.counters_are(2, 2, 0, 0),
            PipelineState::Failed(ShaderStage::Link) => self.counters_are(2, 2, 1, 1),
        }
    }

    pub open spec fn counters_are(self, sc: u64, sd: u64, pc: u64, pd: u64) -> bool {
        self.shaders_created() == sc && self.shaders_deleted() == sd && self.programs_created()
            == pc && self.programs_deleted() == pd
    }

    /// A terminal state: a failure exit or a successful link.
    pub open spec fn is_terminal(self) -> bool {
        self.state() == PipelineState::Linked || self.state() matches PipelineState::Failed(_)
    }

    /// The current state of the machine, for drivers and diagnostics.
    pub fn current_state(&self) -> (s: PipelineState)
        ensures
            s == self.state(),
    {
        self.state
    }

    /// The object accounting so far: shader creates, shader deletes,
    /// program creates and program deletes issued by the emitted commands.
    pub fn current_counters(&self) -> (r: (u64, u64, u64, u64))
        ensures
            r == (
                self.shaders_created(),
                self.shaders_deleted(),
                self.programs_created(),
                self.programs_deleted(),
            ),
    {
        (self.shaders_created, self.shaders_deleted, self.programs_created, self.programs_deleted)
    }

    /// Starts a compilation: the driver is asked to create and compile the
    /// vertex-stage shader object.
    pub fn start() -> (r: (ShaderPipeline, Vec<GlCommand>))
        ensures
            r.0 == spec_start(),
            r.0.wf(),
            r.0.state() == PipelineState::CompilingVertex,
            r.1@ == spec_start_commands(),
    {
        let p = ShaderPipeline {
            state: PipelineState::CompilingVertex,
            shaders_created: 1,
            shaders_deleted: 0,
            programs_created: 0,
            programs_deleted: 0,
        };
        let mut cmds: Vec<GlCommand> = Vec::new();
        cmds.push(GlCommand::CreateShader(ShaderKind::Vertex));
        cmds.push(GlCommand::CompileShader(ShaderKind::Vertex));
        proof {
            assert(cmds@ =~= spec_start_commands());
        }
        (p, cmds)
    }

    /// Feeds the vertex-stage compile status back. On failure the vertex
    /// shader object is deleted and the machine fails at the vertex stage;
    /// on success the fragment-stage object is created and compiled.
    pub fn on_vertex_result(&mut self, ok: bool) -> (cmds: Vec<GlCommand>)
        requires
            old(self).state() == PipelineState::CompilingVertex,
            old(self).wf(),
        ensures
            *final(self) == spec_vertex_step(*old(self), ok),
            final(self).wf(),
            cmds@ == spec_vertex_commands(ok),
            !ok ==> final(self).state() == PipelineState::Failed(ShaderStage::Vertex),
            ok ==> final(self).state() == PipelineState::CompilingFragment,
    {
        let mut cmds: Vec<GlCommand> = Vec::new();
        if ok {
            self.state = PipelineState::CompilingFragment;
            self.shaders_created = 2;
            cmds.push(GlCommand::CreateShader(ShaderKind::Fragment));
            cmds.push(GlCommand::CompileShader(ShaderKind::Fragment));
        } else {
            self.state = PipelineState::Failed(ShaderStage::Vertex);
            self.shaders_deleted = 1;
            cmds.push(GlCommand::DeleteShader(ShaderKind::Vertex));
        }
        proof {
            assert(cmds@ =~= spec_vertex_commands(ok));
        }
        cmds
    }

    /// Feeds the fragment-stage compile status back. On failure both shader
    /// objects are deleted and the machine fails at the fragment stage; on
    /// success a program object is created, both shaders are attached, and
    /// the program is linked.
    pub fn on_fragment_result(&mut self, ok: bool) -> (cmds: Vec<GlCommand>)
        requires
            old(self).state() == PipelineState::CompilingFragment,
            old(self).wf(),
        ensures
            *final(self) == spec_fragment_step(*old(self), ok),
            final(self).wf(),
            cmds@ == spec_fragment_commands(ok),
            !ok ==> final(self).state() == PipelineState::Failed(ShaderStage::Fragment),
            ok ==> final(self).state() == PipelineState::Linking,
    {
        let mut cmds: Vec<GlCommand> = Vec::new();
        if ok {
            self.state = PipelineState::Linking;
            self.programs_created = 1;
            cmds.push(GlCommand::CreateProgram);
            cmds.push(GlCommand::AttachShader(ShaderKind::Vertex));
            cmds.push(GlCommand::AttachShader(ShaderKind::Fragment));
            cmds.push(GlCommand::LinkProgram);
        } else {
            self.state = PipelineState::Failed(ShaderStage::Fragment);
            self.shaders_deleted = 2;
            cmds.push(GlCommand::DeleteShader(ShaderKind::Vertex));
            cmds.push(GlCommand::DeleteShader(ShaderKind::Fragment));
        }
        proof {
            assert(cmds@ =~= spec_fragment_commands(ok));
        }
        cmds
    }

    /// Feeds the link status back. Either way both transient shader objects
    /// are detached and deleted; on failure the program object is deleted
    /// too and the machine fails at the link stage, on success the linked
    /// program is retained and the machine is done.
    pub fn on_link_result(&mut self, ok: bool) -> (cmds: Vec<GlCommand>)
        requires
            old(self).state() == PipelineState::Linking,
            old(self).wf(),
        ensures
            *final(self) == spec_link_step(*old(self), ok),
            final(self).wf(),
            cmds@ == spec_link_commands(ok),
            !ok ==> final(self).state() == PipelineState::Failed(ShaderStage::Link),
            ok ==> final(self).state() == PipelineState::Linked,
    {
        let mut cmds: Vec<GlCommand> = Vec::new();
        cmds.push(GlCommand::DetachShader(ShaderKind::Vertex));
        cmds.push(GlCommand::DetachShader(ShaderKind::Fragment));
        cmds.push(GlCommand::DeleteShader(ShaderKind::Vertex));
        cmds.push(GlCommand::DeleteShader(ShaderKind::Fragment));
        self.shaders_deleted = 2;
        if ok {
            self.state = PipelineState::Linked;
        } else {
            self.state = PipelineState::Failed(ShaderStage::Link);
            self.programs_deleted = 1;
            cmds.push(GlCommand::DeleteProgram);
        }
        proof {
            assert(cmds@ =~= spec_link_commands(ok));
        }
        cmds
    }
}

/// The machine right after `start`.
pub closed spec fn spec_start() -> ShaderPipeline {
    ShaderPipeline {
        state: PipelineState::CompilingVertex,
        shaders_created: 1,
        shaders_deleted: 0,
        programs_created: 0,
        programs_deleted: 0,
    }
}

/// The commands `start` emits.
pub open spec fn spec_start_commands() -> Seq<GlCommand> {
    seq![
        GlCommand::CreateShader(ShaderKind::Vertex),
        GlCommand::CompileShader(ShaderKind::Vertex),
    ]
}

/// The transition taken on the vertex-stage compile status.
pub closed spec fn spec_vertex_step(p: ShaderPipeline, ok: bool) -> ShaderPipeline {
    if ok {
        ShaderPipeline { state: PipelineState::CompilingFragment, shaders_created: 2, ..p }
    } else {
        ShaderPipeline { state: PipelineState::Failed(ShaderStage::Vertex), shaders_deleted: 1, ..p }
    }
}

/// The commands emitted on the vertex-stage compile status.
pub open spec fn spec_vertex_commands(ok: bool) -> Seq<GlCommand> {
    if ok {
        seq![
            GlCommand::CreateShader(ShaderKind::Fragment),
            GlCommand::CompileShader(ShaderKind::Fragment),
        ]
    } else {
        seq![GlCommand::DeleteShader(ShaderKind::Vertex)]
    }
}

/// The transition taken on the fragment-stage compile status.
pub closed spec fn spec_fragment_step(p: ShaderPipeline, ok: bool) -> ShaderPipeline {
    if ok {
        ShaderPipeline { state: PipelineState::Linking, programs_created: 1, ..p }
    } else {
        ShaderPipeline {
            state: PipelineState::Failed(ShaderStage::Fragment),
            shaders_deleted: 2,
            ..p
        }
    }
}

/// The commands emitted on the fragment-stage compile status.
pub open spec fn spec_fragment_commands(ok: bool) -> Seq<GlCommand> {
    if ok {
        seq![
            GlCommand::CreateProgram,
            GlCommand::AttachShader(ShaderKind::Vertex),
            GlCommand::AttachShader(ShaderKind::Fragment),
            GlCommand::LinkProgram,
        ]
    } else {
        seq![
            GlCommand::DeleteShader(ShaderKind::Vertex),
            GlCommand::DeleteShader(ShaderKind::Fragment),
        ]
    }
}

/// The transition taken on the link status.
pub closed spec fn spec_link_step(p: ShaderPipeline, ok: bool) -> ShaderPipeline {
    if ok {
        ShaderPipeline { state: PipelineState::Linked, shaders_deleted: 2, ..p }
    } else {
        ShaderPipeline {
            state: PipelineState::Failed(ShaderStage::Link),
            shaders_deleted: 2,
            programs_deleted: 1,
            ..p
        }
    }
}

/// The commands emitted on the link status.
pub open spec fn spec_link_commands(ok: bool) -> Seq<GlCommand> {
    let shared = seq![
        GlCommand::DetachShader(ShaderKind::Vertex),
        GlCommand::DetachShader(ShaderKind::Fragment),
        GlCommand::DeleteShader(ShaderKind::Vertex),
        GlCommand::DeleteShader(ShaderKind::Fragment),
    ];
    if ok {
        shared
    } else {
        shared.push(GlCommand::DeleteProgram)
    }
}

/// A whole run of the machine, with the three stage outcomes injected: the
/// run stops at the first failed stage.
pub open spec fn spec_run(vertex_ok: bool, fragment_ok: bool, link_ok: bool) -> ShaderPipeline {
    let p1 = spec_vertex_step(spec_start(), vertex_ok);
    if !vertex_ok {
        p1
    } else {
        let p2 = spec_fragment_step(p1, fragment_ok);
        if !fragment_ok {
            p2
        } else {
            spec_link_step(p2, link_ok)
        }
    }
}

/// Law: for every injected failure point of the compile/link pipeline the
/// cleanup is complete — the run ends in a terminal state; on a failure exit
/// the deletes issued for transient shader objects and for program objects
/// equal the creates issued for them, so nothing stays allocated; and on
/// success only the two transient shader objects are deleted while the
/// linked program object is retained.
pub proof fn lemma_pipeline_no_leaks(vertex_ok: bool, fragment_ok: bool, link_ok: bool)
    ensures
        ({
            let p = spec_run(vertex_ok, fragment_ok, link_ok);
            &&& p.wf()
            &&& p.is_terminal()
            &&& (p.state() matches PipelineState::Failed(_) ==> {
                &&& p.shaders_deleted() == p.shaders_created()
                &&& p.programs_deleted() == p.programs_created()
            })
            &&& ((vertex_ok && fragment_ok && link_ok) <==> p.state() == PipelineState::Linked)
            &&& (p.state() == PipelineState::Linked ==> p.shaders_deleted() == p.shaders_created()
                && p.programs_created() == 1 && p.programs_deleted() == 0)
        }),
{
}

} // verus!
