use engine2d::{GlCommand, PipelineState, ShaderKind, ShaderPipeline, ShaderStage};

fn run_pipeline(
    vertex_ok: bool,
    fragment_ok: bool,
    link_ok: bool,
) -> (ShaderPipeline, Vec<GlCommand>) {
    let (mut p, mut commands) = ShaderPipeline::start();
    let mut step = p.on_vertex_result(vertex_ok);
    commands.append(&mut step);
    if vertex_ok {
        let mut step = p.on_fragment_result(fragment_ok);
        commands.append(&mut step);
        if fragment_ok {
            let mut step = p.on_link_result(link_ok);
            commands.append(&mut step);
        }
    }
    (p, commands)
}

fn shader_creates(commands: &[GlCommand]) -> usize {
    commands.iter().filter(|c| matches!(c, GlCommand::CreateShader(_))).count()
}

fn shader_deletes(commands: &[GlCommand]) -> usize {
    commands.iter().filter(|c| matches!(c, GlCommand::DeleteShader(_))).count()
}

fn program_creates(commands: &[GlCommand]) -> usize {
    commands.iter().filter(|c| matches!(c, GlCommand::CreateProgram)).count()
}

fn program_deletes(commands: &[GlCommand]) -> usize {
    commands.iter().filter(|c| matches!(c, GlCommand::DeleteProgram)).count()
}

#[test]
fn fail_at_vertex_cleans_up_everything() {
    let (p, commands) = run_pipeline(false, true, true);
    assert_eq!(p.current_state(), PipelineState::Failed(ShaderStage::Vertex));
    assert_eq!(shader_creates(&commands), 1);
    assert_eq!(shader_deletes(&commands), 1);
    assert_eq!(program_creates(&commands), 0);
    assert_eq!(program_deletes(&commands), 0);
    assert_eq!(p.current_counters(), (1, 1, 0, 0));
}

#[test]
fn fail_at_fragment_cleans_up_everything() {
    let (p, commands) = run_pipeline(true, false, true);
    assert_eq!(p.current_state(), PipelineState::Failed(ShaderStage::Fragment));
    assert_eq!(shader_creates(&commands), 2);
    assert_eq!(shader_deletes(&commands), 2);
    assert_eq!(program_creates(&commands), 0);
    assert_eq!(program_deletes(&commands), 0);
    assert_eq!(p.current_counters(), (2, 2, 0, 0));
}

#[test]
fn fail_at_link_cleans_up_everything() {
    let (p, commands) = run_pipeline(true, true, false);
    assert_eq!(p.current_state(), PipelineState::Failed(ShaderStage::Link));
    assert_eq!(shader_creates(&commands), 2);
    assert_eq!(shader_deletes(&commands), 2);
    assert_eq!(program_creates(&commands), 1);
    assert_eq!(program_deletes(&commands), 1);
    assert_eq!(p.current_counters(), (2, 2, 1, 1));
}

#[test]
fn successful_link_retains_only_the_program() {
    let (p, commands) = run_pipeline(true, true, true);
    assert_eq!(p.current_state(), PipelineState::Linked);
    // The transient shader objects are gone; the program object survives.
    assert_eq!(shader_creates(&commands), 2);
    assert_eq!(shader_deletes(&commands), 2);
    assert_eq!(program_creates(&commands), 1);
    assert_eq!(program_deletes(&commands), 0);
    assert_eq!(p.current_counters(), (2, 2, 1, 0));
    let expected = vec![
        GlCommand::CreateShader(ShaderKind::Vertex),
        GlCommand::CompileShader(ShaderKind::Vertex),
        GlCommand::CreateShader(ShaderKind::Fragment),
        GlCommand::CompileShader(ShaderKind::Fragment),
        GlCommand::CreateProgram,
        GlCommand::AttachShader(ShaderKind::Vertex),
        GlCommand::AttachShader(ShaderKind::Fragment),
        GlCommand::LinkProgram,
        GlCommand::DetachShader(ShaderKind::Vertex),
        GlCommand::DetachShader(ShaderKind::Fragment),
        GlCommand::DeleteShader(ShaderKind::Vertex),
        GlCommand::DeleteShader(ShaderKind::Fragment),
    ];
    assert_eq!(commands, expected);
}

#[test]
fn link_failure_detaches_before_deleting() {
    let (_, commands) = run_pipeline(true, true, false);
    let tail = vec![
        GlCommand::DetachShader(ShaderKind::Vertex),
        GlCommand::DetachShader(ShaderKind::Fragment),
        GlCommand::DeleteShader(ShaderKind::Vertex),
        GlCommand::DeleteShader(ShaderKind::Fragment),
        GlCommand::DeleteProgram,
    ];
    assert_eq!(commands[commands.len() - 5..].to_vec(), tail);
}
