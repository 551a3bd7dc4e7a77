use quad_pipeline::assembler::{Assembler, AssemblerAction};
use quad_pipeline::builder::{
    command_of, BoundProgram, BuildCommand, BuildError, BuildEvent, BuildPhase, PipelineBuilder,
};
use quad_pipeline::channel::Channel;
use quad_pipeline::loader::{AcquisitionError, FetchOutcome, Loader};
use quad_pipeline::message::{Delivery, ShaderMessage, ShaderStage};
use quad_pipeline::scene::{
    attribute_name, layout, model_factors, projection_transform, quad_indices, quad_vertices,
    scene_commands, uniform_name, view_transform, Attribute, AttributeLayout, Factor, Frustum,
    IndexType, LookAt, SceneCommand, Topology, Uniform, Vector,
};
use quad_pipeline::upload::{
    BufferId, BufferTarget, BufferUpload, UploadCommand, UploadError, UploadEvent, UploadPhase,
};

fn sources(vertex: &str, fragment: &str) -> quad_pipeline::assembler::ShaderSources {
    let mut a = Assembler::new();
    a.step(Delivery::Message(ShaderMessage::new(ShaderStage::Vertex, vertex.to_string())));
    a.step(Delivery::Message(ShaderMessage::new(ShaderStage::Fragment, fragment.to_string())));
    a.into_sources().unwrap()
}

fn bound_program() -> BoundProgram {
    let (mut builder, _) = PipelineBuilder::begin(sources("vs", "fs"));
    for e in [
        BuildEvent::Created,
        BuildEvent::Created,
        BuildEvent::Status(true),
        BuildEvent::Status(true),
        BuildEvent::Created,
        BuildEvent::Status(true),
        BuildEvent::Done,
    ] {
        builder.advance(e);
    }
    builder.finish().unwrap().unwrap()
}

fn run_upload(target: BufferTarget, events: &[UploadEvent]) -> (BufferUpload, Vec<UploadCommand>) {
    let (mut u, first) = BufferUpload::begin(&bound_program(), target);
    let mut commands = vec![first];
    for e in events {
        commands.push(u.advance(*e));
    }
    (u, commands)
}

fn binding_after(commands: &[UploadCommand], target: BufferTarget, start: Option<BufferId>) -> Option<BufferId> {
    let mut bound = start;
    for c in commands {
        match *c {
            UploadCommand::Bind { target: t, buffer } if t == target => bound = Some(buffer),
            UploadCommand::Unbind { target: t } if t == target => bound = None,
            _ => {}
        }
    }
    bound
}

#[test]
fn build_follows_the_successful_path() {
    let (mut b, first) = PipelineBuilder::begin(sources("vs", "fs"));
    assert_eq!(first, BuildCommand::CreateShader(ShaderStage::Vertex));
    assert_eq!(b.source(ShaderStage::Vertex), "vs");
    assert_eq!(b.source(ShaderStage::Fragment), "fs");
    assert_eq!(b.advance(BuildEvent::Created), BuildCommand::CreateShader(ShaderStage::Fragment));
    assert_eq!(b.advance(BuildEvent::Created), BuildCommand::CompileShader(ShaderStage::Vertex));
    assert_eq!(b.advance(BuildEvent::Status(true)), BuildCommand::CompileShader(ShaderStage::Fragment));
    assert_eq!(b.advance(BuildEvent::Status(true)), BuildCommand::CreateProgram);
    assert_eq!(b.advance(BuildEvent::Created), BuildCommand::LinkProgram);
    assert_eq!(b.advance(BuildEvent::Status(true)), BuildCommand::UseProgram);
    assert!(!b.is_finished());
    assert_eq!(b.phase(), BuildPhase::Binding);
    assert_eq!(b.advance(BuildEvent::Done), BuildCommand::Stop);
    assert_eq!(b.phase(), BuildPhase::Bound);
    assert!(b.is_finished());
    assert_eq!(b.advance(BuildEvent::Status(false)), BuildCommand::Stop);
    assert_eq!(b.phase(), BuildPhase::Bound);
    assert!(matches!(b.finish(), Some(Ok(_))));
}

#[test]
fn build_surfaces_vertex_compile_log() {
    let (mut b, _) = PipelineBuilder::begin(sources("void main( {", "fs"));
    b.advance(BuildEvent::Created);
    b.advance(BuildEvent::Created);
    assert_eq!(b.advance(BuildEvent::Status(false)), BuildCommand::ReadCompileLog(ShaderStage::Vertex));
    assert_eq!(b.phase(), BuildPhase::ReadingCompileLog(ShaderStage::Vertex));
    assert_eq!(b.advance(BuildEvent::Log("ERROR: 0:1: syntax error".to_string())), BuildCommand::Stop);
    assert_eq!(b.phase(), BuildPhase::Failed);
    assert_eq!(b.advance(BuildEvent::Created), BuildCommand::Stop);
    match b.finish() {
        Some(Err(BuildError::Compile { stage, log })) => {
            assert_eq!(stage, ShaderStage::Vertex);
            assert_eq!(log, "ERROR: 0:1: syntax error");
        }
        other => panic!("unexpected {:?}", other),
    }
}

#[test]
fn build_surfaces_fragment_compile_log() {
    let (mut b, _) = PipelineBuilder::begin(sources("vs", "bad"));
    b.advance(BuildEvent::Created);
    b.advance(BuildEvent::Created);
    b.advance(BuildEvent::Status(true));
    assert_eq!(b.advance(BuildEvent::Status(false)), BuildCommand::ReadCompileLog(ShaderStage::Fragment));
    b.advance(BuildEvent::Log("bad fragment".to_string()));
    match b.finish() {
        Some(Err(BuildError::Compile { stage, log })) => {
            assert_eq!(stage, ShaderStage::Fragment);
            assert_eq!(log, "bad fragment");
        }
        other => panic!("unexpected {:?}", other),
    }
}

#[test]
fn build_surfaces_link_log() {
    let (mut b, _) = PipelineBuilder::begin(sources("vs", "fs"));
    for e in [BuildEvent::Created, BuildEvent::Created, BuildEvent::Status(true), BuildEvent::Status(true), BuildEvent::Created] {
        b.advance(e);
    }
    assert_eq!(b.advance(BuildEvent::Status(false)), BuildCommand::ReadLinkLog);
    assert_eq!(b.advance(BuildEvent::Log("varying mismatch".to_string())), BuildCommand::Stop);
    match b.finish() {
        Some(Err(BuildError::Link { log })) => assert_eq!(log, "varying mismatch"),
        other => panic!("unexpected {:?}", other),
    }
}

#[test]
fn build_reports_missing_objects() {
    let (mut b, _) = PipelineBuilder::begin(sources("vs", "fs"));
    assert_eq!(b.advance(BuildEvent::Unavailable), BuildCommand::Stop);
    assert!(matches!(b.finish(), Some(Err(BuildError::ShaderUnavailable(ShaderStage::Vertex)))));

    let (mut b, _) = PipelineBuilder::begin(sources("vs", "fs"));
    b.advance(BuildEvent::Created);
    b.advance(BuildEvent::Unavailable);
    assert!(matches!(b.finish(), Some(Err(BuildError::ShaderUnavailable(ShaderStage::Fragment)))));

    let (mut b, _) = PipelineBuilder::begin(sources("vs", "fs"));
    for e in [BuildEvent::Created, BuildEvent::Created, BuildEvent::Status(true), BuildEvent::Status(true)] {
        b.advance(e);
    }
    b.advance(BuildEvent::Unavailable);
    assert!(matches!(b.finish(), Some(Err(BuildError::ProgramUnavailable))));
}

#[test]
fn build_rejects_an_answer_that_does_not_fit() {
    let (mut b, _) = PipelineBuilder::begin(sources("vs", "fs"));
    assert_eq!(b.advance(BuildEvent::Status(true)), BuildCommand::Stop);
    assert_eq!(b.phase(), BuildPhase::Failed);
    assert!(matches!(b.finish(), Some(Err(BuildError::UnexpectedEvent))));
}

#[test]
fn build_under_way_has_no_result() {
    let (mut b, _) = PipelineBuilder::begin(sources("vs", "fs"));
    b.advance(BuildEvent::Created);
    assert!(b.finish().is_none());
    assert_eq!(command_of(BuildPhase::Linking), BuildCommand::LinkProgram);
    assert_eq!(command_of(BuildPhase::Failed), BuildCommand::Stop);
}

#[test]
fn upload_binds_uploads_and_unbinds() {
    let id = BufferId(7);
    let t = BufferTarget::Array;
    let (u, commands) = run_upload(t, &[UploadEvent::Created(id), UploadEvent::Done, UploadEvent::Done, UploadEvent::Done]);
    assert_eq!(
        commands,
        vec![
            UploadCommand::CreateBuffer,
            UploadCommand::Bind { target: t, buffer: id },
            UploadCommand::Upload { target: t, buffer: id },
            UploadCommand::Unbind { target: t },
            UploadCommand::Return,
        ]
    );
    assert_eq!(u.target(), t);
    assert_eq!(u.phase(), UploadPhase::Finished(Ok(id)));
    assert_eq!(u.result(), Some(Ok(id)));
    assert_eq!(binding_after(&commands, t, Some(BufferId(99))), None);
}

#[test]
fn upload_unbinds_on_every_failure() {
    let id = BufferId(3);
    let t = BufferTarget::ElementArray;
    let cases: Vec<(Vec<UploadEvent>, UploadError)> = vec![
        (vec![UploadEvent::Failed, UploadEvent::Done], UploadError::BufferUnavailable),
        (vec![UploadEvent::Done, UploadEvent::Done], UploadError::BufferUnavailable),
        (vec![UploadEvent::Created(id), UploadEvent::Failed, UploadEvent::Done], UploadError::BindFailed),
        (vec![UploadEvent::Created(id), UploadEvent::Done, UploadEvent::Failed, UploadEvent::Failed], UploadError::UploadFailed),
    ];
    for (events, error) in cases {
        let (u, commands) = run_upload(t, &events);
        assert_eq!(u.result(), Some(Err(error)));
        assert_eq!(commands[commands.len() - 2], UploadCommand::Unbind { target: t });
        assert_eq!(commands[commands.len() - 1], UploadCommand::Return);
        assert_eq!(binding_after(&commands, t, Some(BufferId(99))), None);
        assert_eq!(binding_after(&commands, t, None), None);
    }
}

#[test]
fn upload_under_way_has_no_result() {
    let (u, commands) = run_upload(BufferTarget::Array, &[UploadEvent::Created(BufferId(1))]);
    assert_eq!(u.result(), None);
    assert_eq!(u.phase(), UploadPhase::Binding(BufferId(1)));
    assert_eq!(binding_after(&commands, BufferTarget::Array, None), Some(BufferId(1)));
    let (mut u, _) = run_upload(BufferTarget::Array, &[UploadEvent::Created(BufferId(1)), UploadEvent::Done, UploadEvent::Done, UploadEvent::Done]);
    assert_eq!(u.advance(UploadEvent::Created(BufferId(2))), UploadCommand::Return);
    assert_eq!(u.result(), Some(Ok(BufferId(1))));
}

#[test]
fn quad_geometry_is_exact() {
    assert_eq!(
        quad_vertices(),
        vec![
            -30, 30, 0, 0, 1, 0, 1,
            -30, -30, 0, 1, 0, 0, 1,
            30, 30, 0, 1, 0, 0, 1,
            30, -30, 0, 0, 0, 1, 1,
        ]
    );
    assert_eq!(quad_indices(), vec![0u16, 1, 2, 1, 3, 2]);
}

#[test]
fn vertex_layout_is_seven_floats_of_four_bytes() {
    assert_eq!(layout(Attribute::Position), AttributeLayout { components: 3, stride: 28, offset: 0 });
    assert_eq!(layout(Attribute::Color), AttributeLayout { components: 4, stride: 28, offset: 12 });
    assert_eq!(quad_vertices().len() * 4, 4 * 28);
}

#[test]
fn names_of_attributes_and_uniforms() {
    assert_eq!(attribute_name(Attribute::Position), "vertex_position");
    assert_eq!(attribute_name(Attribute::Color), "color");
    assert_eq!(uniform_name(Uniform::Model), "model");
    assert_eq!(uniform_name(Uniform::View), "view");
    assert_eq!(uniform_name(Uniform::Projection), "projection");
}

#[test]
fn transforms_of_the_scene() {
    assert_eq!(
        model_factors(),
        vec![
            Factor::Translate { x: 40, y: 0, z: -20 },
            Factor::RotateZ { numerator: 1, denominator: 8 },
            Factor::Scale { x: 1, y: 1, z: 1 },
        ]
    );
    assert_eq!(
        view_transform(),
        LookAt {
            eye: Vector { x: 0, y: 60, z: 90 },
            target: Vector { x: 0, y: 0, z: 0 },
            up: Vector { x: 0, y: 1, z: 0 },
        }
    );
    assert_eq!(
        projection_transform(),
        Frustum { left: -40, right: 40, bottom: -40, top: 40, near: 30, far: 150 }
    );
}

fn factor_matrix(factor: Factor) -> [f32; 16] {
    let identity = gl_matrix::mat4::create();
    let mut out = gl_matrix::mat4::create();
    match factor {
        Factor::Scale { x, y, z } => {
            gl_matrix::mat4::scale(&mut out, &identity, &[x as f32, y as f32, z as f32]);
        }
        Factor::RotateZ { numerator, denominator } => {
            let angle = std::f32::consts::PI * numerator as f32 / denominator as f32;
            gl_matrix::mat4::rotate_z(&mut out, &identity, angle);
        }
        Factor::Translate { x, y, z } => {
            gl_matrix::mat4::translate(&mut out, &identity, &[x as f32, y as f32, z as f32]);
        }
    }
    out
}

fn product(factors: &[Factor]) -> [f32; 16] {
    let mut out = gl_matrix::mat4::create();
    for factor in factors {
        let left = out;
        gl_matrix::mat4::multiply(&mut out, &left, &factor_matrix(*factor));
    }
    out
}

#[test]
fn model_product_is_translation_times_rotation_times_scale() {
    let angle = std::f32::consts::PI / 8.0;
    let (c, s) = (angle.cos(), angle.sin());
    let model = product(&model_factors());
    assert_eq!(
        model,
        [c, s, 0.0, 0.0, -s, c, 0.0, 0.0, 0.0, 0.0, 1.0, 0.0, 40.0, 0.0, -20.0, 1.0]
    );
}

#[test]
fn model_product_depends_on_the_order() {
    let angle = std::f32::consts::PI / 8.0;
    let (c, s) = (angle.cos(), angle.sin());
    let factors = model_factors();
    let model = product(&factors);
    let swapped = product(&[factors[1], factors[0], factors[2]]);
    assert_eq!(
        swapped,
        [c, s, 0.0, 0.0, -s, c, 0.0, 0.0, 0.0, 0.0, 1.0, 0.0, 40.0 * c, 40.0 * s, -20.0, 1.0]
    );
    assert_ne!(model, swapped);
}

#[test]
fn scenario_valid_sources_draw_once() {
    let mut channel = Channel::new(32);
    let vs = channel.open_sender().unwrap();
    let fs = channel.open_sender().unwrap();
    let fragment_loader = Loader::new(ShaderStage::Fragment, fs)
        .fetched(FetchOutcome::Text("fs".to_string()))
        .offer(&mut channel);
    let vertex_loader = Loader::new(ShaderStage::Vertex, vs)
        .fetched(FetchOutcome::Text("vs".to_string()))
        .offer(&mut channel);
    assert!(fragment_loader.is_done() && vertex_loader.is_done());
    channel.release_sender();
    channel.release_sender();

    let mut assembler = Assembler::new();
    assert_eq!(assembler.drain(&mut channel).action, AssemblerAction::Build);
    let (mut builder, _) = PipelineBuilder::begin(assembler.into_sources().unwrap());
    for e in [
        BuildEvent::Created,
        BuildEvent::Created,
        BuildEvent::Status(true),
        BuildEvent::Status(true),
        BuildEvent::Created,
        BuildEvent::Status(true),
        BuildEvent::Done,
    ] {
        builder.advance(e);
    }
    let program = builder.finish().unwrap().unwrap();

    let answers = |id| [UploadEvent::Created(BufferId(id)), UploadEvent::Done, UploadEvent::Done, UploadEvent::Done];
    let (vertices, _) = run_upload(BufferTarget::Array, &answers(1));
    let (indices, _) = run_upload(BufferTarget::ElementArray, &answers(2));
    let vb = vertices.result().unwrap().unwrap();
    let ib = indices.result().unwrap().unwrap();
    assert_eq!(quad_vertices().len(), 4 * 7);
    assert_eq!(quad_indices().len(), 6);

    let commands = scene_commands(&program, vb, ib);
    assert_eq!(
        commands,
        vec![
            SceneCommand::SetUniform(Uniform::Model),
            SceneCommand::SetUniform(Uniform::View),
            SceneCommand::SetUniform(Uniform::Projection),
            SceneCommand::BindBuffer { target: BufferTarget::Array, buffer: BufferId(1) },
            SceneCommand::EnableAttribute(Attribute::Position),
            SceneCommand::EnableAttribute(Attribute::Color),
            SceneCommand::AttributePointer {
                attribute: Attribute::Position,
                layout: AttributeLayout { components: 3, stride: 28, offset: 0 },
            },
            SceneCommand::AttributePointer {
                attribute: Attribute::Color,
                layout: AttributeLayout { components: 4, stride: 28, offset: 12 },
            },
            SceneCommand::BindBuffer { target: BufferTarget::ElementArray, buffer: BufferId(2) },
            SceneCommand::DrawIndexed {
                topology: Topology::Triangles,
                count: 6,
                index_type: IndexType::UnsignedShort,
                offset: 0,
            },
            SceneCommand::Flush,
        ]
    );
    let draws = commands.iter().filter(|c| matches!(c, SceneCommand::DrawIndexed { .. })).count();
    assert_eq!(draws, 1);
}

#[test]
fn scenario_syntax_error_gives_error_and_no_draw() {
    let (mut builder, _) = PipelineBuilder::begin(sources("void main( {", "fs"));
    builder.advance(BuildEvent::Created);
    builder.advance(BuildEvent::Created);
    builder.advance(BuildEvent::Status(false));
    builder.advance(BuildEvent::Log("ERROR: 0:1: '{' : syntax error".to_string()));
    match builder.finish() {
        Some(Err(BuildError::Compile { stage: ShaderStage::Vertex, log })) => assert!(!log.is_empty()),
        other => panic!("unexpected {:?}", other),
    }
}

#[test]
fn scenario_failed_fetch_aborts_before_completion() {
    let mut channel = Channel::new(32);
    let vs = channel.open_sender().unwrap();
    let fs = channel.open_sender().unwrap();
    let vertex_loader = Loader::new(ShaderStage::Vertex, vs)
        .fetched(FetchOutcome::Text("vs".to_string()))
        .offer(&mut channel);
    assert!(vertex_loader.is_done());
    let fragment_loader = Loader::new(ShaderStage::Fragment, fs)
        .fetched(FetchOutcome::Failed(AcquisitionError::FetchFailed))
        .offer(&mut channel);
    assert_eq!(fragment_loader.failure(), Some(AcquisitionError::FetchFailed));
    channel.release_sender();
    channel.release_sender();
    let mut assembler = Assembler::new();
    assert_eq!(assembler.drain(&mut channel).action, AssemblerAction::Abort);
    assert!(!assembler.is_complete());
    assert!(assembler.into_sources().is_none());
}
