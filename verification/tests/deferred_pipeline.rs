use three_d::command::{
    Attachment, Blend, ClearState, Cull, DebugType, DrawCommand, Format, FramebufferTarget,
    GpuCommand, LightKind, MaterialKind, ObjectKind, Program,
};
use three_d::context::{Context, Limits};
use three_d::error::RenderError;
use three_d::light::Light;
use three_d::phong::deferred_pipeline::PassState;
use three_d::phong::{DeferredPipeline, ForwardPipeline, Material};
use three_d::render_target::RenderTarget;
use three_d::scene::{Camera, Geometry};

fn limits() -> Limits {
    Limits { max_texture_size: 4096, max_samples: 8, max_color_attachments: 4 }
}

fn gbuffer_bindings(first: u32) -> Vec<DrawCommand> {
    vec![
        DrawCommand::BindTexture { unit: 0, texture: first },
        DrawCommand::BindTexture { unit: 1, texture: first + 1 },
        DrawCommand::BindTexture { unit: 2, texture: first + 2 },
        DrawCommand::BindTexture { unit: 3, texture: first + 3 },
        DrawCommand::BindTexture { unit: 4, texture: first + 4 },
    ]
}

#[test]
fn a_new_pipeline_waits_for_a_geometry_pass() {
    let pipeline = DeferredPipeline::new();
    assert_eq!(pipeline.state(), PassState::GeometryPassPending);
    assert_eq!(pipeline.debug_type(), DebugType::Off);
    assert_eq!(pipeline.size(), None);
}

#[test]
fn a_lighting_pass_without_a_geometry_pass_is_refused() {
    let mut context = Context::new(limits());
    let mut pipeline = DeferredPipeline::new();
    let camera = Camera { id: 1 };
    let r = pipeline.lighting_pass(&camera, &vec![]);
    assert_eq!(r, Err(RenderError::UnsupportedOperation));
    assert_eq!(pipeline.render_pass(&mut context, 64, 48, &camera, &vec![]), Ok(()));
    assert_eq!(pipeline.state(), PassState::LightingPassPending);
    assert!(pipeline.lighting_pass(&camera, &vec![]).is_ok());
    assert_eq!(pipeline.state(), PassState::GeometryPassPending);
    // The G-buffer was read: a second lighting pass needs a geometry pass first.
    let r = pipeline.lighting_pass(&camera, &vec![]);
    assert_eq!(r, Err(RenderError::UnsupportedOperation));
}

#[test]
fn the_geometry_pass_fills_the_channels_of_the_g_buffer() {
    let mut context = Context::new(limits());
    let mut pipeline = DeferredPipeline::new();
    let objects = vec![(Geometry { id: 2 }, Material::new(MaterialKind::Physical, 3))];
    let r = pipeline.render_pass(&mut context, 64, 48, &Camera { id: 1 }, &objects);
    assert_eq!(r, Ok(()));
    assert_eq!(pipeline.size(), Some((64, 48)));
    let commands = context.take_commands();
    let formats: Vec<Format> = commands
        .iter()
        .filter_map(|command| match command {
            GpuCommand::TextureStorage { format, width, height, .. } => {
                assert_eq!((*width, *height), (64, 48));
                Some(*format)
            }
            _ => None,
        })
        .collect();
    assert_eq!(
        formats,
        vec![Format::Rgba32F, Format::Rgba16F, Format::Rgba8, Format::Rgba8, Format::Depth32F]
    );
    let draw = |command: DrawCommand| GpuCommand::Draw { command };
    let zero = 0.0f32.to_bits();
    assert_eq!(
        commands[10..].to_vec(),
        vec![
            GpuCommand::Create { kind: ObjectKind::Framebuffer, id: 6 },
            GpuCommand::BindFramebuffer { target: FramebufferTarget::Draw, id: Some(6) },
            GpuCommand::FramebufferTexture {
                target: FramebufferTarget::Draw,
                attachment: Attachment::Color(0),
                id: 1,
            },
            GpuCommand::FramebufferTexture {
                target: FramebufferTarget::Draw,
                attachment: Attachment::Color(1),
                id: 2,
            },
            GpuCommand::FramebufferTexture {
                target: FramebufferTarget::Draw,
                attachment: Attachment::Color(2),
                id: 3,
            },
            GpuCommand::FramebufferTexture {
                target: FramebufferTarget::Draw,
                attachment: Attachment::Color(3),
                id: 4,
            },
            GpuCommand::FramebufferTexture {
                target: FramebufferTarget::Draw,
                attachment: Attachment::Depth,
                id: 5,
            },
            GpuCommand::DrawBuffers { count: 4 },
            GpuCommand::Viewport { width: 64, height: 48 },
            GpuCommand::Clear {
                state: ClearState::color_and_depth(zero, zero, zero, zero, 1.0f32.to_bits()),
            },
            draw(DrawCommand::UseProgram { program: Program::Deferred(MaterialKind::Physical) }),
            draw(DrawCommand::SetRenderStates { cull: Cull::Back, blend: Blend::Off }),
            draw(DrawCommand::BindCamera { camera: 1 }),
            draw(DrawCommand::BindMaterial { material: 3 }),
            draw(DrawCommand::DrawGeometry { geometry: 2 }),
            GpuCommand::BindFramebuffer { target: FramebufferTarget::Draw, id: None },
            GpuCommand::Delete { kind: ObjectKind::Framebuffer, id: 6 },
        ]
    );
    assert_eq!(context.draw_framebuffer(), None);
}

#[test]
fn the_lighting_pass_reads_the_g_buffer_and_binds_the_lights() {
    let mut context = Context::new(limits());
    let mut pipeline = DeferredPipeline::new();
    let camera = Camera { id: 1 };
    assert_eq!(pipeline.render_pass(&mut context, 64, 48, &camera, &vec![]), Ok(()));
    let lights = vec![Light::new(LightKind::Ambient, 10), Light::new(LightKind::Point, 30)];
    let draws = pipeline.lighting_pass(&camera, &lights).unwrap();
    let mut expected = vec![
        DrawCommand::UseProgram { program: Program::Lighting(DebugType::Off) },
        DrawCommand::BindCamera { camera: 1 },
    ];
    expected.extend(gbuffer_bindings(1));
    expected.push(DrawCommand::BindLight { light: 10, kind: LightKind::Ambient });
    expected.push(DrawCommand::BindLight { light: 30, kind: LightKind::Point });
    expected.push(DrawCommand::DrawFullScreen { width: 64, height: 48 });
    assert_eq!(draws, expected);
    // The draws go to whatever target is written to.
    let screen = RenderTarget::screen(64, 48);
    assert_eq!(screen.write(&mut context, ClearState::none(), || Ok(draws)), Ok(()));
}

#[test]
fn a_debug_type_shows_a_channel_and_binds_no_light() {
    let mut context = Context::new(limits());
    let mut pipeline = DeferredPipeline::new();
    let camera = Camera { id: 1 };
    pipeline.set_debug_type(DebugType::Normal);
    assert_eq!(pipeline.debug_type(), DebugType::Normal);
    assert_eq!(pipeline.render_pass(&mut context, 64, 48, &camera, &vec![]), Ok(()));
    let lights = vec![Light::new(LightKind::Ambient, 10)];
    let draws = pipeline.lighting_pass(&camera, &lights).unwrap();
    let mut expected = vec![
        DrawCommand::UseProgram { program: Program::Lighting(DebugType::Normal) },
        DrawCommand::BindCamera { camera: 1 },
    ];
    expected.extend(gbuffer_bindings(1));
    expected.push(DrawCommand::DrawFullScreen { width: 64, height: 48 });
    assert_eq!(draws, expected);
}

#[test]
fn the_debug_types_are_stepped_through_in_a_cycle() {
    let mut pipeline = DeferredPipeline::new();
    let mut seen = vec![];
    for _ in 0..7 {
        pipeline.next_debug_type();
        seen.push(pipeline.debug_type());
    }
    assert_eq!(
        seen,
        vec![
            DebugType::Position,
            DebugType::Normal,
            DebugType::Color,
            DebugType::Depth,
            DebugType::Orm,
            DebugType::Uv,
            DebugType::Off,
        ]
    );
}

#[test]
fn a_resized_viewport_reallocates_the_g_buffer() {
    let mut context = Context::new(limits());
    let mut pipeline = DeferredPipeline::new();
    let camera = Camera { id: 1 };
    assert_eq!(pipeline.render_pass(&mut context, 64, 48, &camera, &vec![]), Ok(()));
    assert_eq!(pipeline.size(), Some((64, 48)));
    assert_eq!(context.live_count(ObjectKind::Texture), 5);
    context.take_commands();
    // Same size: the G-buffer is used again.
    assert_eq!(pipeline.render_pass(&mut context, 64, 48, &camera, &vec![]), Ok(()));
    assert_eq!(context.take_commands()[0], GpuCommand::Create { kind: ObjectKind::Framebuffer, id: 7 });
    // New size: the old images are released and new ones created.
    assert_eq!(pipeline.render_pass(&mut context, 640, 480, &camera, &vec![]), Ok(()));
    assert_eq!(pipeline.size(), Some((640, 480)));
    assert_eq!(context.live_count(ObjectKind::Texture), 5);
    for id in 1..=5 {
        assert!(!context.is_live(id, ObjectKind::Texture));
    }
    let commands = context.take_commands();
    for (i, id) in (1..=5).enumerate() {
        assert_eq!(commands[i], GpuCommand::Delete { kind: ObjectKind::Texture, id });
    }
    let draws = pipeline.lighting_pass(&camera, &vec![]).unwrap();
    assert_eq!(draws.last(), Some(&DrawCommand::DrawFullScreen { width: 640, height: 480 }));
    assert_eq!(draws[2], DrawCommand::BindTexture { unit: 0, texture: 8 });
}

#[test]
fn resize_invalidates_what_the_g_buffer_held() {
    let mut context = Context::new(limits());
    let mut pipeline = DeferredPipeline::new();
    let camera = Camera { id: 1 };
    assert_eq!(pipeline.resize(&mut context, 64, 48), Ok(()));
    assert_eq!(pipeline.size(), Some((64, 48)));
    assert_eq!(pipeline.state(), PassState::GeometryPassPending);
    assert_eq!(pipeline.render_pass(&mut context, 64, 48, &camera, &vec![]), Ok(()));
    // Resizing to the size it has keeps the filled G-buffer.
    assert_eq!(pipeline.resize(&mut context, 64, 48), Ok(()));
    assert_eq!(pipeline.state(), PassState::LightingPassPending);
    // Resizing to another size leaves nothing to light.
    assert_eq!(pipeline.resize(&mut context, 32, 48), Ok(()));
    assert_eq!(pipeline.state(), PassState::GeometryPassPending);
    assert_eq!(pipeline.lighting_pass(&camera, &vec![]), Err(RenderError::UnsupportedOperation));
}

#[test]
fn resize_to_an_unsupported_size_fails_and_changes_nothing() {
    let mut context = Context::new(limits());
    let mut pipeline = DeferredPipeline::new();
    let camera = Camera { id: 1 };
    assert_eq!(pipeline.resize(&mut context, 0, 48), Err(RenderError::ResourceAllocationFailure));
    assert_eq!(pipeline.size(), None);
    assert_eq!(pipeline.render_pass(&mut context, 64, 48, &camera, &vec![]), Ok(()));
    context.take_commands();
    assert_eq!(
        pipeline.render_pass(&mut context, 64, 5000, &camera, &vec![]),
        Err(RenderError::ResourceAllocationFailure)
    );
    assert_eq!(pipeline.size(), Some((64, 48)));
    assert_eq!(pipeline.state(), PassState::LightingPassPending);
    assert_eq!(context.commands().len(), 0);
}

#[test]
fn the_geometry_pass_needs_four_color_attachments() {
    let mut context =
        Context::new(Limits { max_texture_size: 4096, max_samples: 8, max_color_attachments: 3 });
    let mut pipeline = DeferredPipeline::new();
    let r = pipeline.render_pass(&mut context, 64, 48, &Camera { id: 1 }, &vec![]);
    assert_eq!(r, Err(RenderError::InvalidTargetComposition));
    assert_eq!(pipeline.state(), PassState::GeometryPassPending);
    assert_eq!(pipeline.size(), Some((64, 48)));
}

#[test]
fn the_geometry_pass_fails_with_a_program_that_does_not_compile() {
    let mut context = Context::new(limits());
    context.report_program_failure(Program::Deferred(MaterialKind::Orm));
    let mut pipeline = DeferredPipeline::new();
    let objects = vec![(Geometry { id: 2 }, Material::new(MaterialKind::Orm, 3))];
    let r = pipeline.render_pass(&mut context, 64, 48, &Camera { id: 1 }, &objects);
    assert_eq!(r, Err(RenderError::ShaderCompilationFailure));
    assert_eq!(pipeline.state(), PassState::GeometryPassPending);
    assert_eq!(context.draw_framebuffer(), None);
    assert_eq!(context.live_count(ObjectKind::Framebuffer), 0);
}

#[test]
fn release_deletes_the_images_of_the_g_buffer() {
    let mut context = Context::new(limits());
    let mut pipeline = DeferredPipeline::new();
    assert_eq!(pipeline.resize(&mut context, 64, 48), Ok(()));
    assert_eq!(context.live_count(ObjectKind::Texture), 5);
    pipeline.release(&mut context);
    assert_eq!(context.live_count(ObjectKind::Texture), 0);
    let pipeline = DeferredPipeline::new();
    context.take_commands();
    pipeline.release(&mut context);
    assert_eq!(context.commands().len(), 0);
}

#[test]
fn both_pipelines_draw_the_same_geometries_in_the_same_order() {
    let mut context = Context::new(limits());
    let camera = Camera { id: 1 };
    let objects = vec![
        (Geometry { id: 7 }, Material::new(MaterialKind::Physical, 3)),
        (Geometry { id: 5 }, Material::new(MaterialKind::Color, 4)),
        (Geometry { id: 7 }, Material::new(MaterialKind::Normal, 5)),
    ];
    let lights = vec![Light::new(LightKind::Ambient, 10), Light::new(LightKind::Spot, 20)];
    let forward: Vec<u32> = ForwardPipeline::new()
        .render_pass(&camera, &objects, &lights)
        .iter()
        .filter_map(|command| match command {
            DrawCommand::DrawGeometry { geometry } => Some(*geometry),
            _ => None,
        })
        .collect();
    let mut pipeline = DeferredPipeline::new();
    assert_eq!(pipeline.render_pass(&mut context, 64, 48, &camera, &objects), Ok(()));
    let deferred: Vec<u32> = context
        .take_commands()
        .iter()
        .filter_map(|command| match command {
            GpuCommand::Draw { command: DrawCommand::DrawGeometry { geometry } } => Some(*geometry),
            _ => None,
        })
        .collect();
    assert_eq!(forward, vec![7, 5, 7]);
    assert_eq!(deferred, vec![7, 5, 7]);
}
