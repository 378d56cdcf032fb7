use three_d::command::{
    Attachment, ClearState, DrawCommand, Format, FramebufferTarget, GpuCommand, Interpolation,
    LightKind, ObjectKind, Program, Sampling, ShadowProjection, Wrapping,
};
use three_d::context::{Context, Limits};
use three_d::error::RenderError;
use three_d::light::{Light, DEPTH_FAR};
use three_d::scene::Geometry;

fn limits() -> Limits {
    Limits { max_texture_size: 4096, max_samples: 8, max_color_attachments: 4 }
}

fn shadow_draw(light: u32, projection: ShadowProjection, geometry: u32) -> Vec<GpuCommand> {
    vec![
        GpuCommand::Draw { command: DrawCommand::UseProgram { program: Program::DepthOnly } },
        GpuCommand::Draw { command: DrawCommand::SetShadowProjection { light, projection } },
        GpuCommand::Draw { command: DrawCommand::DrawGeometry { geometry } },
    ]
}

#[test]
fn the_far_depth_is_one() {
    assert_eq!(DEPTH_FAR, 1.0f32.to_bits());
}

#[test]
fn a_fresh_light_has_no_shadow_map() {
    for kind in [LightKind::Ambient, LightKind::Directional, LightKind::Spot, LightKind::Point] {
        let light = Light::new(kind, 3);
        assert_eq!(light.kind(), kind);
        assert_eq!(light.id(), 3);
        assert!(!light.has_shadow_map());
        assert_eq!(light.shadow_map(), None);
    }
}

#[test]
fn generate_is_followed_by_a_shadow_map_and_clear_by_none() {
    let mut context = Context::new(limits());
    let geometries = vec![Geometry { id: 11 }];
    for kind in [LightKind::Directional, LightKind::Spot] {
        let mut light = Light::new(kind, 3);
        let r = light.generate_shadow_map(&mut context, 7, 512, 256, &geometries);
        assert_eq!(r, Ok(()));
        assert!(light.has_shadow_map());
        light.clear_shadow_map(&mut context);
        assert!(!light.has_shadow_map());
        // Clearing again changes nothing.
        context.take_commands();
        light.clear_shadow_map(&mut context);
        assert!(!light.has_shadow_map());
        assert_eq!(context.commands().len(), 0);
        // And a shadow map can be generated again.
        let r = light.generate_shadow_map(&mut context, 7, 512, 256, &geometries);
        assert_eq!(r, Ok(()));
        assert!(light.has_shadow_map());
        light.clear_shadow_map(&mut context);
    }
    assert_eq!(context.live_count(ObjectKind::Texture), 0);
    assert_eq!(context.live_count(ObjectKind::Framebuffer), 0);
}

#[test]
fn point_and_ambient_lights_cannot_generate_a_shadow_map() {
    let mut context = Context::new(limits());
    let geometries = vec![Geometry { id: 11 }];
    for kind in [LightKind::Point, LightKind::Ambient] {
        let mut light = Light::new(kind, 3);
        let r = light.generate_shadow_map(&mut context, 7, 512, 256, &geometries);
        assert_eq!(r, Err(RenderError::UnsupportedOperation));
        assert!(!light.has_shadow_map());
    }
    assert_eq!(context.commands().len(), 0);
    assert_eq!(context.live_count(ObjectKind::Texture), 0);
}

#[test]
fn directional_shadow_map_is_allocated_cleared_and_drawn_in_order() {
    let mut context = Context::new(limits());
    let geometries = vec![Geometry { id: 11 }, Geometry { id: 12 }];
    let extent = 4.0f32.to_bits();
    let mut light = Light::new(LightKind::Directional, 3);
    assert_eq!(light.generate_shadow_map(&mut context, extent, 512, 256, &geometries), Ok(()));
    let projection = ShadowProjection::Orthographic { extent };
    assert_eq!(light.shadow_map(), Some((1, projection)));
    let mut expected = vec![
        GpuCommand::Create { kind: ObjectKind::Texture, id: 1 },
        GpuCommand::TextureStorage {
            id: 1,
            format: Format::Depth32F,
            width: 512,
            height: 256,
            sampling: Sampling {
                min_filter: Interpolation::Nearest,
                mag_filter: Interpolation::Nearest,
                mip_map_filter: None,
                wrap_s: Wrapping::ClampToEdge,
                wrap_t: Wrapping::ClampToEdge,
            },
        },
        GpuCommand::Create { kind: ObjectKind::Framebuffer, id: 2 },
        GpuCommand::BindFramebuffer { target: FramebufferTarget::Draw, id: Some(2) },
        GpuCommand::FramebufferTexture {
            target: FramebufferTarget::Draw,
            attachment: Attachment::Depth,
            id: 1,
        },
        GpuCommand::DrawBuffers { count: 0 },
        GpuCommand::Viewport { width: 512, height: 256 },
        GpuCommand::Clear { state: ClearState::depth(1.0f32.to_bits()) },
    ];
    expected.extend(shadow_draw(3, projection, 11));
    expected.extend(shadow_draw(3, projection, 12));
    expected.push(GpuCommand::BindFramebuffer { target: FramebufferTarget::Draw, id: None });
    expected.push(GpuCommand::Delete { kind: ObjectKind::Framebuffer, id: 2 });
    assert_eq!(context.take_commands(), expected);
    assert_eq!(context.draw_framebuffer(), None);
}

#[test]
fn spot_shadow_map_uses_a_perspective_projection() {
    let mut context = Context::new(limits());
    let cutoff = 0.5f32.to_bits();
    let mut light = Light::new(LightKind::Spot, 9);
    assert_eq!(light.generate_shadow_map(&mut context, cutoff, 64, 64, &vec![]), Ok(()));
    assert_eq!(light.shadow_map(), Some((1, ShadowProjection::Perspective { cutoff })));
}

#[test]
fn shadow_map_of_the_same_resolution_is_used_again() {
    let mut context = Context::new(limits());
    let geometries = vec![Geometry { id: 11 }];
    let mut light = Light::new(LightKind::Directional, 3);
    assert_eq!(light.generate_shadow_map(&mut context, 1, 512, 256, &geometries), Ok(()));
    context.take_commands();
    assert_eq!(light.generate_shadow_map(&mut context, 2, 512, 256, &geometries), Ok(()));
    assert_eq!(light.shadow_map(), Some((1, ShadowProjection::Orthographic { extent: 2 })));
    let commands = context.take_commands();
    // No texture is created or deleted: the pass starts with its framebuffer.
    assert_eq!(commands[0], GpuCommand::Create { kind: ObjectKind::Framebuffer, id: 3 });
    assert_eq!(commands.len(), 11);
    assert_eq!(context.live_count(ObjectKind::Texture), 1);
}

#[test]
fn shadow_map_of_another_resolution_replaces_the_old_one() {
    let mut context = Context::new(limits());
    let geometries = vec![Geometry { id: 11 }];
    let mut light = Light::new(LightKind::Directional, 3);
    assert_eq!(light.generate_shadow_map(&mut context, 1, 512, 256, &geometries), Ok(()));
    context.take_commands();
    assert_eq!(light.generate_shadow_map(&mut context, 1, 1024, 256, &geometries), Ok(()));
    assert_eq!(light.shadow_map(), Some((3, ShadowProjection::Orthographic { extent: 1 })));
    let commands = context.take_commands();
    assert_eq!(commands[0], GpuCommand::Delete { kind: ObjectKind::Texture, id: 1 });
    assert_eq!(commands[1], GpuCommand::Create { kind: ObjectKind::Texture, id: 3 });
    assert_eq!(context.live_count(ObjectKind::Texture), 1);
    assert!(context.is_live(3, ObjectKind::Texture));
}

#[test]
fn shadow_map_of_an_unsupported_resolution_fails_and_keeps_the_old_one() {
    let mut context = Context::new(limits());
    let geometries = vec![Geometry { id: 11 }];
    let mut light = Light::new(LightKind::Spot, 3);
    assert_eq!(
        light.generate_shadow_map(&mut context, 1, 0, 256, &geometries),
        Err(RenderError::ResourceAllocationFailure)
    );
    assert!(!light.has_shadow_map());
    assert_eq!(light.generate_shadow_map(&mut context, 1, 512, 256, &geometries), Ok(()));
    context.take_commands();
    assert_eq!(
        light.generate_shadow_map(&mut context, 1, 5000, 256, &geometries),
        Err(RenderError::ResourceAllocationFailure)
    );
    assert_eq!(light.shadow_map(), Some((1, ShadowProjection::Perspective { cutoff: 1 })));
    assert_eq!(context.commands().len(), 0);
}

#[test]
fn shadow_map_needs_the_depth_only_program() {
    let mut context = Context::new(limits());
    context.report_program_failure(Program::DepthOnly);
    let mut light = Light::new(LightKind::Directional, 3);
    assert_eq!(
        light.generate_shadow_map(&mut context, 1, 512, 256, &vec![Geometry { id: 1 }]),
        Err(RenderError::ShaderCompilationFailure)
    );
    assert!(!light.has_shadow_map());
    assert_eq!(context.commands().len(), 0);
    // A point light is refused for what it is, whatever the programs.
    let mut point = Light::new(LightKind::Point, 4);
    assert_eq!(
        point.generate_shadow_map(&mut context, 1, 512, 256, &vec![]),
        Err(RenderError::UnsupportedOperation)
    );
}
