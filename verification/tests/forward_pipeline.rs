use three_d::command::{
    Blend, ClearState, Cull, DrawCommand, FramebufferTarget, GpuCommand, Interpolation, LightKind,
    MaterialKind, Program, ShadowProjection, Wrapping,
};
use three_d::context::{Context, Limits};
use three_d::error::RenderError;
use three_d::light::Light;
use three_d::phong::{ForwardPipeline, Material};
use three_d::render_target::RenderTarget;
use three_d::scene::{Camera, Geometry};
use three_d::texture::texture2d::Texture2D;

fn limits() -> Limits {
    Limits { max_texture_size: 4096, max_samples: 8, max_color_attachments: 4 }
}

fn texture(context: &mut Context) -> Texture2D {
    Texture2D::new_empty::<[u8; 4]>(
        context,
        8,
        8,
        Interpolation::Linear,
        Interpolation::Linear,
        None,
        Wrapping::Repeat,
        Wrapping::Repeat,
    )
    .unwrap()
}

#[test]
fn a_new_material_is_opaque_and_has_no_texture() {
    let material = Material::new(MaterialKind::Physical, 4);
    assert_eq!(material.kind, MaterialKind::Physical);
    assert_eq!(material.id, 4);
    assert!(material.albedo.is_none());
    assert!(material.normal.is_none());
    assert!(material.occlusion_roughness_metallic.is_none());
    assert!(material.emissive.is_none());
    assert_eq!(material.cull, Cull::Back);
    assert_eq!(material.blend, Blend::Off);
    assert_eq!(material.forward_program(), Program::Forward(MaterialKind::Physical));
    assert_eq!(material.deferred_program(), Program::Deferred(MaterialKind::Physical));
}

#[test]
fn a_material_binds_program_states_camera_parameters_and_textures() {
    let mut context = Context::new(limits());
    let albedo = texture(&mut context);
    let emissive = texture(&mut context);
    let mut material = Material::new(MaterialKind::Physical, 4);
    material.albedo = Some(&albedo);
    material.emissive = Some(&emissive);
    material.blend = Blend::Transparency;
    let mut draws = vec![DrawCommand::DrawGeometry { geometry: 0 }];
    material.bind(Program::DepthOnly, &Camera { id: 2 }, &mut draws);
    assert_eq!(
        draws,
        vec![
            DrawCommand::DrawGeometry { geometry: 0 },
            DrawCommand::UseProgram { program: Program::DepthOnly },
            DrawCommand::SetRenderStates { cull: Cull::Back, blend: Blend::Transparency },
            DrawCommand::BindCamera { camera: 2 },
            DrawCommand::BindMaterial { material: 4 },
            DrawCommand::BindTexture { unit: 0, texture: 1 },
            DrawCommand::BindTexture { unit: 3, texture: 2 },
        ]
    );
}

#[test]
fn a_triangle_with_vertex_colors_on_a_gray_background() {
    let mut context = Context::new(limits());
    let pipeline = ForwardPipeline::new();
    let camera = Camera { id: 1 };
    let triangle = Geometry { id: 2 };
    let objects = vec![(triangle, Material::new(MaterialKind::Color, 3))];
    let lights: Vec<Light> = vec![];
    let gray = 0.8f32.to_bits();
    let clear = ClearState::color_and_depth(gray, gray, gray, 1.0f32.to_bits(), 1.0f32.to_bits());
    let screen = RenderTarget::screen(256, 256);
    let r = screen.write(&mut context, clear, || Ok(pipeline.render_pass(&camera, &objects, &lights)));
    assert_eq!(r, Ok(()));
    let draw = |command: DrawCommand| GpuCommand::Draw { command };
    assert_eq!(
        context.take_commands(),
        vec![
            GpuCommand::BindFramebuffer { target: FramebufferTarget::Draw, id: None },
            GpuCommand::Viewport { width: 256, height: 256 },
            GpuCommand::Clear {
                state: ClearState {
                    red: Some(gray),
                    green: Some(gray),
                    blue: Some(gray),
                    alpha: Some(1.0f32.to_bits()),
                    depth: Some(1.0f32.to_bits()),
                },
            },
            draw(DrawCommand::UseProgram { program: Program::Forward(MaterialKind::Color) }),
            draw(DrawCommand::SetRenderStates { cull: Cull::Back, blend: Blend::Off }),
            draw(DrawCommand::BindCamera { camera: 1 }),
            draw(DrawCommand::BindMaterial { material: 3 }),
            draw(DrawCommand::DrawGeometry { geometry: 2 }),
            GpuCommand::BindFramebuffer { target: FramebufferTarget::Draw, id: None },
        ]
    );
}

#[test]
fn a_forward_pass_draws_each_pair_in_order_with_every_light() {
    let mut context = Context::new(limits());
    let mut sun = Light::new(LightKind::Directional, 20);
    assert_eq!(sun.generate_shadow_map(&mut context, 5, 64, 64, &vec![Geometry { id: 2 }]), Ok(()));
    let lights = vec![Light::new(LightKind::Ambient, 10), sun, Light::new(LightKind::Point, 30)];
    let objects = vec![
        (Geometry { id: 2 }, Material::new(MaterialKind::Physical, 3)),
        (Geometry { id: 4 }, Material::new(MaterialKind::Normal, 5)),
    ];
    let draws = ForwardPipeline::new().render_pass(&Camera { id: 1 }, &objects, &lights);
    let light_bindings = vec![
        DrawCommand::BindLight { light: 10, kind: LightKind::Ambient },
        DrawCommand::BindLight { light: 20, kind: LightKind::Directional },
        DrawCommand::BindShadowMap {
            light: 20,
            texture: 1,
            projection: ShadowProjection::Orthographic { extent: 5 },
        },
        DrawCommand::BindLight { light: 30, kind: LightKind::Point },
    ];
    let mut expected = vec![
        DrawCommand::UseProgram { program: Program::Forward(MaterialKind::Physical) },
        DrawCommand::SetRenderStates { cull: Cull::Back, blend: Blend::Off },
        DrawCommand::BindCamera { camera: 1 },
        DrawCommand::BindMaterial { material: 3 },
    ];
    expected.extend(light_bindings.clone());
    expected.push(DrawCommand::DrawGeometry { geometry: 2 });
    expected.extend(vec![
        DrawCommand::UseProgram { program: Program::Forward(MaterialKind::Normal) },
        DrawCommand::SetRenderStates { cull: Cull::Back, blend: Blend::Off },
        DrawCommand::BindCamera { camera: 1 },
        DrawCommand::BindMaterial { material: 5 },
    ]);
    expected.extend(light_bindings);
    expected.push(DrawCommand::DrawGeometry { geometry: 4 });
    assert_eq!(draws, expected);
}

#[test]
fn a_forward_pass_without_objects_draws_nothing() {
    let lights = vec![Light::new(LightKind::Ambient, 10)];
    let draws = ForwardPipeline::new().render_pass(&Camera { id: 1 }, &vec![], &lights);
    assert_eq!(draws, vec![]);
}

#[test]
fn a_forward_pass_with_a_program_that_does_not_compile_fails_at_the_write() {
    let mut context = Context::new(limits());
    context.report_program_failure(Program::Forward(MaterialKind::Uv));
    let pipeline = ForwardPipeline::new();
    let camera = Camera { id: 1 };
    let objects = vec![
        (Geometry { id: 2 }, Material::new(MaterialKind::Physical, 3)),
        (Geometry { id: 4 }, Material::new(MaterialKind::Uv, 5)),
    ];
    let lights: Vec<Light> = vec![];
    let screen = RenderTarget::screen(256, 256);
    let r = screen
        .write(&mut context, ClearState::none(), || Ok(pipeline.render_pass(&camera, &objects, &lights)));
    assert_eq!(r, Err(RenderError::ShaderCompilationFailure));
    assert_eq!(context.commands().len(), 3);
    assert_eq!(context.draw_framebuffer(), None);
}
