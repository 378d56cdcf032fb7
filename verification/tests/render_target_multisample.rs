use three_d::command::{
    Attachment, ClearState, DrawCommand, Format, FramebufferTarget, GpuCommand, ObjectKind,
};
use three_d::context::{Context, Limits};
use three_d::error::RenderError;
use three_d::render_target::multisample::RenderTargetMultisample;

fn limits() -> Limits {
    Limits { max_texture_size: 4096, max_samples: 8, max_color_attachments: 4 }
}

#[test]
fn new_color_target_reports_its_parameters() {
    let mut context = Context::new(limits());
    let target = RenderTargetMultisample::new_color::<[u8; 4]>(&mut context, 256, 128, 4).unwrap();
    assert_eq!(target.width(), 256);
    assert_eq!(target.height(), 128);
    assert_eq!(target.number_of_samples(), 4);
    assert_eq!(
        context.take_commands(),
        vec![
            GpuCommand::Create { kind: ObjectKind::Renderbuffer, id: 1 },
            GpuCommand::BindRenderbuffer { id: Some(1) },
            GpuCommand::RenderbufferStorageMultisample {
                samples: 4,
                format: Format::Rgba8,
                width: 256,
                height: 128,
            },
        ]
    );
}

#[test]
fn new_color_target_rejects_what_the_context_does_not_support() {
    let mut context = Context::new(limits());
    let r = RenderTargetMultisample::new_color::<[u8; 4]>(&mut context, 256, 128, 16);
    assert!(matches!(r, Err(RenderError::ResourceAllocationFailure)));
    let r = RenderTargetMultisample::new_color::<[u8; 4]>(&mut context, 0, 128, 4);
    assert!(matches!(r, Err(RenderError::ResourceAllocationFailure)));
    let r = RenderTargetMultisample::new_depth(&mut context, 256, 5000, 4);
    assert!(matches!(r, Err(RenderError::ResourceAllocationFailure)));
    let r = RenderTargetMultisample::new::<[u8; 4]>(&mut context, 256, 128, 0);
    assert!(matches!(r, Err(RenderError::ResourceAllocationFailure)));
    assert_eq!(context.commands().len(), 0);
    assert_eq!(context.live_count(ObjectKind::Renderbuffer), 0);
}

#[test]
fn depth_only_target_takes_its_parameters_from_the_depth_texture() {
    let mut context = Context::new(limits());
    let target = RenderTargetMultisample::new_depth(&mut context, 64, 48, 2).unwrap();
    assert_eq!(target.width(), 64);
    assert_eq!(target.height(), 48);
    assert_eq!(target.number_of_samples(), 2);
}

#[test]
fn depth_only_target_has_nothing_to_resolve() {
    let mut context = Context::new(limits());
    let target = RenderTargetMultisample::new_depth(&mut context, 64, 48, 2).unwrap();
    context.take_commands();
    let resolved = target.resolve(&mut context).unwrap();
    assert!(resolved.is_none());
    assert_eq!(context.commands().len(), 0);
}

#[test]
fn resolve_keeps_the_size_of_the_target() {
    for (width, height, samples) in [(256, 128, 4), (1, 1, 1), (4096, 4096, 8), (17, 3, 2)] {
        let mut context = Context::new(limits());
        let target =
            RenderTargetMultisample::new_color::<[u8; 4]>(&mut context, width, height, samples)
                .unwrap();
        let texture = target.resolve(&mut context).unwrap().unwrap();
        assert_eq!(texture.width(), width);
        assert_eq!(texture.height(), height);
        assert_eq!(texture.format(), Format::Rgba8);
        assert!(context.is_live(texture.id(), ObjectKind::Texture));
        assert_eq!(context.live_count(ObjectKind::Framebuffer), 0);
        assert_eq!(context.live_count(ObjectKind::Renderbuffer), 1);
        assert_eq!(context.draw_framebuffer(), None);
        assert_eq!(context.read_framebuffer(), None);
        // The target can be resolved again, into another texture.
        let again = target.resolve(&mut context).unwrap().unwrap();
        assert_eq!((again.width(), again.height()), (width, height));
        assert!(again.id() != texture.id());
    }
}

#[test]
fn resolve_of_a_target_with_color_and_depth_copies_color() {
    let mut context = Context::new(limits());
    let target = RenderTargetMultisample::new::<[u8; 4]>(&mut context, 64, 48, 2).unwrap();
    assert_eq!((target.width(), target.height(), target.number_of_samples()), (64, 48, 2));
    context.take_commands();
    let texture = target.resolve(&mut context).unwrap().unwrap();
    assert_eq!((texture.width(), texture.height()), (64, 48));
    let commands = context.take_commands();
    assert_eq!(commands[9], GpuCommand::Blit { width: 64, height: 48, color: true, depth: false });
}

#[test]
fn as_render_target_composes_the_textures_of_the_target() {
    let mut context = Context::new(limits());
    let mut target = RenderTargetMultisample::new::<[u8; 4]>(&mut context, 64, 48, 2).unwrap();
    context.take_commands();
    let render_target = target.as_render_target();
    assert_eq!((render_target.width(), render_target.height()), (64, 48));
    let r = render_target.write(&mut context, ClearState::none(), || {
        Ok(vec![DrawCommand::DrawGeometry { geometry: 5 }])
    });
    assert_eq!(r, Ok(()));
    assert_eq!(
        context.take_commands(),
        vec![
            GpuCommand::Create { kind: ObjectKind::Framebuffer, id: 3 },
            GpuCommand::BindFramebuffer { target: FramebufferTarget::Draw, id: Some(3) },
            GpuCommand::FramebufferRenderbuffer {
                target: FramebufferTarget::Draw,
                attachment: Attachment::Color(0),
                id: 1,
            },
            GpuCommand::FramebufferRenderbuffer {
                target: FramebufferTarget::Draw,
                attachment: Attachment::Depth,
                id: 2,
            },
            GpuCommand::DrawBuffers { count: 1 },
            GpuCommand::Viewport { width: 64, height: 48 },
            GpuCommand::Draw { command: DrawCommand::DrawGeometry { geometry: 5 } },
            GpuCommand::BindFramebuffer { target: FramebufferTarget::Draw, id: None },
            GpuCommand::Delete { kind: ObjectKind::Framebuffer, id: 3 },
        ]
    );
}

#[test]
fn as_render_target_of_a_depth_only_target_has_no_color() {
    let mut context = Context::new(limits());
    let mut target = RenderTargetMultisample::new_depth(&mut context, 64, 48, 2).unwrap();
    context.take_commands();
    let render_target = target.as_render_target();
    assert!(!render_target.is_screen());
    let r = render_target.write(&mut context, ClearState::none(), || Ok(vec![]));
    assert_eq!(r, Ok(()));
    let commands = context.take_commands();
    assert_eq!(
        commands[2],
        GpuCommand::FramebufferRenderbuffer {
            target: FramebufferTarget::Draw,
            attachment: Attachment::Depth,
            id: 1,
        }
    );
    assert_eq!(commands[3], GpuCommand::DrawBuffers { count: 0 });
}

#[test]
fn release_deletes_color_before_depth() {
    let mut context = Context::new(limits());
    let target = RenderTargetMultisample::new::<[u8; 4]>(&mut context, 64, 48, 2).unwrap();
    context.take_commands();
    target.release(&mut context);
    assert_eq!(
        context.take_commands(),
        vec![
            GpuCommand::Delete { kind: ObjectKind::Renderbuffer, id: 1 },
            GpuCommand::Delete { kind: ObjectKind::Renderbuffer, id: 2 },
        ]
    );
    assert_eq!(context.live_count(ObjectKind::Renderbuffer), 0);
    assert_eq!(context.bound_renderbuffer(), None);
}
