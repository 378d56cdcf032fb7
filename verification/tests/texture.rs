use three_d::command::{
    ClearState, Format, GpuCommand, Interpolation, ObjectKind, Sampling, Wrapping,
};
use three_d::context::{Context, Limits};
use three_d::error::RenderError;
use three_d::render_target::ColorTarget;
use three_d::texture::depth_texture2d::DepthTexture2D;
use three_d::texture::depth_texture2d_multisample::DepthTexture2DMultisample;
use three_d::texture::texture2d::Texture2D;
use three_d::texture::texture2d_multisample::Texture2DMultisample;
use three_d::texture::TextureDataType;

fn limits() -> Limits {
    Limits { max_texture_size: 4096, max_samples: 8, max_color_attachments: 4 }
}

#[test]
fn the_data_type_determines_the_format() {
    assert_eq!(<u8 as TextureDataType>::internal_format(), Format::R8);
    assert_eq!(<[u8; 2] as TextureDataType>::internal_format(), Format::Rg8);
    assert_eq!(<[u8; 3] as TextureDataType>::internal_format(), Format::Rgb8);
    assert_eq!(<[u8; 4] as TextureDataType>::internal_format(), Format::Rgba8);
}

#[test]
fn multisample_texture_reports_its_parameters() {
    let mut context = Context::new(limits());
    let texture = Texture2DMultisample::new::<[u8; 4]>(&mut context, 640, 480, 4).unwrap();
    assert_eq!(texture.id(), 1);
    assert_eq!(texture.width(), 640);
    assert_eq!(texture.height(), 480);
    assert_eq!(texture.number_of_samples(), 4);
    assert_eq!(texture.format(), Format::Rgba8);
    assert!(context.is_live(1, ObjectKind::Renderbuffer));
}

#[test]
fn multisample_texture_is_created_bound_and_given_storage() {
    let mut context = Context::new(limits());
    let _texture = Texture2DMultisample::new::<[u8; 3]>(&mut context, 640, 480, 4).unwrap();
    assert_eq!(
        context.take_commands(),
        vec![
            GpuCommand::Create { kind: ObjectKind::Renderbuffer, id: 1 },
            GpuCommand::BindRenderbuffer { id: Some(1) },
            GpuCommand::RenderbufferStorageMultisample {
                samples: 4,
                format: Format::Rgb8,
                width: 640,
                height: 480,
            },
        ]
    );
    assert_eq!(context.bound_renderbuffer(), Some(1));
}

#[test]
fn multisample_texture_rejects_what_the_context_does_not_support() {
    let mut context = Context::new(limits());
    for (width, height, samples) in
        [(0, 16, 4), (16, 0, 4), (4097, 16, 4), (16, 4097, 4), (16, 16, 0), (16, 16, 9)]
    {
        let r = Texture2DMultisample::new::<[u8; 4]>(&mut context, width, height, samples);
        assert!(matches!(r, Err(RenderError::ResourceAllocationFailure)));
        let r = DepthTexture2DMultisample::new(&mut context, width, height, samples);
        assert!(matches!(r, Err(RenderError::ResourceAllocationFailure)));
    }
    assert_eq!(context.commands().len(), 0);
    assert_eq!(context.live_count(ObjectKind::Renderbuffer), 0);
    // The largest supported values are accepted.
    assert!(Texture2DMultisample::new::<[u8; 4]>(&mut context, 4096, 4096, 8).is_ok());
    assert!(Texture2DMultisample::new::<[u8; 4]>(&mut context, 1, 1, 1).is_ok());
}

#[test]
fn multisample_texture_as_color_target_refers_to_the_texture() {
    let mut context = Context::new(limits());
    let mut texture = Texture2DMultisample::new::<[u8; 4]>(&mut context, 64, 32, 2).unwrap();
    let target = texture.as_color_target();
    assert!(target.is_multisample());
    assert_eq!(target.width(), 64);
    assert_eq!(target.height(), 32);
    match target {
        ColorTarget::Texture2DMultisample { texture } => assert_eq!(texture.id(), 1),
        ColorTarget::Texture2D { .. } => panic!("a multisample texture gives a multisample view"),
    }
}

#[test]
fn depth_multisample_texture_has_the_depth_format() {
    let mut context = Context::new(limits());
    let mut texture = DepthTexture2DMultisample::new(&mut context, 64, 32, 2).unwrap();
    assert_eq!(texture.width(), 64);
    assert_eq!(texture.height(), 32);
    assert_eq!(texture.number_of_samples(), 2);
    assert_eq!(
        context.take_commands(),
        vec![
            GpuCommand::Create { kind: ObjectKind::Renderbuffer, id: 1 },
            GpuCommand::BindRenderbuffer { id: Some(1) },
            GpuCommand::RenderbufferStorageMultisample {
                samples: 2,
                format: Format::Depth32F,
                width: 64,
                height: 32,
            },
        ]
    );
    let target = texture.as_depth_target();
    assert_eq!(target.width(), 64);
    assert_eq!(target.height(), 32);
    texture.release(&mut context);
    assert_eq!(context.live_count(ObjectKind::Renderbuffer), 0);
}

#[test]
fn texture2d_is_created_with_its_sampling_parameters() {
    let mut context = Context::new(limits());
    let texture = Texture2D::new_empty::<[u8; 4]>(
        &mut context,
        128,
        64,
        Interpolation::Linear,
        Interpolation::Nearest,
        Some(Interpolation::Linear),
        Wrapping::Repeat,
        Wrapping::MirroredRepeat,
    )
    .unwrap();
    assert_eq!(texture.id(), 1);
    assert_eq!(texture.width(), 128);
    assert_eq!(texture.height(), 64);
    assert_eq!(texture.format(), Format::Rgba8);
    assert_eq!(
        context.take_commands(),
        vec![
            GpuCommand::Create { kind: ObjectKind::Texture, id: 1 },
            GpuCommand::TextureStorage {
                id: 1,
                format: Format::Rgba8,
                width: 128,
                height: 64,
                sampling: Sampling {
                    min_filter: Interpolation::Linear,
                    mag_filter: Interpolation::Nearest,
                    mip_map_filter: Some(Interpolation::Linear),
                    wrap_s: Wrapping::Repeat,
                    wrap_t: Wrapping::MirroredRepeat,
                },
            },
        ]
    );
    texture.release(&mut context);
    assert_eq!(
        context.take_commands(),
        vec![GpuCommand::Delete { kind: ObjectKind::Texture, id: 1 }]
    );
    assert!(!context.is_live(1, ObjectKind::Texture));
}

#[test]
fn texture2d_rejects_a_depth_format_and_unsupported_sizes() {
    let mut context = Context::new(limits());
    let sampling = Sampling {
        min_filter: Interpolation::Nearest,
        mag_filter: Interpolation::Nearest,
        mip_map_filter: None,
        wrap_s: Wrapping::ClampToEdge,
        wrap_t: Wrapping::ClampToEdge,
    };
    let r = Texture2D::new_empty_with_format(&mut context, 16, 16, Format::Depth32F, sampling);
    assert!(matches!(r, Err(RenderError::ResourceAllocationFailure)));
    let r = Texture2D::new_empty_with_format(&mut context, 0, 16, Format::Rgba32F, sampling);
    assert!(matches!(r, Err(RenderError::ResourceAllocationFailure)));
    let r = Texture2D::new_empty_with_format(&mut context, 16, 5000, Format::Rgba32F, sampling);
    assert!(matches!(r, Err(RenderError::ResourceAllocationFailure)));
    assert_eq!(context.commands().len(), 0);
    let texture =
        Texture2D::new_empty_with_format(&mut context, 16, 16, Format::Rgba32F, sampling).unwrap();
    assert_eq!(texture.format(), Format::Rgba32F);
}

#[test]
fn depth_texture2d_is_sampled_unfiltered() {
    let mut context = Context::new(limits());
    let mut texture =
        DepthTexture2D::new(&mut context, 512, 256, Wrapping::ClampToEdge, Wrapping::Repeat)
            .unwrap();
    assert_eq!(texture.id(), 1);
    assert_eq!(texture.width(), 512);
    assert_eq!(texture.height(), 256);
    assert_eq!(
        context.take_commands(),
        vec![
            GpuCommand::Create { kind: ObjectKind::Texture, id: 1 },
            GpuCommand::TextureStorage {
                id: 1,
                format: Format::Depth32F,
                width: 512,
                height: 256,
                sampling: Sampling {
                    min_filter: Interpolation::Nearest,
                    mag_filter: Interpolation::Nearest,
                    mip_map_filter: None,
                    wrap_s: Wrapping::ClampToEdge,
                    wrap_t: Wrapping::Repeat,
                },
            },
        ]
    );
    let target = texture.as_depth_target();
    assert_eq!((target.width(), target.height()), (512, 256));
    let r = DepthTexture2D::new(&mut context, 0, 256, Wrapping::Repeat, Wrapping::Repeat);
    assert!(matches!(r, Err(RenderError::ResourceAllocationFailure)));
}

#[test]
fn clear_states_clear_what_they_name() {
    let none = ClearState::none();
    assert!(none.clears_nothing());
    let color = ClearState::color(1, 2, 3, 4);
    assert_eq!(
        color,
        ClearState { red: Some(1), green: Some(2), blue: Some(3), alpha: Some(4), depth: None }
    );
    assert!(!color.clears_nothing());
    let depth = ClearState::depth(9);
    assert_eq!(
        depth,
        ClearState { red: None, green: None, blue: None, alpha: None, depth: Some(9) }
    );
    assert!(!depth.clears_nothing());
    let both = ClearState::color_and_depth(1, 2, 3, 4, 9);
    assert_eq!(
        both,
        ClearState { red: Some(1), green: Some(2), blue: Some(3), alpha: Some(4), depth: Some(9) }
    );
}
