use vstd::prelude::*;
use crate::command::{Format, GpuCommand, ObjectKind, Sampling};
use crate::context::{Context, ContextView};
use crate::error::RenderError;

pub mod depth_texture2d;
pub mod depth_texture2d_multisample;
pub mod texture2d;
pub mod texture2d_multisample;

verus! {

/// What a texture is: its handle and the fixed properties of its image.
#[derive(Clone, Copy, Debug, PartialEq, Eq, Structural)]
pub struct ImageView {
    pub id: u32,
    pub width: u32,
    pub height: u32,
    pub format: Format,
    /// The number of samples per fragment; `1` for a single-sample image.
    pub samples: u32,
}

/// A type of pixel data, which determines the format of a color texture:
/// with `[u8; 4]`, for one, the format has four channels of one byte each.
pub trait TextureDataType {
    /// The format of a texture with pixels of this type.
    spec fn format() -> Format;

    /// The format of a texture with pixels of this type.
    fn internal_format() -> (format: Format)
        ensures
            format == Self::format(),
            format != Format::Depth32F,
    ;
}

impl TextureDataType for u8 {
    open spec fn format() -> Format {
        Format::R8
    }

    fn internal_format() -> (format: Format) {
        Format::R8
    }
}

impl TextureDataType for [u8; 2] {
    open spec fn format() -> Format {
        Format::Rg8
    }

    fn internal_format() -> (format: Format) {
        Format::Rg8
    }
}

impl TextureDataType for [u8; 3] {
    open spec fn format() -> Format {
        Format::Rgb8
    }

    fn internal_format() -> (format: Format) {
        Format::Rgb8
    }
}

impl TextureDataType for [u8; 4] {
    open spec fn format() -> Format {
        Format::Rgba8
    }

    fn internal_format() -> (format: Format) {
        Format::Rgba8
    }
}

/// The state of a context after a single-sample image with the next handle has been created.
pub open spec fn with_texture(
    ctx: ContextView,
    format: Format,
    width: u32,
    height: u32,
    sampling: Sampling,
) -> ContextView {
    ctx.after(GpuCommand::Create { kind: ObjectKind::Texture, id: ctx.next_handle() }).after(
        GpuCommand::TextureStorage { id: ctx.next_handle(), format, width, height, sampling },
    )
}

/// The state of a context after a multisample image with the next handle has been created.
/// The new image is left bound.
pub open spec fn with_renderbuffer(
    ctx: ContextView,
    format: Format,
    width: u32,
    height: u32,
    samples: u32,
) -> ContextView {
    ctx.after(GpuCommand::Create { kind: ObjectKind::Renderbuffer, id: ctx.next_handle() }).after(
        GpuCommand::BindRenderbuffer { id: Some(ctx.next_handle()) },
    ).after(GpuCommand::RenderbufferStorageMultisample { samples, format, width, height })
}

/// Creates a single-sample image, or fails where the context cannot provide it.
pub(crate) fn create_texture(
    ctx: &mut Context,
    format: Format,
    width: u32,
    height: u32,
    sampling: Sampling,
) -> (r: Result<u32, RenderError>)
    requires
        old(ctx).wf(),
    ensures
        final(ctx).wf(),
        r is Ok <==> old(ctx)@.supports_size(width, height) && old(ctx)@.free_handles() >= 1,
        r matches Ok(id) ==> id == old(ctx)@.next_handle() && final(ctx)@ == with_texture(
            old(ctx)@,
            format,
            width,
            height,
            sampling,
        ),
        r matches Err(e) ==> e == RenderError::ResourceAllocationFailure && final(ctx)@ == old(
            ctx,
        )@,
{
    if !ctx.supports_size(width, height) || !ctx.can_allocate(1) {
        return Err(RenderError::ResourceAllocationFailure);
    }
    let id = ctx.next_handle();
    ctx.submit(GpuCommand::Create { kind: ObjectKind::Texture, id });
    ctx.submit(GpuCommand::TextureStorage { id, format, width, height, sampling });
    Ok(id)
}

} // verus!
