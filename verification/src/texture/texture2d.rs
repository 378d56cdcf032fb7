use vstd::prelude::*;
use crate::command::{
    Attachment, Format, FramebufferTarget, GpuCommand, Interpolation, ObjectKind, Sampling,
    Wrapping,
};
use crate::context::Context;
use crate::error::RenderError;
use crate::render_target::ColorTarget;
use crate::texture::{create_texture, with_texture, ImageView, TextureDataType};

verus! {

/// A 2D color texture with one sample per fragment, which can be rendered
/// to and sampled.
#[derive(Debug)]
pub struct Texture2D {
    id: u32,
    width: u32,
    height: u32,
    format: Format,
    sampling: Sampling,
}

impl View for Texture2D {
    type V = ImageView;

    closed spec fn view(&self) -> ImageView {
        ImageView {
            id: self.id,
            width: self.width,
            height: self.height,
            format: self.format,
            samples: 1,
        }
    }
}

impl Texture2D {
    /// Whether the texture lives in the given context.
    pub open spec fn valid(&self, ctx: &Context) -> bool {
        ctx@.is_live(self@.id, ObjectKind::Texture)
    }

    /// How the texture is filtered and wrapped when it is sampled.
    pub closed spec fn sampling_parameters(&self) -> Sampling {
        self.sampling
    }

    /// Constructs a new empty 2D texture of the given color format.
    ///
    /// Fails with `ResourceAllocationFailure`, and leaves the context as it
    /// was, exactly if the format is a depth format, the context does not
    /// support the size, or it has no handle left.
    pub fn new_empty_with_format(
        context: &mut Context,
        width: u32,
        height: u32,
        format: Format,
        sampling: Sampling,
    ) -> (r: Result<Texture2D, RenderError>)
        requires
            old(context).wf(),
        ensures
            final(context).wf(),
            r is Ok <==> format != Format::Depth32F && old(context)@.supports_size(width, height)
                && old(context)@.free_handles() >= 1,
            r matches Ok(texture) ==> {
                &&& texture@ == (ImageView {
                    id: old(context)@.next_handle(),
                    width,
                    height,
                    format,
                    samples: 1,
                })
                &&& texture.sampling_parameters() == sampling
                &&& texture.valid(final(context))
                &&& final(context)@ == with_texture(old(context)@, format, width, height, sampling)
            },
            r matches Err(e) ==> e == RenderError::ResourceAllocationFailure && final(context)@
                == old(context)@,
    {
        if format == Format::Depth32F {
            return Err(RenderError::ResourceAllocationFailure);
        }
        match create_texture(context, format, width, height, sampling) {
            Ok(id) => Ok(Texture2D { id, width, height, format, sampling }),
            Err(e) => Err(e),
        }
    }

    /// Constructs a new empty 2D texture with the given parameters. The
    /// format is determined by the generic parameter.
    ///
    /// Fails with `ResourceAllocationFailure`, and leaves the context as it
    /// was, exactly if the context does not support the size or has no
    /// handle left.
    pub fn new_empty<T: TextureDataType>(
        context: &mut Context,
        width: u32,
        height: u32,
        min_filter: Interpolation,
        mag_filter: Interpolation,
        mip_map_filter: Option<Interpolation>,
        wrap_s: Wrapping,
        wrap_t: Wrapping,
    ) -> (r: Result<Texture2D, RenderError>)
        requires
            old(context).wf(),
        ensures
            final(context).wf(),
            r is Ok <==> old(context)@.supports_size(width, height) && old(context)@.free_handles()
                >= 1,
            r matches Ok(texture) ==> {
                &&& texture@ == (ImageView {
                    id: old(context)@.next_handle(),
                    width,
                    height,
                    format: T::format(),
                    samples: 1,
                })
                &&& texture.sampling_parameters() == (Sampling {
                    min_filter,
                    mag_filter,
                    mip_map_filter,
                    wrap_s,
                    wrap_t,
                })
                &&& texture.valid(final(context))
                &&& final(context)@ == with_texture(
                    old(context)@,
                    T::format(),
                    width,
                    height,
                    Sampling { min_filter, mag_filter, mip_map_filter, wrap_s, wrap_t },
                )
            },
            r matches Err(e) ==> e == RenderError::ResourceAllocationFailure && final(context)@
                == old(context)@,
    {
        let sampling = Sampling { min_filter, mag_filter, mip_map_filter, wrap_s, wrap_t };
        Self::new_empty_with_format(context, width, height, T::internal_format(), sampling)
    }

    /// The handle of the image of this texture.
    pub fn id(&self) -> (id: u32)
        ensures
            id == self@.id,
    {
        self.id
    }

    /// Returns a color target which can be used to clear, write to and read from the texture.
    /// Combine it with a depth target to write to both at the same time.
    pub fn as_color_target(&mut self) -> (target: ColorTarget<'_>)
        ensures
            target == (ColorTarget::Texture2D { texture: &*old(self) }),
            *final(self) == *old(self),
    {
        ColorTarget::Texture2D { texture: &*self }
    }

    /// The width of this texture.
    pub fn width(&self) -> (width: u32)
        ensures
            width == self@.width,
    {
        self.width
    }

    /// The height of this texture.
    pub fn height(&self) -> (height: u32)
        ensures
            height == self@.height,
    {
        self.height
    }

    /// The format of this texture.
    pub fn format(&self) -> (format: Format)
        ensures
            format == self@.format,
    {
        self.format
    }

    /// Releases the texture: deletes its image on the GPU.
    pub fn release(self, context: &mut Context)
        requires
            old(context).wf(),
            self.valid(old(context)),
        ensures
            final(context).wf(),
            final(context)@ == old(context)@.after(
                GpuCommand::Delete { kind: ObjectKind::Texture, id: self@.id },
            ),
    {
        context.submit(GpuCommand::Delete { kind: ObjectKind::Texture, id: self.id });
    }

    /// Attaches the texture, as the color attachment of the given channel,
    /// to the framebuffer bound to `target`.
    pub(crate) fn bind_as_color_target(
        &self,
        context: &mut Context,
        target: FramebufferTarget,
        channel: u32,
    )
        requires
            old(context).wf(),
            self.valid(old(context)),
            old(context)@.framebuffer(target) is Some,
            channel < old(context)@.limits.max_color_attachments,
        ensures
            final(context).wf(),
            final(context)@ == old(context)@.after(
                GpuCommand::FramebufferTexture {
                    target,
                    attachment: Attachment::Color(channel),
                    id: self@.id,
                },
            ),
    {
        context.submit(
            GpuCommand::FramebufferTexture {
                target,
                attachment: Attachment::Color(channel),
                id: self.id,
            },
        );
    }
}

} // verus!
