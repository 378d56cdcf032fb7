use vstd::prelude::*;
use crate::command::{
    Attachment, Format, FramebufferTarget, GpuCommand, Interpolation, ObjectKind, Sampling,
    Wrapping,
};
use crate::context::Context;
use crate::error::RenderError;
use crate::render_target::DepthTarget;
use crate::texture::{create_texture, with_texture, ImageView};

verus! {

/// A 2D depth texture with one sample per fragment, which can be rendered
/// to and sampled, as a shadow map is.
#[derive(Debug)]
pub struct DepthTexture2D {
    id: u32,
    width: u32,
    height: u32,
    wrap_s: Wrapping,
    wrap_t: Wrapping,
}

impl View for DepthTexture2D {
    type V = ImageView;

    closed spec fn view(&self) -> ImageView {
        ImageView {
            id: self.id,
            width: self.width,
            height: self.height,
            format: Format::Depth32F,
            samples: 1,
        }
    }
}

impl DepthTexture2D {
    /// Whether the texture lives in the given context.
    pub open spec fn valid(&self, ctx: &Context) -> bool {
        ctx@.is_live(self@.id, ObjectKind::Texture)
    }

    /// How a depth texture with the given wrapping is sampled: unfiltered, without mip levels.
    pub open spec fn sampling(wrap_s: Wrapping, wrap_t: Wrapping) -> Sampling {
        Sampling {
            min_filter: Interpolation::Nearest,
            mag_filter: Interpolation::Nearest,
            mip_map_filter: None,
            wrap_s,
            wrap_t,
        }
    }

    /// Constructs a new empty 2D depth texture of the given size.
    ///
    /// Fails with `ResourceAllocationFailure`, and leaves the context as it
    /// was, exactly if the context does not support the size or has no
    /// handle left.
    pub fn new(
        context: &mut Context,
        width: u32,
        height: u32,
        wrap_s: Wrapping,
        wrap_t: Wrapping,
    ) -> (r: Result<DepthTexture2D, RenderError>)
        requires
            old(context).wf(),
        ensures
            final(context).wf(),
            r is Ok <==> old(context)@.supports_size(width, height) && old(context)@.free_handles()
                >= 1,
            r matches Ok(texture) ==> {
                &&& texture@ == (ImageView {
                    id: old(context)@.next_handle(),
                    width,
                    height,
                    format: Format::Depth32F,
                    samples: 1,
                })
                &&& texture.valid(final(context))
                &&& final(context)@ == with_texture(
                    old(context)@,
                    Format::Depth32F,
                    width,
                    height,
                    Self::sampling(wrap_s, wrap_t),
                )
            },
            r matches Err(e) ==> e == RenderError::ResourceAllocationFailure && final(context)@
                == old(context)@,
    {
        let sampling = Sampling {
            min_filter: Interpolation::Nearest,
            mag_filter: Interpolation::Nearest,
            mip_map_filter: None,
            wrap_s,
            wrap_t,
        };
        match create_texture(context, Format::Depth32F, width, height, sampling) {
            Ok(id) => Ok(DepthTexture2D { id, width, height, wrap_s, wrap_t }),
            Err(e) => Err(e),
        }
    }

    /// The handle of the image of this texture.
    pub fn id(&self) -> (id: u32)
        ensures
            id == self@.id,
    {
        self.id
    }

    /// Returns a depth target which can be used to clear, write to and read from the texture.
    /// Combine it with a color target to write to both at the same time.
    pub fn as_depth_target(&mut self) -> (target: DepthTarget<'_>)
        ensures
            target == (DepthTarget::Texture2D { texture: &*old(self) }),
            *final(self) == *old(self),
    {
        DepthTarget::Texture2D { texture: &*self }
    }

    /// The width of this texture.
    pub fn width(&self) -> (width: u32)
        ensures
            width == self@.width,
    {
        self.width
    }

    /// The height of this texture.
    pub fn height(&self) -> (height: u32)
        ensures
            height == self@.height,
    {
        self.height
    }

    /// Releases the texture: deletes its image on the GPU.
    pub fn release(self, context: &mut Context)
        requires
            old(context).wf(),
            self.valid(old(context)),
        ensures
            final(context).wf(),
            final(context)@ == old(context)@.after(
                GpuCommand::Delete { kind: ObjectKind::Texture, id: self@.id },
            ),
    {
        context.submit(GpuCommand::Delete { kind: ObjectKind::Texture, id: self.id });
    }

    /// Attaches the texture, as the depth attachment, to the framebuffer bound to `target`.
    pub(crate) fn bind_as_depth_target(&self, context: &mut Context, target: FramebufferTarget)
        requires
            old(context).wf(),
            self.valid(old(context)),
            old(context)@.framebuffer(target) is Some,
        ensures
            final(context).wf(),
            final(context)@ == old(context)@.after(
                GpuCommand::FramebufferTexture {
                    target,
                    attachment: Attachment::Depth,
                    id: self@.id,
                },
            ),
    {
        context.submit(
            GpuCommand::FramebufferTexture { target, attachment: Attachment::Depth, id: self.id },
        );
    }
}

} // verus!
