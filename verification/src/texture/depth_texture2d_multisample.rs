use vstd::prelude::*;
use crate::command::{Attachment, FramebufferTarget, GpuCommand, ObjectKind};
use crate::context::Context;
use crate::error::RenderError;
use crate::render_target::DepthTarget;
use crate::command::Format;
use crate::texture::{with_renderbuffer, ImageView};

verus! {

/// A multisampled 2D depth texture.
///
/// It can be rendered to and resolved, but not sampled: it has neither
/// filtering, nor wrapping, nor mip levels.
#[derive(Debug)]
pub struct DepthTexture2DMultisample {
    id: u32,
    width: u32,
    height: u32,
    number_of_samples: u32,
}

impl View for DepthTexture2DMultisample {
    type V = ImageView;

    closed spec fn view(&self) -> ImageView {
        ImageView {
            id: self.id,
            width: self.width,
            height: self.height,
            format: Format::Depth32F,
            samples: self.number_of_samples,
        }
    }
}

impl DepthTexture2DMultisample {
    /// Whether the texture lives in the given context.
    pub open spec fn valid(&self, ctx: &Context) -> bool {
        ctx@.is_live(self@.id, ObjectKind::Renderbuffer)
    }

    /// Constructs a new empty multisampled 2D depth texture with the given
    /// size and number of samples per fragment.
    ///
    /// Fails with `ResourceAllocationFailure`, and leaves the context as it
    /// was, exactly if the context does not support the size or the number
    /// of samples, or has no handle left.
    pub fn new(
        context: &mut Context,
        width: u32,
        height: u32,
        number_of_samples: u32,
    ) -> (r: Result<DepthTexture2DMultisample, RenderError>)
        requires
            old(context).wf(),
        ensures
            final(context).wf(),
            r is Ok <==> old(context)@.supports_size(width, height) && old(
                context,
            )@.supports_samples(number_of_samples) && old(context)@.free_handles() >= 1,
            r matches Ok(texture) ==> {
                &&& texture@ == (ImageView {
                    id: old(context)@.next_handle(),
                    width,
                    height,
                    format: Format::Depth32F,
                    samples: number_of_samples,
                })
                &&& texture.valid(final(context))
                &&& final(context)@ == with_renderbuffer(
                    old(context)@,
                    Format::Depth32F,
                    width,
                    height,
                    number_of_samples,
                )
            },
            r matches Err(e) ==> e == RenderError::ResourceAllocationFailure && final(context)@
                == old(context)@,
    {
        if !context.supports_size(width, height) || !context.supports_samples(number_of_samples)
            || !context.can_allocate(1) {
            return Err(RenderError::ResourceAllocationFailure);
        }
        let format = Format::Depth32F;
        let id = context.next_handle();
        context.submit(GpuCommand::Create { kind: ObjectKind::Renderbuffer, id });
        let texture = DepthTexture2DMultisample { id, width, height, number_of_samples };
        texture.bind(context);
        // Neither filtering, nor mip levels, nor wrapping apply to a multisampled texture.
        context.submit(
            GpuCommand::RenderbufferStorageMultisample {
                samples: number_of_samples,
                format,
                width,
                height,
            },
        );
        Ok(texture)
    }

    /// The handle of the image of this texture.
    pub fn id(&self) -> (id: u32)
        ensures
            id == self@.id,
    {
        self.id
    }

    /// Returns a depth target which can be used to clear, write to and read from the texture.
    /// Combine it with a color target to write to both at the same time.
    pub fn as_depth_target(&mut self) -> (target: DepthTarget<'_>)
        ensures
            target == (DepthTarget::Texture2DMultisample { texture: &*old(self) }),
            *final(self) == *old(self),
    {
        DepthTarget::Texture2DMultisample { texture: &*self }
    }

    /// The width of this texture.
    pub fn width(&self) -> (width: u32)
        ensures
            width == self@.width,
    {
        self.width
    }

    /// The height of this texture.
    pub fn height(&self) -> (height: u32)
        ensures
            height == self@.height,
    {
        self.height
    }

    /// The number of samples for each fragment.
    pub fn number_of_samples(&self) -> (samples: u32)
        ensures
            samples == self@.samples,
    {
        self.number_of_samples
    }

    /// Releases the texture: deletes its image on the GPU.
    pub fn release(self, context: &mut Context)
        requires
            old(context).wf(),
            self.valid(old(context)),
        ensures
            final(context).wf(),
            final(context)@ == old(context)@.after(
                GpuCommand::Delete { kind: ObjectKind::Renderbuffer, id: self@.id },
            ),
    {
        context.submit(GpuCommand::Delete { kind: ObjectKind::Renderbuffer, id: self.id });
    }

    /// Attaches the texture, as the depth attachment, to the framebuffer bound to `target`.
    pub(crate) fn bind_as_depth_target(&self, context: &mut Context, target: FramebufferTarget)
        requires
            old(context).wf(),
            self.valid(old(context)),
            old(context)@.framebuffer(target) is Some,
        ensures
            final(context).wf(),
            final(context)@ == old(context)@.after(
                GpuCommand::FramebufferRenderbuffer {
                    target,
                    attachment: Attachment::Depth,
                    id: self@.id,
                },
            ),
    {
        context.submit(
            GpuCommand::FramebufferRenderbuffer {
                target,
                attachment: Attachment::Depth,
                id: self.id,
            },
        );
    }

    /// Binds the texture as the renderbuffer that storage commands apply to.
    pub(crate) fn bind(&self, context: &mut Context)
        requires
            old(context).wf(),
            self.valid(old(context)),
        ensures
            final(context).wf(),
            final(context)@ == old(context)@.after(
                GpuCommand::BindRenderbuffer { id: Some(self@.id) },
            ),
    {
        context.submit(GpuCommand::BindRenderbuffer { id: Some(self.id) });
    }
}

} // verus!
