use vstd::prelude::*;
use crate::command::{Format, GpuCommand, ObjectKind};
use crate::context::{Context, ContextView};
use crate::error::RenderError;
use crate::render_target::{ColorTarget, Composition, DepthTarget, RenderTarget, TargetView};
use crate::texture::depth_texture2d_multisample::DepthTexture2DMultisample;
use crate::texture::texture2d::Texture2D;
use crate::texture::texture2d_multisample::Texture2DMultisample;
use crate::texture::{with_renderbuffer, ImageView, TextureDataType};

verus! {

/// What a multisample render target holds: a color image, a depth image, or both.
pub struct MultisampleView {
    pub color: Option<ImageView>,
    pub depth: Option<ImageView>,
}

impl MultisampleView {
    /// The image that gives the target its size and number of samples:
    /// the color image if there is one, else the depth image.
    pub open spec fn image(self) -> ImageView {
        match self.color {
            Some(color) => color,
            None => self.depth->Some_0,
        }
    }

    /// The color image as an attachment.
    pub open spec fn color_view(self) -> Seq<TargetView> {
        match self.color {
            Some(image) => seq![TargetView { image, kind: ObjectKind::Renderbuffer }],
            None => Seq::empty(),
        }
    }

    /// The depth image as an attachment.
    pub open spec fn depth_view(self) -> Option<TargetView> {
        match self.depth {
            Some(image) => Some(TargetView { image, kind: ObjectKind::Renderbuffer }),
            None => None,
        }
    }

    /// The composition of the images that the target holds.
    pub open spec fn composition(self) -> Composition {
        Composition {
            colors: self.color_view(),
            depth: self.depth_view(),
            width: self.image().width,
            height: self.image().height,
        }
    }

    /// Whether there is an image, and color and depth are two images that
    /// agree in size and number of samples where there are both.
    pub open spec fn consistent(self) -> bool {
        &&& self.color is Some || self.depth is Some
        &&& self.color matches Some(color) ==> (self.depth matches Some(depth) ==> color.id
            != depth.id && color.width == depth.width && color.height == depth.height
            && color.samples == depth.samples)
    }

    /// Whether the images live in a context in the given state.
    pub open spec fn valid(self, ctx: ContextView) -> bool {
        &&& self.color matches Some(color) ==> ctx.is_live(color.id, ObjectKind::Renderbuffer)
        &&& self.depth matches Some(depth) ==> ctx.is_live(depth.id, ObjectKind::Renderbuffer)
    }
}

/// An offscreen render target with several samples per fragment, for
/// anti-aliased rendering. It owns a multisample color texture, a
/// multisample depth texture, or both, and can be resolved into a
/// single-sample color texture that later passes can sample.
#[derive(Debug)]
pub struct RenderTargetMultisample {
    color: Option<Texture2DMultisample>,
    depth: Option<DepthTexture2DMultisample>,
}

impl View for RenderTargetMultisample {
    type V = MultisampleView;

    closed spec fn view(&self) -> MultisampleView {
        MultisampleView {
            color: match self.color {
                Some(texture) => Some(texture@),
                None => None,
            },
            depth: match self.depth {
                Some(texture) => Some(texture@),
                None => None,
            },
        }
    }
}

impl RenderTargetMultisample {
    /// A target holds an image, and color and depth agree where it holds both.
    #[verifier::type_invariant]
    closed spec fn inv(&self) -> bool {
        self@.consistent()
    }

    /// Whether the textures of the target live in the given context.
    pub open spec fn valid(&self, ctx: &Context) -> bool {
        self@.valid(ctx@)
    }

    /// Constructs a new multisample target with a color texture of the given
    /// size and number of samples per fragment. The format is determined by
    /// the generic parameter.
    ///
    /// Fails with `ResourceAllocationFailure`, and leaves the context as it
    /// was, exactly if the context does not support the size or the number
    /// of samples, or has no handle left.
    pub fn new_color<T: TextureDataType>(
        context: &mut Context,
        width: u32,
        height: u32,
        number_of_samples: u32,
    ) -> (r: Result<RenderTargetMultisample, RenderError>)
        requires
            old(context).wf(),
        ensures
            final(context).wf(),
            r is Ok <==> old(context)@.supports_size(width, height) && old(
                context,
            )@.supports_samples(number_of_samples) && old(context)@.free_handles() >= 1,
            r matches Ok(target) ==> {
                &&& target@ == (MultisampleView {
                    color: Some(
                        ImageView {
                            id: old(context)@.next_handle(),
                            width,
                            height,
                            format: T::format(),
                            samples: number_of_samples,
                        },
                    ),
                    depth: None,
                })
                &&& target.valid(final(context))
                &&& final(context)@ == with_renderbuffer(
                    old(context)@,
                    T::format(),
                    width,
                    height,
                    number_of_samples,
                )
            },
            r matches Err(e) ==> e == RenderError::ResourceAllocationFailure && final(context)@
                == old(context)@,
    {
        match Texture2DMultisample::new::<T>(context, width, height, number_of_samples) {
            Ok(color) => Ok(RenderTargetMultisample { color: Some(color), depth: None }),
            Err(e) => Err(e),
        }
    }

    /// Constructs a new multisample target with a depth texture of the given
    /// size and number of samples per fragment.
    ///
    /// Fails with `ResourceAllocationFailure`, and leaves the context as it
    /// was, exactly if the context does not support the size or the number
    /// of samples, or has no handle left.
    pub fn new_depth(context: &mut Context, width: u32, height: u32, number_of_samples: u32) -> (r:
        Result<RenderTargetMultisample, RenderError>)
        requires
            old(context).wf(),
        ensures
            final(context).wf(),
            r is Ok <==> old(context)@.supports_size(width, height) && old(
                context,
            )@.supports_samples(number_of_samples) && old(context)@.free_handles() >= 1,
            r matches Ok(target) ==> {
                &&& target@ == (MultisampleView {
                    color: None,
                    depth: Some(
                        ImageView {
                            id: old(context)@.next_handle(),
                            width,
                            height,
                            format: Format::Depth32F,
                            samples: number_of_samples,
                        },
                    ),
                })
                &&& target.valid(final(context))
                &&& final(context)@ == with_renderbuffer(
                    old(context)@,
                    Format::Depth32F,
                    width,
                    height,
                    number_of_samples,
                )
            },
            r matches Err(e) ==> e == RenderError::ResourceAllocationFailure && final(context)@
                == old(context)@,
    {
        match DepthTexture2DMultisample::new(context, width, height, number_of_samples) {
            Ok(depth) => Ok(RenderTargetMultisample { color: None, depth: Some(depth) }),
            Err(e) => Err(e),
        }
    }

    /// Constructs a new multisample target with a color and a depth texture
    /// of the given size and number of samples per fragment. The color
    /// format is determined by the generic parameter.
    ///
    /// Fails with `ResourceAllocationFailure`, and leaves the context as it
    /// was, exactly if the context does not support the size or the number
    /// of samples, or has not two handles left.
    pub fn new<T: TextureDataType>(
        context: &mut Context,
        width: u32,
        height: u32,
        number_of_samples: u32,
    ) -> (r: Result<RenderTargetMultisample, RenderError>)
        requires
            old(context).wf(),
        ensures
            final(context).wf(),
            r is Ok <==> old(context)@.supports_size(width, height) && old(
                context,
            )@.supports_samples(number_of_samples) && old(context)@.free_handles() >= 2,
            r matches Ok(target) ==> {
                &&& target@ == (MultisampleView {
                    color: Some(
                        ImageView {
                            id: old(context)@.next_handle(),
                            width,
                            height,
                            format: T::format(),
                            samples: number_of_samples,
                        },
                    ),
                    depth: Some(
                        ImageView {
                            id: (old(context)@.next_handle() + 1) as u32,
                            width,
                            height,
                            format: Format::Depth32F,
                            samples: number_of_samples,
                        },
                    ),
                })
                &&& target.valid(final(context))
                &&& final(context)@ == with_renderbuffer(
                    with_renderbuffer(old(context)@, T::format(), width, height, number_of_samples),
                    Format::Depth32F,
                    width,
                    height,
                    number_of_samples,
                )
            },
            r matches Err(e) ==> e == RenderError::ResourceAllocationFailure && final(context)@
                == old(context)@,
    {
        if !context.can_allocate(2) {
            return Err(RenderError::ResourceAllocationFailure);
        }
        let color = match Texture2DMultisample::new::<T>(
            context,
            width,
            height,
            number_of_samples,
        ) {
            Ok(color) => color,
            Err(e) => {
                return Err(e);
            },
        };
        let depth = DepthTexture2DMultisample::new(
            context,
            width,
            height,
            number_of_samples,
        ).unwrap();
        Ok(RenderTargetMultisample { color: Some(color), depth: Some(depth) })
    }

    /// The width of this target.
    pub fn width(&self) -> (width: u32)
        ensures
            width == self@.image().width,
    {
        proof {
            use_type_invariant(self);
        }
        match &self.color {
            Some(color) => color.width(),
            None => self.depth.as_ref().unwrap().width(),
        }
    }

    /// The height of this target.
    pub fn height(&self) -> (height: u32)
        ensures
            height == self@.image().height,
    {
        proof {
            use_type_invariant(self);
        }
        match &self.color {
            Some(color) => color.height(),
            None => self.depth.as_ref().unwrap().height(),
        }
    }

    /// The number of samples for each fragment.
    pub fn number_of_samples(&self) -> (samples: u32)
        ensures
            samples == self@.image().samples,
    {
        proof {
            use_type_invariant(self);
        }
        match &self.color {
            Some(color) => color.number_of_samples(),
            None => self.depth.as_ref().unwrap().number_of_samples(),
        }
    }

    /// The render target that consists of the textures of this target:
    /// something to clear and to draw into.
    pub fn as_render_target(&mut self) -> (target: RenderTarget<'_>)
        ensures
            target.wf(),
            target@ == old(self)@.composition(),
            *final(self) == *old(self),
    {
        proof {
            use_type_invariant(&*self);
        }
        match (&self.color, &self.depth) {
            (Some(color), Some(depth)) => RenderTarget::new(
                ColorTarget::new_texture_2d_multisample(color),
                DepthTarget::new_texture_2d_multisample(depth),
            ).unwrap(),
            (Some(color), None) => RenderTarget::new_color(
                ColorTarget::new_texture_2d_multisample(color),
            ),
            (None, _) => RenderTarget::new_depth(
                DepthTarget::new_texture_2d_multisample(self.depth.as_ref().unwrap()),
            ),
        }
    }

    /// Produces a fresh single-sample color texture of the size of this
    /// target and copies the color texture of the target into it, which
    /// averages the samples of each pixel. The target stays as it is and can
    /// be rendered into again.
    ///
    /// A target without a color texture has nothing to resolve: the result
    /// is `None` and the context stays as it was. With a color texture the
    /// call succeeds exactly if the context can provide the new texture and
    /// the two framebuffers of the copy; else it fails with
    /// `ResourceAllocationFailure` and leaves the context as it was.
    pub fn resolve(&self, context: &mut Context) -> (r: Result<Option<Texture2D>, RenderError>)
        requires
            old(context).wf(),
            self.valid(old(context)),
        ensures
            final(context).wf(),
            self.valid(final(context)),
            self@.color is None ==> r is Ok && r->Ok_0 is None && final(context)@ == old(context)@,
            self@.color matches Some(color) ==> {
                let source = TargetView { image: color, kind: ObjectKind::Renderbuffer };
                &&& r is Ok <==> source.resolvable(old(context)@)
                &&& r matches Ok(resolved) ==> resolved is Some && {
                    let texture = resolved->Some_0;
                    &&& texture@ == source.resolved_image(old(context)@)
                    &&& texture@.width == self@.image().width
                    &&& texture@.height == self@.image().height
                    &&& texture@.samples == 1
                    &&& texture.valid(final(context))
                    &&& final(context)@ == source.resolved(old(context)@)
                }
                &&& r matches Err(e) ==> e == RenderError::ResourceAllocationFailure
                    && final(context)@ == old(context)@
            },
    {
        match &self.color {
            Some(color) => {
                let source = ColorTarget::new_texture_2d_multisample(color);
                match source.resolve(context) {
                    Ok(color_texture) => Ok(Some(color_texture)),
                    Err(e) => Err(e),
                }
            },
            None => Ok(None),
        }
    }

    /// Releases the target: deletes its images on the GPU, color before depth.
    pub fn release(self, context: &mut Context)
        requires
            old(context).wf(),
            self.valid(old(context)),
        ensures
            final(context).wf(),
            final(context)@ == Self::released(old(context)@, self@),
    {
        proof {
            use_type_invariant(&self);
        }
        let RenderTargetMultisample { color, depth } = self;
        match color {
            Some(texture) => {
                texture.release(context);
            },
            None => {},
        }
        match depth {
            Some(texture) => {
                texture.release(context);
            },
            None => {},
        }
    }

    /// The state of a context after a target with the given images has been released.
    pub open spec fn released(ctx: ContextView, target: MultisampleView) -> ContextView {
        let without_color = match target.color {
            Some(color) => ctx.after(
                GpuCommand::Delete { kind: ObjectKind::Renderbuffer, id: color.id },
            ),
            None => ctx,
        };
        match target.depth {
            Some(depth) => without_color.after(
                GpuCommand::Delete { kind: ObjectKind::Renderbuffer, id: depth.id },
            ),
            None => without_color,
        }
    }
}

} // verus!
