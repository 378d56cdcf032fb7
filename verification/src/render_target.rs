use vstd::prelude::*;
use crate::command::{
    Attachment, ClearState, DrawCommand, FramebufferTarget, GpuCommand, Interpolation, ObjectKind,
    Sampling, Wrapping,
};
use crate::context::{Context, ContextView};
use crate::error::RenderError;
use crate::texture::depth_texture2d::DepthTexture2D;
use crate::texture::depth_texture2d_multisample::DepthTexture2DMultisample;
use crate::texture::texture2d::Texture2D;
use crate::texture::texture2d_multisample::Texture2DMultisample;
use crate::texture::{with_texture, ImageView, TextureDataType};

pub mod multisample;

verus! {

/// A borrowed view of a color texture as something to render into or to copy from.
///
/// The view does not own the texture; it is consumed when it becomes part of
/// a render target.
#[allow(inconsistent_fields)]
pub enum ColorTarget<'a> {
    Texture2D { texture: &'a Texture2D },
    Texture2DMultisample { texture: &'a Texture2DMultisample },
}

/// A borrowed view of a depth texture as something to render into or to copy from.
#[allow(inconsistent_fields)]
pub enum DepthTarget<'a> {
    Texture2D { texture: &'a DepthTexture2D },
    Texture2DMultisample { texture: &'a DepthTexture2DMultisample },
}

/// What a view of a texture is to a render target: the image and the kind of
/// GPU object that holds it.
#[derive(Clone, Copy, Debug, PartialEq, Eq, Structural)]
pub struct TargetView {
    pub image: ImageView,
    pub kind: ObjectKind,
}

impl TargetView {
    /// Whether the image lives in a context in the given state.
    pub open spec fn valid(self, ctx: ContextView) -> bool {
        ctx.is_live(self.image.id, self.kind)
    }

    /// The command that attaches the image to the framebuffer bound to `target`.
    pub open spec fn attach(self, target: FramebufferTarget, attachment: Attachment) -> GpuCommand {
        match self.kind {
            ObjectKind::Renderbuffer => GpuCommand::FramebufferRenderbuffer {
                target,
                attachment,
                id: self.image.id,
            },
            _ => GpuCommand::FramebufferTexture { target, attachment, id: self.image.id },
        }
    }

    /// How a texture that holds resolved samples is sampled: unfiltered and clamped.
    pub open spec fn resolved_sampling() -> Sampling {
        Sampling {
            min_filter: Interpolation::Nearest,
            mag_filter: Interpolation::Nearest,
            mip_map_filter: None,
            wrap_s: Wrapping::ClampToEdge,
            wrap_t: Wrapping::ClampToEdge,
        }
    }

    /// Whether a context in the given state can resolve the image: it can
    /// allocate a texture of the size of the image, allows a color
    /// attachment, and has the handles for the texture and for the two
    /// framebuffers of the copy.
    pub open spec fn resolvable(self, ctx: ContextView) -> bool {
        &&& ctx.supports_size(self.image.width, self.image.height)
        &&& ctx.limits.max_color_attachments >= 1
        &&& ctx.free_handles() >= 3
    }

    /// The texture that resolving the image in the given state yields: a
    /// single-sample image of the same size and format.
    pub open spec fn resolved_image(self, ctx: ContextView) -> ImageView {
        ImageView { id: ctx.next_handle(), samples: 1, ..self.image }
    }

    /// The state of a context after the image has been resolved: the new
    /// texture has been created and the image copied to it.
    pub open spec fn resolved(self, ctx: ContextView) -> ContextView {
        Composition::of_color(self).blitted(
            with_texture(
                ctx,
                self.image.format,
                self.image.width,
                self.image.height,
                Self::resolved_sampling(),
            ),
            Composition::of_color(
                TargetView { image: self.resolved_image(ctx), kind: ObjectKind::Texture },
            ),
        )
    }
}

/// The views of the given color targets, in order.
pub open spec fn target_views<'a>(colors: Seq<ColorTarget<'a>>) -> Seq<TargetView> {
    colors.map_values(|c: ColorTarget<'a>| c@)
}

/// The view of the given depth target, if there is one.
pub open spec fn depth_view<'a>(depth: Option<DepthTarget<'a>>) -> Option<TargetView> {
    match depth {
        Some(d) => Some(d@),
        None => None,
    }
}

impl<'a> View for ColorTarget<'a> {
    type V = TargetView;

    open spec fn view(&self) -> TargetView {
        match self {
            ColorTarget::Texture2D { texture } => TargetView {
                image: texture@,
                kind: ObjectKind::Texture,
            },
            ColorTarget::Texture2DMultisample { texture } => TargetView {
                image: texture@,
                kind: ObjectKind::Renderbuffer,
            },
        }
    }
}

impl<'a> View for DepthTarget<'a> {
    type V = TargetView;

    open spec fn view(&self) -> TargetView {
        match self {
            DepthTarget::Texture2D { texture } => TargetView {
                image: texture@,
                kind: ObjectKind::Texture,
            },
            DepthTarget::Texture2DMultisample { texture } => TargetView {
                image: texture@,
                kind: ObjectKind::Renderbuffer,
            },
        }
    }
}

impl<'a> ColorTarget<'a> {
    /// A view of the given single-sample texture.
    pub fn new_texture_2d(texture: &'a Texture2D) -> (target: ColorTarget<'a>)
        ensures
            target == (ColorTarget::Texture2D { texture }),
    {
        ColorTarget::Texture2D { texture }
    }

    /// A view of the given multisample texture.
    pub fn new_texture_2d_multisample(texture: &'a Texture2DMultisample) -> (target: ColorTarget<
        'a,
    >)
        ensures
            target == (ColorTarget::Texture2DMultisample { texture }),
    {
        ColorTarget::Texture2DMultisample { texture }
    }

    /// The width of the image.
    pub fn width(&self) -> (width: u32)
        ensures
            width == self@.image.width,
    {
        match self {
            ColorTarget::Texture2D { texture } => texture.width(),
            ColorTarget::Texture2DMultisample { texture } => texture.width(),
        }
    }

    /// The height of the image.
    pub fn height(&self) -> (height: u32)
        ensures
            height == self@.image.height,
    {
        match self {
            ColorTarget::Texture2D { texture } => texture.height(),
            ColorTarget::Texture2DMultisample { texture } => texture.height(),
        }
    }

    /// Whether the image has more than one sample per fragment by its type.
    pub fn is_multisample(&self) -> (b: bool)
        ensures
            b == (self is Texture2DMultisample),
    {
        match self {
            ColorTarget::Texture2D { .. } => false,
            ColorTarget::Texture2DMultisample { .. } => true,
        }
    }

    /// The render target that consists of this view alone.
    pub fn as_render_target(self) -> (target: RenderTarget<'a>)
        ensures
            target.wf(),
            target@ == Composition::of_color(self@),
    {
        RenderTarget::new_color(self)
    }

    /// Produces a fresh single-sample texture of the size and format of the
    /// multisample texture that this view refers to, and copies the texture
    /// into it, which averages the samples of each pixel. The multisample
    /// texture stays as it is.
    ///
    /// A view of a single-sample texture cannot be resolved: the call fails
    /// with `UnsupportedOperation`. A view of a multisample texture is
    /// resolved exactly if the context can provide the new texture and the
    /// two framebuffers of the copy; else the call fails with
    /// `ResourceAllocationFailure`. A call that fails leaves the context as
    /// it was.
    pub fn resolve(&self, context: &mut Context) -> (r: Result<Texture2D, RenderError>)
        requires
            old(context).wf(),
            self@.valid(old(context)@),
        ensures
            final(context).wf(),
            r is Ok <==> self is Texture2DMultisample && self@.resolvable(old(context)@),
            r matches Ok(texture) ==> {
                &&& texture@ == self@.resolved_image(old(context)@)
                &&& texture@.width == self@.image.width
                &&& texture@.height == self@.image.height
                &&& texture@.samples == 1
                &&& texture.sampling_parameters() == TargetView::resolved_sampling()
                &&& texture.valid(final(context))
                &&& self@.valid(final(context)@)
                &&& final(context)@ == self@.resolved(old(context)@)
            },
            r matches Err(e) ==> final(context)@ == old(context)@ && e == (if self
                is Texture2DMultisample {
                RenderError::ResourceAllocationFailure
            } else {
                RenderError::UnsupportedOperation
            }),
            forall|kind: ObjectKind|
                kind != ObjectKind::Texture ==> #[trigger] final(context)@.live(kind) == old(
                    context,
                )@.live(kind),
    {
        match self {
            ColorTarget::Texture2D { .. } => Err(RenderError::UnsupportedOperation),
            ColorTarget::Texture2DMultisample { texture } => {
                let width = texture.width();
                let height = texture.height();
                if !context.supports_size(width, height) || context.limits().max_color_attachments
                    < 1 || !context.can_allocate(3) {
                    return Err(RenderError::ResourceAllocationFailure);
                }
                let sampling = Sampling {
                    min_filter: Interpolation::Nearest,
                    mag_filter: Interpolation::Nearest,
                    mip_map_filter: None,
                    wrap_s: Wrapping::ClampToEdge,
                    wrap_t: Wrapping::ClampToEdge,
                };
                let mut color_texture = Texture2D::new_empty_with_format(
                    context,
                    width,
                    height,
                    texture.format(),
                    sampling,
                ).unwrap();
                let ghost allocated = context@;
                {
                    let target = color_texture.as_color_target().as_render_target();
                    let source = ColorTarget::new_texture_2d_multisample(
                        texture,
                    ).as_render_target();
                    let copied = source.blit(context, &target);
                    assert(copied is Ok);
                }
                proof {
                    assert forall|kind: ObjectKind| kind != ObjectKind::Texture implies #[trigger]
                        context@.live(kind) == old(context)@.live(kind) by {
                        assert(allocated.live(kind) =~= old(context)@.live(kind));
                    }
                }
                Ok(color_texture)
            },
        }
    }

    /// Attaches the image, as the color attachment of the given channel, to
    /// the framebuffer bound to `target`.
    pub(crate) fn bind_as_color_target(
        &self,
        context: &mut Context,
        target: FramebufferTarget,
        channel: u32,
    )
        requires
            old(context).wf(),
            self@.valid(old(context)@),
            old(context)@.framebuffer(target) is Some,
            channel < old(context)@.limits.max_color_attachments,
        ensures
            final(context).wf(),
            final(context)@ == old(context)@.after(
                self@.attach(target, Attachment::Color(channel)),
            ),
    {
        match self {
            ColorTarget::Texture2D { texture } => texture.bind_as_color_target(
                context,
                target,
                channel,
            ),
            ColorTarget::Texture2DMultisample { texture } => texture.bind_as_color_target(
                context,
                target,
                channel,
            ),
        }
    }
}

impl<'a> DepthTarget<'a> {
    /// A view of the given single-sample depth texture.
    pub fn new_texture_2d(texture: &'a DepthTexture2D) -> (target: DepthTarget<'a>)
        ensures
            target == (DepthTarget::Texture2D { texture }),
    {
        DepthTarget::Texture2D { texture }
    }

    /// A view of the given multisample depth texture.
    pub fn new_texture_2d_multisample(texture: &'a DepthTexture2DMultisample) -> (target:
        DepthTarget<'a>)
        ensures
            target == (DepthTarget::Texture2DMultisample { texture }),
    {
        DepthTarget::Texture2DMultisample { texture }
    }

    /// The width of the image.
    pub fn width(&self) -> (width: u32)
        ensures
            width == self@.image.width,
    {
        match self {
            DepthTarget::Texture2D { texture } => texture.width(),
            DepthTarget::Texture2DMultisample { texture } => texture.width(),
        }
    }

    /// The height of the image.
    pub fn height(&self) -> (height: u32)
        ensures
            height == self@.image.height,
    {
        match self {
            DepthTarget::Texture2D { texture } => texture.height(),
            DepthTarget::Texture2DMultisample { texture } => texture.height(),
        }
    }

    /// The render target that consists of this view alone.
    pub fn as_render_target(self) -> (target: RenderTarget<'a>)
        ensures
            target.wf(),
            target@ == Composition::of_depth(self@),
    {
        RenderTarget::new_depth(self)
    }

    /// Attaches the image, as the depth attachment, to the framebuffer bound to `target`.
    pub(crate) fn bind_as_depth_target(&self, context: &mut Context, target: FramebufferTarget)
        requires
            old(context).wf(),
            self@.valid(old(context)@),
            old(context)@.framebuffer(target) is Some,
        ensures
            final(context).wf(),
            final(context)@ == old(context)@.after(self@.attach(target, Attachment::Depth)),
    {
        match self {
            DepthTarget::Texture2D { texture } => texture.bind_as_depth_target(context, target),
            DepthTarget::Texture2DMultisample { texture } => texture.bind_as_depth_target(
                context,
                target,
            ),
        }
    }
}


/// What a render target is composed of.
pub struct Composition {
    /// The color attachments; the index of each is its attachment index and
    /// the fragment output channel that writes to it.
    pub colors: Seq<TargetView>,
    pub depth: Option<TargetView>,
    pub width: u32,
    pub height: u32,
}

/// The draw commands as they are queued.
pub open spec fn as_gpu_commands(draws: Seq<DrawCommand>) -> Seq<GpuCommand> {
    Seq::new(draws.len(), |i: int| GpuCommand::Draw { command: draws[i] })
}

/// The commands that clear as the state asks: none where it asks for nothing.
pub open spec fn clear_commands(clear_state: ClearState) -> Seq<GpuCommand> {
    if clear_state.is_none() {
        Seq::empty()
    } else {
        seq![GpuCommand::Clear { state: clear_state }]
    }
}

/// The commands that give a binding point back: they bind what was bound
/// before and delete the framebuffer that was made for the binding, if any.
pub open spec fn unbind_commands(
    target: FramebufferTarget,
    framebuffer: Option<u32>,
    prior: Option<u32>,
) -> Seq<GpuCommand> {
    match framebuffer {
        None => seq![GpuCommand::BindFramebuffer { target, id: prior }],
        Some(id) => seq![
            GpuCommand::BindFramebuffer { target, id: prior },
            GpuCommand::Delete { kind: ObjectKind::Framebuffer, id },
        ],
    }
}

/// The objects of a context after `count` more handles have been handed out
/// and their objects deleted again.
pub open spec fn retired(objects: Seq<Option<ObjectKind>>, count: int) -> Seq<Option<ObjectKind>> {
    objects + Seq::new(count as nat, |i: int| None::<ObjectKind>)
}

/// What a write makes of the result of its draw callback in the given
/// state: the failure of the callback; else `ShaderCompilationFailure` if one
/// of the draw commands selects a program that is known not to compile; else
/// the draw commands.
pub open spec fn approved(ctx: ContextView, out: Result<Vec<DrawCommand>, RenderError>) -> Result<
    Seq<DrawCommand>,
    RenderError,
> {
    match out {
        Ok(draws) => if ctx.uses_failed_program(draws@) {
            Err(RenderError::ShaderCompilationFailure)
        } else {
            Ok(draws@)
        },
        Err(e) => Err(e),
    }
}

/// The draw commands that a write queues for the given result of its draw
/// callback: those of the callback if they are approved, else none.
pub open spec fn drawn(ctx: ContextView, out: Result<Vec<DrawCommand>, RenderError>) -> Seq<
    DrawCommand,
> {
    match approved(ctx, out) {
        Ok(draws) => draws,
        Err(_) => Seq::empty(),
    }
}

/// What a write reports for the given result of its draw callback.
pub open spec fn reported(ctx: ContextView, out: Result<Vec<DrawCommand>, RenderError>) -> Result<
    (),
    RenderError,
> {
    match approved(ctx, out) {
        Ok(_) => Ok(()),
        Err(e) => Err(e),
    }
}

impl Composition {
    /// The composition of the given attachments, which has the size of the
    /// first of them; none where there is no attachment or where two of them
    /// differ in size.
    pub open spec fn composed(colors: Seq<TargetView>, depth: Option<TargetView>) -> Option<
        Composition,
    > {
        if colors.len() == 0 && depth is None {
            None
        } else {
            let first = if colors.len() > 0 {
                colors[0]
            } else {
                depth->Some_0
            };
            let composition = Composition {
                colors,
                depth,
                width: first.image.width,
                height: first.image.height,
            };
            if composition.matched() {
                Some(composition)
            } else {
                None
            }
        }
    }

    /// The screen of the given size: the composition without attachments.
    pub open spec fn screen(width: u32, height: u32) -> Composition {
        Composition { colors: Seq::empty(), depth: None, width, height }
    }

    /// The composition of one color attachment.
    pub open spec fn of_color(color: TargetView) -> Composition {
        Composition {
            colors: seq![color],
            depth: None,
            width: color.image.width,
            height: color.image.height,
        }
    }

    /// The composition of a depth attachment alone.
    pub open spec fn of_depth(depth: TargetView) -> Composition {
        Composition {
            colors: Seq::empty(),
            depth: Some(depth),
            width: depth.image.width,
            height: depth.image.height,
        }
    }

    /// Whether the composition is the screen.
    pub open spec fn is_screen(self) -> bool {
        self.colors.len() == 0 && self.depth is None
    }

    /// Whether draws into the composition write color.
    pub open spec fn has_color(self) -> bool {
        self.is_screen() || self.colors.len() > 0
    }

    /// Whether draws into the composition write depth.
    pub open spec fn has_depth(self) -> bool {
        self.is_screen() || self.depth is Some
    }

    /// Whether all attachments have the size of the composition.
    pub open spec fn matched(self) -> bool {
        &&& forall|i: int|
            0 <= i < self.colors.len() ==> (#[trigger] self.colors[i]).image.width == self.width
                && self.colors[i].image.height == self.height
        &&& self.depth matches Some(d) ==> d.image.width == self.width && d.image.height
            == self.height
    }

    /// Whether all attachments live in a context in the given state.
    pub open spec fn valid(self, ctx: ContextView) -> bool {
        &&& forall|i: int| 0 <= i < self.colors.len() ==> (#[trigger] self.colors[i]).valid(ctx)
        &&& self.depth matches Some(d) ==> d.valid(ctx)
    }

    /// The number of framebuffers that binding the composition creates.
    pub open spec fn handles(self) -> int {
        if self.is_screen() {
            0
        } else {
            1
        }
    }

    /// The framebuffer that stands for the composition when it is bound in
    /// the given state; `None` for the screen.
    pub open spec fn framebuffer(self, ctx: ContextView) -> Option<u32> {
        if self.is_screen() {
            None
        } else {
            Some(ctx.next_handle())
        }
    }

    /// The commands that attach the color attachments, each at its index.
    pub open spec fn color_attachments(self, target: FramebufferTarget) -> Seq<GpuCommand> {
        Seq::new(
            self.colors.len(),
            |i: int| self.colors[i].attach(target, Attachment::Color(i as u32)),
        )
    }

    /// The command that attaches the depth attachment, if there is one.
    pub open spec fn depth_attachment(self, target: FramebufferTarget) -> Seq<GpuCommand> {
        match self.depth {
            Some(d) => seq![d.attach(target, Attachment::Depth)],
            None => Seq::empty(),
        }
    }

    /// The command that routes the output channels to the color attachments,
    /// where the composition is bound for drawing.
    pub open spec fn draw_buffers(self, target: FramebufferTarget) -> Seq<GpuCommand> {
        match target {
            FramebufferTarget::Draw => seq![
                GpuCommand::DrawBuffers { count: self.colors.len() as u32 },
            ],
            FramebufferTarget::Read => Seq::empty(),
        }
    }

    /// The commands that bind the composition to a binding point in the given state.
    pub open spec fn bind_commands(self, ctx: ContextView, target: FramebufferTarget) -> Seq<
        GpuCommand,
    > {
        match self.framebuffer(ctx) {
            None => seq![GpuCommand::BindFramebuffer { target, id: None }],
            Some(id) => seq![
                GpuCommand::Create { kind: ObjectKind::Framebuffer, id },
                GpuCommand::BindFramebuffer { target, id: Some(id) },
            ] + self.color_attachments(target) + self.depth_attachment(target) + self.draw_buffers(
                target,
            ),
        }
    }

    /// The state of a context after the composition has been bound to a binding point.
    pub open spec fn bound(self, ctx: ContextView, target: FramebufferTarget) -> ContextView {
        let objects = if self.is_screen() {
            ctx.objects
        } else {
            ctx.objects.push(Some(ObjectKind::Framebuffer))
        };
        let commands = ctx.commands + self.bind_commands(ctx, target);
        match target {
            FramebufferTarget::Draw => ContextView {
                objects,
                commands,
                draw_framebuffer: self.framebuffer(ctx),
                ..ctx
            },
            FramebufferTarget::Read => ContextView {
                objects,
                commands,
                read_framebuffer: self.framebuffer(ctx),
                ..ctx
            },
        }
    }

    /// Why the composition cannot be written to in the given state, if it cannot.
    pub open spec fn write_error(self, ctx: ContextView) -> Option<RenderError> {
        if self.is_screen() {
            None
        } else if self.colors.len() > ctx.limits.max_color_attachments {
            Some(RenderError::InvalidTargetComposition)
        } else if ctx.free_handles() < 1 {
            Some(RenderError::ResourceAllocationFailure)
        } else {
            None
        }
    }

    /// The commands of a write into the composition that starts in the given
    /// state: bind, set the viewport, clear, draw, and give the binding back.
    pub open spec fn write_commands(
        self,
        ctx: ContextView,
        clear_state: ClearState,
        draws: Seq<DrawCommand>,
    ) -> Seq<GpuCommand> {
        self.bind_commands(ctx, FramebufferTarget::Draw) + seq![
            GpuCommand::Viewport { width: self.width, height: self.height },
        ] + clear_commands(clear_state) + as_gpu_commands(draws) + unbind_commands(
            FramebufferTarget::Draw,
            self.framebuffer(ctx),
            ctx.draw_framebuffer,
        )
    }

    /// The state of a context after a write into the composition: the
    /// commands of the write are queued, the handle of the framebuffer of the
    /// write is used up, and all else is as before.
    pub open spec fn written(
        self,
        ctx: ContextView,
        clear_state: ClearState,
        draws: Seq<DrawCommand>,
    ) -> ContextView {
        ContextView {
            objects: retired(ctx.objects, self.handles()),
            commands: ctx.commands + self.write_commands(ctx, clear_state, draws),
            ..ctx
        }
    }

    /// Why the composition cannot be copied to `target` in the given state, if it cannot.
    pub open spec fn blit_error(self, ctx: ContextView, target: Composition) -> Option<
        RenderError,
    > {
        if self.width != target.width || self.height != target.height {
            Some(RenderError::InvalidTargetComposition)
        } else if (!self.is_screen() && self.colors.len() > ctx.limits.max_color_attachments) || (
        !target.is_screen() && target.colors.len() > ctx.limits.max_color_attachments) {
            Some(RenderError::InvalidTargetComposition)
        } else if ctx.free_handles() < self.handles() + target.handles() {
            Some(RenderError::ResourceAllocationFailure)
        } else {
            None
        }
    }

    /// The commands of a copy from the composition to `target` that starts in
    /// the given state: bind the source for reading and the target for
    /// drawing, copy what both have, and give both bindings back.
    pub open spec fn blit_commands(self, ctx: ContextView, target: Composition) -> Seq<
        GpuCommand,
    > {
        let reading = self.bound(ctx, FramebufferTarget::Read);
        self.bind_commands(ctx, FramebufferTarget::Read) + target.bind_commands(
            reading,
            FramebufferTarget::Draw,
        ) + seq![
            GpuCommand::Blit {
                width: self.width,
                height: self.height,
                color: self.has_color() && target.has_color(),
                depth: self.has_depth() && target.has_depth(),
            },
        ] + unbind_commands(
            FramebufferTarget::Draw,
            target.framebuffer(reading),
            ctx.draw_framebuffer,
        ) + unbind_commands(FramebufferTarget::Read, self.framebuffer(ctx), ctx.read_framebuffer)
    }

    /// The state of a context after a copy from the composition to `target`.
    pub open spec fn blitted(self, ctx: ContextView, target: Composition) -> ContextView {
        ContextView {
            objects: retired(ctx.objects, self.handles() + target.handles()),
            commands: ctx.commands + self.blit_commands(ctx, target),
            ..ctx
        }
    }
}

/// A write that binds, sets the viewport, clears, draws and gives the
/// binding back leaves the context as `written` says, with the same objects
/// alive as before.
proof fn lemma_written(
    target: Composition,
    before: ContextView,
    clear_state: ClearState,
    draws: Seq<DrawCommand>,
    after: ContextView,
)
    requires
        before.inv(),
        target.write_error(before) is None,
        after == ({
            let bound = target.bound(before, FramebufferTarget::Draw);
            let drew = ContextView {
                commands: bound.commands + seq![
                    GpuCommand::Viewport { width: target.width, height: target.height },
                ] + clear_commands(clear_state) + as_gpu_commands(draws),
                ..bound
            };
            let rebound = drew.after(
                GpuCommand::BindFramebuffer {
                    target: FramebufferTarget::Draw,
                    id: before.draw_framebuffer,
                },
            );
            match target.framebuffer(before) {
                None => rebound,
                Some(id) => rebound.after(GpuCommand::Delete { kind: ObjectKind::Framebuffer, id }),
            }
        }),
    ensures
        after == target.written(before, clear_state, draws),
        forall|kind: ObjectKind| #[trigger] after.live(kind) == before.live(kind),
{
    let expected = target.written(before, clear_state, draws);
    assert(after.commands =~= expected.commands);
    assert(after.objects =~= expected.objects);
    assert forall|kind: ObjectKind| #[trigger] after.live(kind) == before.live(kind) by {
        assert(after.live(kind) =~= before.live(kind));
    }
}

/// A copy that binds the source for reading and the target for drawing,
/// copies and gives both bindings back leaves the context as `blitted` says,
/// with the same objects alive as before.
#[verifier::rlimit(50)]
proof fn lemma_blitted(
    source: Composition,
    target: Composition,
    before: ContextView,
    after: ContextView,
)
    requires
        before.inv(),
        source.blit_error(before, target) is None,
        after == ({
            let reading = source.bound(before, FramebufferTarget::Read);
            let drawing = target.bound(reading, FramebufferTarget::Draw);
            let copied = drawing.after(
                GpuCommand::Blit {
                    width: source.width,
                    height: source.height,
                    color: source.has_color() && target.has_color(),
                    depth: source.has_depth() && target.has_depth(),
                },
            );
            let rebound = copied.after(
                GpuCommand::BindFramebuffer {
                    target: FramebufferTarget::Draw,
                    id: before.draw_framebuffer,
                },
            );
            let drawn = match target.framebuffer(reading) {
                None => rebound,
                Some(id) => rebound.after(GpuCommand::Delete { kind: ObjectKind::Framebuffer, id }),
            };
            let reread = drawn.after(
                GpuCommand::BindFramebuffer {
                    target: FramebufferTarget::Read,
                    id: before.read_framebuffer,
                },
            );
            match source.framebuffer(before) {
                None => reread,
                Some(id) => reread.after(GpuCommand::Delete { kind: ObjectKind::Framebuffer, id }),
            }
        }),
    ensures
        after == source.blitted(before, target),
        forall|kind: ObjectKind| #[trigger] after.live(kind) == before.live(kind),
{
    let expected = source.blitted(before, target);
    let reading = source.bound(before, FramebufferTarget::Read);
    let drawing = target.bound(reading, FramebufferTarget::Draw);
    assert(drawing.commands =~= before.commands + source.bind_commands(
        before,
        FramebufferTarget::Read,
    ) + target.bind_commands(reading, FramebufferTarget::Draw));
    if source.is_screen() {
        if target.is_screen() {
            assert(after.commands =~= expected.commands);
            assert(after.objects =~= expected.objects);
        } else {
            assert(after.commands =~= expected.commands);
            assert(after.objects =~= expected.objects);
        }
    } else {
        if target.is_screen() {
            assert(after.commands =~= expected.commands);
            assert(after.objects =~= expected.objects);
        } else {
            assert(after.commands =~= expected.commands);
            assert(after.objects =~= expected.objects);
        }
    }
    assert(after == expected);
    assert forall|kind: ObjectKind| #[trigger] after.live(kind) == before.live(kind) by {
        assert(after.live(kind) =~= before.live(kind));
    }
}

/// A write leaves no binding behind, whatever was drawn: after it the same
/// framebuffers and renderbuffer are bound and the same objects live as
/// before, and what was queued before is still queued, in front.
pub proof fn lemma_write_leaves_no_binding(
    target: Composition,
    ctx: ContextView,
    clear_state: ClearState,
    draws: Seq<DrawCommand>,
)
    ensures
        ({
            let after = target.written(ctx, clear_state, draws);
            &&& after.draw_framebuffer == ctx.draw_framebuffer
            &&& after.read_framebuffer == ctx.read_framebuffer
            &&& after.renderbuffer == ctx.renderbuffer
            &&& forall|kind: ObjectKind| #[trigger] after.live(kind) == ctx.live(kind)
            &&& ctx.commands.is_prefix_of(after.commands)
        }),
{
    let after = target.written(ctx, clear_state, draws);
    assert forall|kind: ObjectKind| #[trigger] after.live(kind) == ctx.live(kind) by {
        assert(after.live(kind) =~= ctx.live(kind));
    }
}

/// Resolving keeps the size: the texture that a multisample image is
/// resolved into is a single-sample image of the same width, height and
/// format.
pub proof fn lemma_resolve_keeps_size(source: TargetView, ctx: ContextView)
    ensures
        source.resolved_image(ctx).width == source.image.width,
        source.resolved_image(ctx).height == source.image.height,
        source.resolved_image(ctx).format == source.image.format,
        source.resolved_image(ctx).samples == 1,
{
}

/// A set of color attachments and an optional depth attachment, composed
/// into something that draw commands can write into.
///
/// A render target borrows the textures it refers to and lives for one
/// render operation. The target without attachments is the screen.
pub struct RenderTarget<'a> {
    colors: Vec<ColorTarget<'a>>,
    depth: Option<DepthTarget<'a>>,
    width: u32,
    height: u32,
}

impl<'a> View for RenderTarget<'a> {
    type V = Composition;

    closed spec fn view(&self) -> Composition {
        Composition {
            colors: target_views(self.colors@),
            depth: depth_view(self.depth),
            width: self.width,
            height: self.height,
        }
    }
}

impl<'a> RenderTarget<'a> {
    /// Whether all attachments have the size of the target.
    pub open spec fn wf(&self) -> bool {
        self@.matched()
    }

    /// The screen of the given size.
    pub fn screen(width: u32, height: u32) -> (target: RenderTarget<'a>)
        ensures
            target.wf(),
            target@ == Composition::screen(width, height),
    {
        let target = RenderTarget { colors: Vec::new(), depth: None, width, height };
        assert(target@.colors =~= Seq::empty());
        target
    }

    /// The target that consists of the given color view.
    pub fn new_color(color: ColorTarget<'a>) -> (target: RenderTarget<'a>)
        ensures
            target.wf(),
            target@ == Composition::of_color(color@),
    {
        let width = color.width();
        let height = color.height();
        let mut colors: Vec<ColorTarget<'a>> = Vec::new();
        colors.push(color);
        let target = RenderTarget { colors, depth: None, width, height };
        assert(target@.colors =~= seq![color@]);
        target
    }

    /// The target that consists of the given depth view.
    pub fn new_depth(depth: DepthTarget<'a>) -> (target: RenderTarget<'a>)
        ensures
            target.wf(),
            target@ == Composition::of_depth(depth@),
    {
        let width = depth.width();
        let height = depth.height();
        let target = RenderTarget { colors: Vec::new(), depth: Some(depth), width, height };
        assert(target@.colors =~= Seq::empty());
        target
    }

    /// The target that consists of the given color and depth view.
    ///
    /// Fails with `InvalidTargetComposition` exactly if the two differ in size.
    pub fn new(color: ColorTarget<'a>, depth: DepthTarget<'a>) -> (r: Result<
        RenderTarget<'a>,
        RenderError,
    >)
        ensures
            r is Ok <==> color@.image.width == depth@.image.width && color@.image.height
                == depth@.image.height,
            r matches Ok(target) ==> target.wf() && target@ == (Composition {
                depth: Some(depth@),
                ..Composition::of_color(color@)
            }),
            r matches Err(e) ==> e == RenderError::InvalidTargetComposition,
    {
        let width = color.width();
        let height = color.height();
        if depth.width() != width || depth.height() != height {
            return Err(RenderError::InvalidTargetComposition);
        }
        let mut colors: Vec<ColorTarget<'a>> = Vec::new();
        colors.push(color);
        let target = RenderTarget { colors, depth: Some(depth), width, height };
        assert(target@.colors =~= seq![color@]);
        Ok(target)
    }

    /// The target that consists of the given color views, each attached at
    /// its index, and of the given depth view.
    ///
    /// Fails with `InvalidTargetComposition` exactly if there is no view at
    /// all or if two of the views differ in size.
    pub fn from_targets(colors: Vec<ColorTarget<'a>>, depth: Option<DepthTarget<'a>>) -> (r:
        Result<RenderTarget<'a>, RenderError>)
        ensures
            r is Ok <==> Composition::composed(target_views(colors@), depth_view(depth)) is Some,
            r matches Ok(target) ==> target.wf() && Some(target@) == Composition::composed(
                target_views(colors@),
                depth_view(depth),
            ),
            r matches Err(e) ==> e == RenderError::InvalidTargetComposition,
    {
        let (width, height) = if colors.len() > 0 {
            (colors[0].width(), colors[0].height())
        } else {
            match &depth {
                Some(d) => (d.width(), d.height()),
                None => {
                    return Err(RenderError::InvalidTargetComposition);
                },
            }
        };
        let ghost views = target_views(colors@);
        let ghost composition = Composition {
            colors: views,
            depth: depth_view(depth),
            width,
            height,
        };
        assert(colors.len() > 0 ==> views[0] == colors@[0]@);
        assert(Composition::composed(views, depth_view(depth)) == if composition.matched() {
            Some(composition)
        } else {
            None
        });
        let mut i: usize = 0;
        while i < colors.len()
            invariant
                i <= colors.len(),
                views == target_views(colors@),
                composition == (Composition {
                    colors: views,
                    depth: depth_view(depth),
                    width,
                    height,
                }),
                !composition.matched() ==> Composition::composed(views, depth_view(depth)) is None,
                forall|j: int|
                    0 <= j < i ==> (#[trigger] views[j]).image.width == width
                        && views[j].image.height == height,
            decreases colors.len() - i,
        {
            if colors[i].width() != width || colors[i].height() != height {
                assert(composition.colors[i as int].image.width != width
                    || composition.colors[i as int].image.height != height);
                assert(!composition.matched());
                return Err(RenderError::InvalidTargetComposition);
            }
            i = i + 1;
        }
        match &depth {
            Some(d) => {
                if d.width() != width || d.height() != height {
                    return Err(RenderError::InvalidTargetComposition);
                }
            },
            None => {},
        }
        Ok(RenderTarget { colors, depth, width, height })
    }

    /// The width of this target.
    pub fn width(&self) -> (width: u32)
        ensures
            width == self@.width,
    {
        self.width
    }

    /// The height of this target.
    pub fn height(&self) -> (height: u32)
        ensures
            height == self@.height,
    {
        self.height
    }

    /// Whether this target is the screen.
    pub fn is_screen(&self) -> (b: bool)
        ensures
            b == self@.is_screen(),
    {
        self.colors.len() == 0 && self.depth.is_none()
    }

    /// Binds the target to a binding point: the screen as it is, any other
    /// target as a framebuffer made for the purpose, which is returned.
    fn bind(&self, context: &mut Context, target: FramebufferTarget) -> (framebuffer: Option<u32>)
        requires
            old(context).wf(),
            self@.valid(old(context)@),
            !self@.is_screen() ==> self@.colors.len() <= old(context)@.limits.max_color_attachments,
            old(context)@.free_handles() >= self@.handles(),
        ensures
            final(context).wf(),
            framebuffer == self@.framebuffer(old(context)@),
            final(context)@ == self@.bound(old(context)@, target),
    {
        if self.is_screen() {
            context.submit(GpuCommand::BindFramebuffer { target, id: None });
            assert(context@.commands =~= old(context)@.commands + self@.bind_commands(
                old(context)@,
                target,
            ));
            return None;
        }
        let id = context.next_handle();
        context.submit(GpuCommand::Create { kind: ObjectKind::Framebuffer, id });
        context.submit(GpuCommand::BindFramebuffer { target, id: Some(id) });
        let ghost start = context@;
        let mut i: usize = 0;
        while i < self.colors.len()
            invariant
                i <= self.colors.len(),
                self.colors.len() <= start.limits.max_color_attachments,
                context.wf(),
                start.framebuffer(target) is Some,
                self@.valid(start),
                context@ == (ContextView {
                    commands: start.commands + self@.color_attachments(target).take(i as int),
                    ..start
                }),
            decreases self.colors.len() - i,
        {
            assert(self@.colors[i as int] == self.colors@[i as int]@);
            assert(self@.colors[i as int].valid(start));
            self.colors[i].bind_as_color_target(context, target, i as u32);
            assert(context@.commands =~= start.commands + self@.color_attachments(target).take(
                i + 1,
            ));
            i = i + 1;
        }
        assert(self@.color_attachments(target).take(i as int) =~= self@.color_attachments(target));
        match &self.depth {
            Some(depth) => {
                depth.bind_as_depth_target(context, target);
            },
            None => {},
        }
        match target {
            FramebufferTarget::Draw => {
                context.submit(GpuCommand::DrawBuffers { count: self.colors.len() as u32 });
            },
            FramebufferTarget::Read => {},
        }
        assert(context@.commands =~= old(context)@.commands + self@.bind_commands(
            old(context)@,
            target,
        ));
        Some(id)
    }

    /// Gives a binding point back: binds what was bound before and deletes
    /// the framebuffer that was made for the binding, if any.
    fn unbind(
        context: &mut Context,
        target: FramebufferTarget,
        framebuffer: Option<u32>,
        prior: Option<u32>,
    )
        requires
            old(context).wf(),
            old(context)@.binding_ok(prior, ObjectKind::Framebuffer),
            old(context)@.binding_ok(framebuffer, ObjectKind::Framebuffer),
        ensures
            final(context).wf(),
            final(context)@ == (match framebuffer {
                None => old(context)@.after(GpuCommand::BindFramebuffer { target, id: prior }),
                Some(id) => old(context)@.after(
                    GpuCommand::BindFramebuffer { target, id: prior },
                ).after(GpuCommand::Delete { kind: ObjectKind::Framebuffer, id }),
            }),
    {
        context.submit(GpuCommand::BindFramebuffer { target, id: prior });
        match framebuffer {
            Some(id) => {
                context.submit(GpuCommand::Delete { kind: ObjectKind::Framebuffer, id });
            },
            None => {},
        }
    }

    /// Binds the target as the active output, applies the requested clear,
    /// queues the draw commands that the callback hands back, and gives the
    /// binding back.
    ///
    /// The binding is given back whatever the callback reports: after the
    /// call the same framebuffers and renderbuffer are bound and the same
    /// objects live as before it. A failure of the callback is handed on
    /// after that; no draw is queued then. Nor is any queued if one of the
    /// draw commands selects a program that is known not to compile: the
    /// call fails with `ShaderCompilationFailure` then.
    ///
    /// Where the target cannot be bound, the callback is not called and the
    /// context stays as it was: the call fails with
    /// `InvalidTargetComposition` if the target has more color attachments
    /// than the context allows, else with `ResourceAllocationFailure` if the
    /// context has no handle left for the framebuffer. The screen can always
    /// be bound.
    pub fn write<F: FnOnce() -> Result<Vec<DrawCommand>, RenderError>>(
        &self,
        context: &mut Context,
        clear_state: ClearState,
        render: F,
    ) -> (r: Result<(), RenderError>)
        requires
            old(context).wf(),
            self@.valid(old(context)@),
            call_requires(render, ()),
        ensures
            final(context).wf(),
            self@.write_error(old(context)@) matches Some(e) ==> r == Err::<(), RenderError>(e)
                && final(context)@ == old(context)@,
            self@.write_error(old(context)@) is None ==> exists|
                out: Result<Vec<DrawCommand>, RenderError>,
            |
                {
                    &&& call_ensures(render, (), out)
                    &&& r == reported(old(context)@, out)
                    &&& final(context)@ == self@.written(
                        old(context)@,
                        clear_state,
                        drawn(old(context)@, out),
                    )
                },
            final(context)@.draw_framebuffer == old(context)@.draw_framebuffer,
            final(context)@.read_framebuffer == old(context)@.read_framebuffer,
            final(context)@.renderbuffer == old(context)@.renderbuffer,
            forall|kind: ObjectKind| #[trigger] final(context)@.live(kind) == old(context)@.live(kind),
    {
        if !self.is_screen() {
            if self.colors.len() > context.limits().max_color_attachments as usize {
                return Err(RenderError::InvalidTargetComposition);
            }
            if !context.can_allocate(1) {
                return Err(RenderError::ResourceAllocationFailure);
            }
        }
        let prior = context.draw_framebuffer();
        let framebuffer = self.bind(context, FramebufferTarget::Draw);
        let ghost bound = context@;
        context.submit(GpuCommand::Viewport { width: self.width, height: self.height });
        if !clear_state.clears_nothing() {
            context.submit(GpuCommand::Clear { state: clear_state });
        }
        let ghost cleared = context@;
        assert(cleared == (ContextView {
            commands: bound.commands + seq![
                GpuCommand::Viewport { width: self.width, height: self.height },
            ] + clear_commands(clear_state),
            ..bound
        })) by {
            assert(cleared.commands =~= bound.commands + seq![
                GpuCommand::Viewport { width: self.width, height: self.height },
            ] + clear_commands(clear_state));
        }
        let out = render();
        let r = match &out {
            Ok(draws) => {
                if context.uses_failed_program(draws) {
                    assert(context@.commands =~= cleared.commands + as_gpu_commands(
                        drawn(old(context)@, out),
                    ));
                    Err(RenderError::ShaderCompilationFailure)
                } else {
                    let mut i: usize = 0;
                    while i < draws.len()
                        invariant
                            i <= draws.len(),
                            context.wf(),
                            context@ == (ContextView {
                                commands: cleared.commands + as_gpu_commands(draws@).take(
                                    i as int,
                                ),
                                ..cleared
                            }),
                        decreases draws.len() - i,
                    {
                        context.submit(GpuCommand::Draw { command: draws[i] });
                        assert(context@.commands =~= cleared.commands + as_gpu_commands(
                            draws@,
                        ).take(i + 1));
                        i = i + 1;
                    }
                    assert(as_gpu_commands(draws@).take(i as int) =~= as_gpu_commands(draws@));
                    Ok(())
                }
            },
            Err(e) => {
                assert(context@.commands =~= cleared.commands + as_gpu_commands(
                    drawn(old(context)@, out),
                ));
                Err(*e)
            },
        };
        Self::unbind(context, FramebufferTarget::Draw, framebuffer, prior);
        proof {
            lemma_written(self@, old(context)@, clear_state, drawn(old(context)@, out), context@);
            assert(call_ensures(render, (), out));
            assert(r == reported(old(context)@, out));
            assert(context@ == self@.written(
                old(context)@,
                clear_state,
                drawn(old(context)@, out),
            ));
        }
        r
    }

    /// Copies the pixels of this target to `target`, resolving samples on
    /// the way: color where both targets have color, depth where both have
    /// depth.
    ///
    /// Fails, and leaves the context as it was, with
    /// `InvalidTargetComposition` if the two targets differ in size or one of
    /// them has more color attachments than the context allows, else with
    /// `ResourceAllocationFailure` if the context has not the handles for the
    /// framebuffers of the two. Succeeds otherwise; then the same
    /// framebuffers are bound and the same objects live as before.
    pub fn blit(&self, context: &mut Context, target: &RenderTarget) -> (r: Result<
        (),
        RenderError,
    >)
        requires
            old(context).wf(),
            self@.valid(old(context)@),
            target@.valid(old(context)@),
        ensures
            final(context).wf(),
            r == (match self@.blit_error(old(context)@, target@) {
                Some(e) => Err::<(), RenderError>(e),
                None => Ok(()),
            }),
            r is Err ==> final(context)@ == old(context)@,
            r is Ok ==> final(context)@ == self@.blitted(old(context)@, target@),
            forall|kind: ObjectKind| #[trigger] final(context)@.live(kind) == old(context)@.live(kind),
    {
        if self.width != target.width || self.height != target.height {
            return Err(RenderError::InvalidTargetComposition);
        }
        let max_colors = context.limits().max_color_attachments as usize;
        if (!self.is_screen() && self.colors.len() > max_colors) || (!target.is_screen()
            && target.colors.len() > max_colors) {
            return Err(RenderError::InvalidTargetComposition);
        }
        let needed: u32 = if self.is_screen() {
            0
        } else {
            1
        };
        let needed: u32 = if target.is_screen() {
            needed
        } else {
            needed + 1
        };
        if !context.can_allocate(needed) {
            return Err(RenderError::ResourceAllocationFailure);
        }
        let prior_read = context.read_framebuffer();
        let prior_draw = context.draw_framebuffer();
        let source_framebuffer = self.bind(context, FramebufferTarget::Read);
        let target_framebuffer = target.bind(context, FramebufferTarget::Draw);
        let color = (self.is_screen() || self.colors.len() > 0) && (target.is_screen()
            || target.colors.len() > 0);
        let depth = (self.is_screen() || self.depth.is_some()) && (target.is_screen()
            || target.depth.is_some());
        context.submit(GpuCommand::Blit { width: self.width, height: self.height, color, depth });
        Self::unbind(context, FramebufferTarget::Draw, target_framebuffer, prior_draw);
        Self::unbind(context, FramebufferTarget::Read, source_framebuffer, prior_read);
        proof {
            lemma_blitted(self@, target@, old(context)@, context@);
        }
        Ok(())
    }
}

} // verus!
