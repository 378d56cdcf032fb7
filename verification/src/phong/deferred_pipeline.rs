use vstd::prelude::*;
use crate::command::{
    ClearState, DebugType, DrawCommand, Format, GpuCommand, Interpolation, ObjectKind, Program,
    Sampling, Wrapping,
};
use crate::context::{Context, ContextView};
use crate::error::RenderError;
use crate::light::{bind_lights, light_bindings, Light, DEPTH_FAR};
use crate::phong::material::Material;
use crate::render_target::{ColorTarget, Composition, DepthTarget, RenderTarget, TargetView};
use crate::scene::{Camera, Geometry};
use crate::texture::depth_texture2d::DepthTexture2D;
use crate::texture::texture2d::Texture2D;
use crate::texture::{with_texture, ImageView};

verus! {

/// The format of the position channel of a G-buffer.
pub const POSITION_FORMAT: Format = Format::Rgba32F;

/// The format of the normal channel of a G-buffer.
pub const NORMAL_FORMAT: Format = Format::Rgba16F;

/// The format of the base color channel of a G-buffer.
pub const COLOR_FORMAT: Format = Format::Rgba8;

/// The format of the occlusion, roughness and metallic channel of a G-buffer.
pub const ORM_FORMAT: Format = Format::Rgba8;

/// The texture unit from which a lighting pass reads the position channel.
pub const POSITION_UNIT: u32 = 0;

/// The texture unit from which a lighting pass reads the normal channel.
pub const NORMAL_UNIT: u32 = 1;

/// The texture unit from which a lighting pass reads the base color channel.
pub const COLOR_UNIT: u32 = 2;

/// The texture unit from which a lighting pass reads the occlusion, roughness and metallic channel.
pub const ORM_UNIT: u32 = 3;

/// The texture unit from which a lighting pass reads depth.
pub const DEPTH_UNIT: u32 = 4;

/// The number of images of a G-buffer.
pub const GBUFFER_IMAGES: u32 = 5;

/// Which of its two passes a deferred pipeline runs next.
#[derive(Clone, Copy, Debug, PartialEq, Eq, Structural)]
pub enum PassState {
    /// The G-buffer holds nothing that a lighting pass could read.
    GeometryPassPending,
    /// A geometry pass has filled the G-buffer and no lighting pass has read it yet.
    LightingPassPending,
}

/// The images of a G-buffer: one per fragment attribute, and depth.
pub struct GBufferView {
    pub position: ImageView,
    pub normal: ImageView,
    pub color: ImageView,
    pub orm: ImageView,
    pub depth: ImageView,
}

/// How the images of a G-buffer are sampled: unfiltered and clamped.
pub open spec fn gbuffer_sampling() -> Sampling {
    Sampling {
        min_filter: Interpolation::Nearest,
        mag_filter: Interpolation::Nearest,
        mip_map_filter: None,
        wrap_s: Wrapping::ClampToEdge,
        wrap_t: Wrapping::ClampToEdge,
    }
}

/// What a geometry pass clears the G-buffer to: zero in every color
/// channel, and the far end of the depth range.
pub open spec fn gbuffer_clear() -> ClearState {
    ClearState {
        red: Some(0),
        green: Some(0),
        blue: Some(0),
        alpha: Some(0),
        depth: Some(DEPTH_FAR),
    }
}

/// A single-sample image of the given size and format with the handle that
/// lies `offset` after the next handle of the context.
pub open spec fn gbuffer_image(
    ctx: ContextView,
    offset: int,
    width: u32,
    height: u32,
    format: Format,
) -> ImageView {
    ImageView { id: (ctx.next_handle() + offset) as u32, width, height, format, samples: 1 }
}

impl GBufferView {
    /// The width of the G-buffer.
    pub open spec fn width(self) -> u32 {
        self.position.width
    }

    /// The height of the G-buffer.
    pub open spec fn height(self) -> u32 {
        self.position.height
    }

    /// Whether all images have the given size.
    pub open spec fn sized(self, width: u32, height: u32) -> bool {
        &&& self.position.width == width && self.position.height == height
        &&& self.normal.width == width && self.normal.height == height
        &&& self.color.width == width && self.color.height == height
        &&& self.orm.width == width && self.orm.height == height
        &&& self.depth.width == width && self.depth.height == height
    }

    /// Whether the images are five images that live in a context in the given state.
    pub open spec fn valid(self, ctx: ContextView) -> bool {
        &&& ctx.is_live(self.position.id, ObjectKind::Texture)
        &&& ctx.is_live(self.normal.id, ObjectKind::Texture)
        &&& ctx.is_live(self.color.id, ObjectKind::Texture)
        &&& ctx.is_live(self.orm.id, ObjectKind::Texture)
        &&& ctx.is_live(self.depth.id, ObjectKind::Texture)
        &&& self.position.id != self.normal.id && self.position.id != self.color.id
            && self.position.id != self.orm.id && self.position.id != self.depth.id
        &&& self.normal.id != self.color.id && self.normal.id != self.orm.id && self.normal.id
            != self.depth.id
        &&& self.color.id != self.orm.id && self.color.id != self.depth.id
        &&& self.orm.id != self.depth.id
    }

    /// The G-buffer of the given size that is created in the given state.
    pub open spec fn created(ctx: ContextView, width: u32, height: u32) -> GBufferView {
        GBufferView {
            position: gbuffer_image(ctx, 0, width, height, POSITION_FORMAT),
            normal: gbuffer_image(ctx, 1, width, height, NORMAL_FORMAT),
            color: gbuffer_image(ctx, 2, width, height, COLOR_FORMAT),
            orm: gbuffer_image(ctx, 3, width, height, ORM_FORMAT),
            depth: gbuffer_image(ctx, 4, width, height, Format::Depth32F),
        }
    }

    /// The state of a context after a G-buffer of the given size has been created.
    pub open spec fn allocated(ctx: ContextView, width: u32, height: u32) -> ContextView {
        let with_position = with_texture(ctx, POSITION_FORMAT, width, height, gbuffer_sampling());
        let with_normal = with_texture(
            with_position,
            NORMAL_FORMAT,
            width,
            height,
            gbuffer_sampling(),
        );
        let with_color = with_texture(with_normal, COLOR_FORMAT, width, height, gbuffer_sampling());
        let with_orm = with_texture(with_color, ORM_FORMAT, width, height, gbuffer_sampling());
        with_texture(with_orm, Format::Depth32F, width, height, gbuffer_sampling())
    }

    /// The state of a context after the G-buffer has been released.
    pub open spec fn released(self, ctx: ContextView) -> ContextView {
        ctx.after(GpuCommand::Delete { kind: ObjectKind::Texture, id: self.position.id }).after(
            GpuCommand::Delete { kind: ObjectKind::Texture, id: self.normal.id },
        ).after(GpuCommand::Delete { kind: ObjectKind::Texture, id: self.color.id }).after(
            GpuCommand::Delete { kind: ObjectKind::Texture, id: self.orm.id },
        ).after(GpuCommand::Delete { kind: ObjectKind::Texture, id: self.depth.id })
    }

    /// The G-buffer as something to render into: position, normal, base
    /// color, and occlusion, roughness and metallic as the color attachments
    /// of the channels 0 to 3, and depth.
    pub open spec fn composition(self) -> Composition {
        Composition {
            colors: seq![
                TargetView { image: self.position, kind: ObjectKind::Texture },
                TargetView { image: self.normal, kind: ObjectKind::Texture },
                TargetView { image: self.color, kind: ObjectKind::Texture },
                TargetView { image: self.orm, kind: ObjectKind::Texture },
            ],
            depth: Some(TargetView { image: self.depth, kind: ObjectKind::Texture }),
            width: self.width(),
            height: self.height(),
        }
    }

    /// The commands that bind the images as the textures that a lighting pass reads.
    pub open spec fn bindings(self) -> Seq<DrawCommand> {
        seq![
            DrawCommand::BindTexture { unit: POSITION_UNIT, texture: self.position.id },
            DrawCommand::BindTexture { unit: NORMAL_UNIT, texture: self.normal.id },
            DrawCommand::BindTexture { unit: COLOR_UNIT, texture: self.color.id },
            DrawCommand::BindTexture { unit: ORM_UNIT, texture: self.orm.id },
            DrawCommand::BindTexture { unit: DEPTH_UNIT, texture: self.depth.id },
        ]
    }
}

/// The commands of the geometry draw of one object: make its material ready
/// for its deferred program and draw the geometry.
pub open spec fn geometry_draw<'a>(camera: Camera, object: (Geometry, Material<'a>)) -> Seq<
    DrawCommand,
> {
    object.1.bindings(object.1.deferred(), camera) + seq![
        DrawCommand::DrawGeometry { geometry: object.0.id },
    ]
}

/// The commands of a geometry pass: the geometry draw of each object, in the
/// order of the list.
pub open spec fn geometry_pass<'a>(camera: Camera, objects: Seq<(Geometry, Material<'a>)>) -> Seq<
    DrawCommand,
>
    decreases objects.len(),
{
    if objects.len() == 0 {
        Seq::empty()
    } else {
        geometry_pass(camera, objects.drop_last()) + geometry_draw(camera, objects.last())
    }
}

/// What a deferred pipeline is.
pub struct DeferredView {
    pub gbuffer: Option<GBufferView>,
    pub debug_type: DebugType,
    pub state: PassState,
}

impl DeferredView {
    /// Whether the pipeline has a G-buffer of the given size.
    pub open spec fn has_size(self, width: u32, height: u32) -> bool {
        self.gbuffer matches Some(gbuffer) && gbuffer.width() == width && gbuffer.height()
            == height
    }

    /// Whether the pipeline can run a lighting pass, and its G-buffer is of one size.
    pub open spec fn consistent(self) -> bool {
        &&& self.state is LightingPassPending ==> self.gbuffer is Some
        &&& self.gbuffer matches Some(gbuffer) ==> gbuffer.sized(gbuffer.width(), gbuffer.height())
    }

    /// Whether the G-buffer of the pipeline lives in a context in the given state.
    pub open spec fn valid(self, ctx: ContextView) -> bool {
        self.gbuffer matches Some(gbuffer) ==> gbuffer.valid(ctx)
    }

    /// Why the pipeline cannot be brought to the given size in the given
    /// state, if it cannot.
    pub open spec fn resize_error(self, ctx: ContextView, width: u32, height: u32) -> Option<
        RenderError,
    > {
        if self.has_size(width, height) {
            None
        } else if !ctx.supports_size(width, height) || ctx.free_handles() < GBUFFER_IMAGES {
            Some(RenderError::ResourceAllocationFailure)
        } else {
            None
        }
    }

    /// The pipeline after it has been brought to the given size: as it was
    /// if it has that size, else with a new G-buffer that holds nothing.
    pub open spec fn resized(self, ctx: ContextView, width: u32, height: u32) -> DeferredView {
        if self.has_size(width, height) {
            self
        } else {
            DeferredView {
                gbuffer: Some(GBufferView::created(ctx, width, height)),
                state: PassState::GeometryPassPending,
                ..self
            }
        }
    }

    /// The state of a context after the pipeline has been brought to the
    /// given size: as it was if the pipeline has that size; else the
    /// G-buffer it has is released and a new one created.
    pub open spec fn resized_context(self, ctx: ContextView, width: u32, height: u32)
        -> ContextView {
        if self.has_size(width, height) {
            ctx
        } else {
            GBufferView::allocated(
                match self.gbuffer {
                    Some(gbuffer) => gbuffer.released(ctx),
                    None => ctx,
                },
                width,
                height,
            )
        }
    }

    /// The state of a context after the pipeline has been released.
    pub open spec fn released(self, ctx: ContextView) -> ContextView {
        match self.gbuffer {
            Some(gbuffer) => gbuffer.released(ctx),
            None => ctx,
        }
    }

    /// What a geometry pass with the given draw commands into a G-buffer of
    /// the given size yields, in a context in the given state: what the pass
    /// reports, the pipeline after it, and the state of the context after it.
    ///
    /// The pipeline is brought to the size first; where that fails, nothing
    /// changes. The G-buffer is then written to; the pipeline waits for a
    /// lighting pass if the write succeeds, and for a geometry pass if not.
    pub open spec fn geometry_outcome(
        self,
        ctx: ContextView,
        width: u32,
        height: u32,
        draws: Seq<DrawCommand>,
    ) -> (Result<(), RenderError>, DeferredView, ContextView) {
        match self.resize_error(ctx, width, height) {
            Some(e) => (Err(e), self, ctx),
            None => {
                let resized = self.resized(ctx, width, height);
                let context = self.resized_context(ctx, width, height);
                let target = resized.gbuffer->Some_0.composition();
                let pending = DeferredView { state: PassState::GeometryPassPending, ..resized };
                match target.write_error(context) {
                    Some(e) => (Err(e), pending, context),
                    None => if context.uses_failed_program(draws) {
                        (
                            Err(RenderError::ShaderCompilationFailure),
                            pending,
                            target.written(context, gbuffer_clear(), Seq::empty()),
                        )
                    } else {
                        (
                            Ok(()),
                            DeferredView { state: PassState::LightingPassPending, ..resized },
                            target.written(context, gbuffer_clear(), draws),
                        )
                    },
                }
            },
        }
    }

    /// The program of the lighting pass of the pipeline.
    pub open spec fn lighting_program(self) -> Program {
        Program::Lighting(self.debug_type)
    }

    /// The commands of a lighting pass: one draw that covers the G-buffer,
    /// with the channels of the G-buffer bound as textures. Without a debug
    /// type the draw shades, with every light and its shadow map bound; with
    /// one it shows the channel and binds no light.
    pub open spec fn lighting_commands(self, camera: Camera, lights: Seq<Light>) -> Seq<
        DrawCommand,
    > {
        let gbuffer = self.gbuffer->Some_0;
        seq![
            DrawCommand::UseProgram { program: self.lighting_program() },
            DrawCommand::BindCamera { camera: camera.id },
        ] + gbuffer.bindings() + (if self.debug_type is Off {
            light_bindings(lights)
        } else {
            Seq::empty()
        }) + seq![DrawCommand::DrawFullScreen { width: gbuffer.width(), height: gbuffer.height() }]
    }
}

/// The debug type that follows the given one when the types are stepped through.
pub open spec fn next_debug_type(debug_type: DebugType) -> DebugType {
    match debug_type {
        DebugType::Off => DebugType::Position,
        DebugType::Position => DebugType::Normal,
        DebugType::Normal => DebugType::Color,
        DebugType::Color => DebugType::Depth,
        DebugType::Depth => DebugType::Orm,
        DebugType::Orm => DebugType::Uv,
        DebugType::Uv => DebugType::Off,
    }
}

struct GBuffer {
    position: Texture2D,
    normal: Texture2D,
    color: Texture2D,
    orm: Texture2D,
    depth: DepthTexture2D,
}

impl View for GBuffer {
    type V = GBufferView;

    closed spec fn view(&self) -> GBufferView {
        GBufferView {
            position: self.position@,
            normal: self.normal@,
            color: self.color@,
            orm: self.orm@,
            depth: self.depth@,
        }
    }
}

impl GBuffer {
    /// Creates the images of a G-buffer of the given size.
    fn new(context: &mut Context, width: u32, height: u32) -> (gbuffer: GBuffer)
        requires
            old(context).wf(),
            old(context)@.supports_size(width, height),
            old(context)@.free_handles() >= GBUFFER_IMAGES,
        ensures
            final(context).wf(),
            gbuffer@ == GBufferView::created(old(context)@, width, height),
            gbuffer@.valid(final(context)@),
            final(context)@ == GBufferView::allocated(old(context)@, width, height),
    {
        let sampling = Sampling {
            min_filter: Interpolation::Nearest,
            mag_filter: Interpolation::Nearest,
            mip_map_filter: None,
            wrap_s: Wrapping::ClampToEdge,
            wrap_t: Wrapping::ClampToEdge,
        };
        let position = Texture2D::new_empty_with_format(
            context,
            width,
            height,
            POSITION_FORMAT,
            sampling,
        ).unwrap();
        let normal = Texture2D::new_empty_with_format(
            context,
            width,
            height,
            NORMAL_FORMAT,
            sampling,
        ).unwrap();
        let color = Texture2D::new_empty_with_format(
            context,
            width,
            height,
            COLOR_FORMAT,
            sampling,
        ).unwrap();
        let orm = Texture2D::new_empty_with_format(
            context,
            width,
            height,
            ORM_FORMAT,
            sampling,
        ).unwrap();
        let depth = DepthTexture2D::new(
            context,
            width,
            height,
            Wrapping::ClampToEdge,
            Wrapping::ClampToEdge,
        ).unwrap();
        GBuffer { position, normal, color, orm, depth }
    }

    /// Releases the images of the G-buffer.
    fn release(self, context: &mut Context)
        requires
            old(context).wf(),
            self@.valid(old(context)@),
        ensures
            final(context).wf(),
            final(context)@ == self@.released(old(context)@),
    {
        let GBuffer { position, normal, color, orm, depth } = self;
        position.release(context);
        normal.release(context);
        color.release(context);
        orm.release(context);
        depth.release(context);
    }
}

/// Appends the commands of the geometry draw of each object, in the order of the list.
fn geometry_draws(camera: &Camera, objects: &Vec<(Geometry, Material<'_>)>) -> (draws: Vec<
    DrawCommand,
>)
    ensures
        draws@ == geometry_pass(*camera, objects@),
{
    let mut draws: Vec<DrawCommand> = Vec::new();
    let mut i: usize = 0;
    while i < objects.len()
        invariant
            i <= objects.len(),
            draws@ == geometry_pass(*camera, objects@.take(i as int)),
        decreases objects.len() - i,
    {
        proof {
            assert(objects@.take(i + 1).drop_last() == objects@.take(i as int));
            assert(objects@.take(i + 1).last() == objects@[i as int]);
        }
        let ghost before = draws@;
        let material = &objects[i].1;
        material.bind(material.deferred_program(), camera, &mut draws);
        draws.push(DrawCommand::DrawGeometry { geometry: objects[i].0.id });
        assert(draws@ =~= before + geometry_draw(*camera, objects@[i as int]));
        i = i + 1;
    }
    proof {
        assert(objects@.take(i as int) == objects@);
    }
    draws
}

/// The renderer that shades in two passes: a geometry pass writes the
/// attributes of each fragment into the G-buffer, and a lighting pass reads
/// the G-buffer and shades the whole image in one draw.
///
/// The pipeline owns the G-buffer across frames, at the size of the viewport
/// of the last geometry pass, and runs its two passes in turn: a lighting
/// pass is refused unless a geometry pass has filled the G-buffer since the
/// last lighting pass.
pub struct DeferredPipeline {
    gbuffer: Option<GBuffer>,
    debug_type: DebugType,
    state: PassState,
}

impl View for DeferredPipeline {
    type V = DeferredView;

    closed spec fn view(&self) -> DeferredView {
        DeferredView {
            gbuffer: match self.gbuffer {
                Some(gbuffer) => Some(gbuffer@),
                None => None,
            },
            debug_type: self.debug_type,
            state: self.state,
        }
    }
}

impl DeferredPipeline {
    /// A pipeline that waits for a lighting pass has a G-buffer, and a
    /// G-buffer is of one size.
    #[verifier::type_invariant]
    closed spec fn inv(&self) -> bool {
        self@.consistent()
    }

    /// Whether the G-buffer of the pipeline lives in the given context.
    pub open spec fn valid(&self, ctx: &Context) -> bool {
        self@.valid(ctx@)
    }

    /// A pipeline without a G-buffer and without a debug type, which waits
    /// for a geometry pass.
    pub fn new() -> (pipeline: DeferredPipeline)
        ensures
            pipeline@ == (DeferredView {
                gbuffer: None,
                debug_type: DebugType::Off,
                state: PassState::GeometryPassPending,
            }),
    {
        DeferredPipeline {
            gbuffer: None,
            debug_type: DebugType::Off,
            state: PassState::GeometryPassPending,
        }
    }

    /// The G-buffer channel that the lighting pass shows in place of the lit image.
    pub fn debug_type(&self) -> (debug_type: DebugType)
        ensures
            debug_type == self@.debug_type,
    {
        self.debug_type
    }

    /// Selects the G-buffer channel that the lighting pass shows in place of
    /// the lit image; `Off` makes it shade.
    pub fn set_debug_type(&mut self, debug_type: DebugType)
        ensures
            final(self)@ == (DeferredView { debug_type, ..old(self)@ }),
    {
        proof {
            use_type_invariant(&*self);
        }
        self.debug_type = debug_type;
    }

    /// Steps on to the next debug type, and from the last one back to shading.
    pub fn next_debug_type(&mut self)
        ensures
            final(self)@ == (DeferredView {
                debug_type: next_debug_type(old(self)@.debug_type),
                ..old(self)@
            }),
    {
        proof {
            use_type_invariant(&*self);
        }
        self.debug_type = match self.debug_type {
            DebugType::Off => DebugType::Position,
            DebugType::Position => DebugType::Normal,
            DebugType::Normal => DebugType::Color,
            DebugType::Color => DebugType::Depth,
            DebugType::Depth => DebugType::Orm,
            DebugType::Orm => DebugType::Uv,
            DebugType::Uv => DebugType::Off,
        };
    }

    /// Which of its two passes the pipeline runs next.
    pub fn state(&self) -> (state: PassState)
        ensures
            state == self@.state,
    {
        self.state
    }

    /// The size of the G-buffer, if the pipeline has one.
    pub fn size(&self) -> (size: Option<(u32, u32)>)
        ensures
            size == (match self@.gbuffer {
                Some(gbuffer) => Some((gbuffer.width(), gbuffer.height())),
                None => None,
            }),
    {
        match &self.gbuffer {
            Some(gbuffer) => Some((gbuffer.position.width(), gbuffer.position.height())),
            None => None,
        }
    }

    /// Brings the G-buffer to the size of the viewport. A pipeline that has
    /// a G-buffer of that size stays as it is. Otherwise the G-buffer it has
    /// is released and a new one of that size created, which holds nothing:
    /// the pipeline waits for a geometry pass then.
    ///
    /// Fails with `ResourceAllocationFailure`, and leaves pipeline and
    /// context as they were, exactly if a new G-buffer is needed and the
    /// context does not support the size or has not the handles for the five
    /// images.
    pub fn resize(&mut self, context: &mut Context, width: u32, height: u32) -> (r: Result<
        (),
        RenderError,
    >)
        requires
            old(context).wf(),
            old(self).valid(old(context)),
        ensures
            final(context).wf(),
            final(self).valid(final(context)),
            r == (match old(self)@.resize_error(old(context)@, width, height) {
                Some(e) => Err::<(), RenderError>(e),
                None => Ok(()),
            }),
            r is Err ==> final(self)@ == old(self)@ && final(context)@ == old(context)@,
            r is Ok ==> {
                &&& final(self)@ == old(self)@.resized(old(context)@, width, height)
                &&& final(context)@ == old(self)@.resized_context(old(context)@, width, height)
                &&& final(self)@.gbuffer is Some
                &&& final(self)@.gbuffer->Some_0.sized(width, height)
            },
    {
        proof {
            use_type_invariant(&*self);
        }
        let has_size = match &self.gbuffer {
            Some(gbuffer) => gbuffer.position.width() == width && gbuffer.position.height()
                == height,
            None => false,
        };
        if has_size {
            return Ok(());
        }
        if !context.supports_size(width, height) || !context.can_allocate(GBUFFER_IMAGES) {
            return Err(RenderError::ResourceAllocationFailure);
        }
        self.state = PassState::GeometryPassPending;
        let mut gbuffer: Option<GBuffer> = None;
        std::mem::swap(&mut gbuffer, &mut self.gbuffer);
        match gbuffer {
            Some(gbuffer) => {
                gbuffer.release(context);
            },
            None => {},
        }
        self.gbuffer = Some(GBuffer::new(context, width, height));
        Ok(())
    }

    /// The geometry pass: brings the G-buffer to the size of the viewport,
    /// clears it, and draws each pair of geometry and material into it, in
    /// the order of the list, with the deferred program of the material,
    /// which writes position, normal, base color, and occlusion, roughness
    /// and metallic into the channels of the G-buffer.
    ///
    /// The call fails
    /// - with `ResourceAllocationFailure`, and leaves pipeline and context
    ///   as they were, if the G-buffer cannot be brought to the size;
    /// - else with `InvalidTargetComposition` if the context allows fewer
    ///   than four color attachments, or with `ResourceAllocationFailure` if
    ///   it has no handle left for the framebuffer;
    /// - else with `ShaderCompilationFailure` if the deferred program of
    ///   one of the materials is known not to compile; the G-buffer is
    ///   cleared and nothing is drawn then.
    /// After a success the pipeline waits for a lighting pass, after a
    /// failure for a geometry pass.
    pub fn render_pass(
        &mut self,
        context: &mut Context,
        width: u32,
        height: u32,
        camera: &Camera,
        objects: &Vec<(Geometry, Material<'_>)>,
    ) -> (r: Result<(), RenderError>)
        requires
            old(context).wf(),
            old(self).valid(old(context)),
        ensures
            final(context).wf(),
            final(self).valid(final(context)),
            (r, final(self)@, final(context)@) == old(self)@.geometry_outcome(
                old(context)@,
                width,
                height,
                geometry_pass(*camera, objects@),
            ),
            r is Ok ==> final(self)@.has_size(width, height) && final(self)@.state
                is LightingPassPending,
            final(context)@.draw_framebuffer == old(context)@.draw_framebuffer,
    {
        match self.resize(context, width, height) {
            Ok(()) => {},
            Err(e) => {
                return Err(e);
            },
        }
        proof {
            use_type_invariant(&*self);
        }
        self.state = PassState::GeometryPassPending;
        let draws = geometry_draws(camera, objects);
        let ghost pass = draws@;
        let ghost resized = context@;
        let written = {
            let gbuffer = self.gbuffer.as_ref().unwrap();
            let mut colors: Vec<ColorTarget<'_>> = Vec::new();
            colors.push(ColorTarget::new_texture_2d(&gbuffer.position));
            colors.push(ColorTarget::new_texture_2d(&gbuffer.normal));
            colors.push(ColorTarget::new_texture_2d(&gbuffer.color));
            colors.push(ColorTarget::new_texture_2d(&gbuffer.orm));
            let depth = Some(DepthTarget::new_texture_2d(&gbuffer.depth));
            proof {
                let views = crate::render_target::target_views(colors@);
                assert(views =~= gbuffer@.composition().colors);
                assert(gbuffer@.composition().matched());
            }
            let target = RenderTarget::from_targets(colors, depth).unwrap();
            assert(target@ == gbuffer@.composition());
            let render = move || -> (out: Result<Vec<DrawCommand>, RenderError>)
                ensures
                    out is Ok,
                    out->Ok_0@ == pass,
                { Ok(draws) };
            target.write(
                context,
                ClearState::color_and_depth(0, 0, 0, 0, DEPTH_FAR),
                render,
            )
        };
        match written {
            Ok(()) => {
                self.state = PassState::LightingPassPending;
                Ok(())
            },
            Err(e) => Err(e),
        }
    }

    /// The draw commands of the lighting pass, to be handed to the write of
    /// the target that the image goes to: one draw that covers the G-buffer,
    /// with the channels of the G-buffer bound as textures. Without a debug
    /// type the draw shades, with every light and its shadow map bound; with
    /// one it shows the channel and binds no light.
    ///
    /// Fails with `UnsupportedOperation`, and leaves the pipeline as it was,
    /// exactly if no geometry pass has filled the G-buffer since the last
    /// lighting pass. The pipeline waits for a geometry pass after a success.
    pub fn lighting_pass(&mut self, camera: &Camera, lights: &Vec<Light>) -> (r: Result<
        Vec<DrawCommand>,
        RenderError,
    >)
        ensures
            r is Ok <==> old(self)@.state is LightingPassPending,
            r matches Ok(draws) ==> {
                &&& draws@ == old(self)@.lighting_commands(*camera, lights@)
                &&& final(self)@ == (DeferredView {
                    state: PassState::GeometryPassPending,
                    ..old(self)@
                })
            },
            r matches Err(e) ==> e == RenderError::UnsupportedOperation && final(self)@ == old(
                self,
            )@,
    {
        proof {
            use_type_invariant(&*self);
        }
        match self.state {
            PassState::GeometryPassPending => {
                return Err(RenderError::UnsupportedOperation);
            },
            PassState::LightingPassPending => {},
        }
        let mut draws: Vec<DrawCommand> = Vec::new();
        draws.push(DrawCommand::UseProgram { program: Program::Lighting(self.debug_type) });
        draws.push(DrawCommand::BindCamera { camera: camera.id });
        let gbuffer = self.gbuffer.as_ref().unwrap();
        draws.push(DrawCommand::BindTexture { unit: POSITION_UNIT, texture: gbuffer.position.id() });
        draws.push(DrawCommand::BindTexture { unit: NORMAL_UNIT, texture: gbuffer.normal.id() });
        draws.push(DrawCommand::BindTexture { unit: COLOR_UNIT, texture: gbuffer.color.id() });
        draws.push(DrawCommand::BindTexture { unit: ORM_UNIT, texture: gbuffer.orm.id() });
        draws.push(DrawCommand::BindTexture { unit: DEPTH_UNIT, texture: gbuffer.depth.id() });
        let ghost bound = draws@;
        match self.debug_type {
            DebugType::Off => {
                bind_lights(lights, &mut draws);
            },
            _ => {},
        }
        let width = gbuffer.position.width();
        let height = gbuffer.position.height();
        draws.push(DrawCommand::DrawFullScreen { width, height });
        assert(draws@ =~= old(self)@.lighting_commands(*camera, lights@));
        self.state = PassState::GeometryPassPending;
        Ok(draws)
    }

    /// Releases the pipeline: deletes the images of its G-buffer on the GPU.
    pub fn release(self, context: &mut Context)
        requires
            old(context).wf(),
            self.valid(old(context)),
        ensures
            final(context).wf(),
            final(context)@ == self@.released(old(context)@),
    {
        let DeferredPipeline { gbuffer, debug_type: _, state: _ } = self;
        match gbuffer {
            Some(gbuffer) => {
                gbuffer.release(context);
            },
            None => {},
        }
    }
}

/// However large the G-buffer was, a geometry pass that succeeds at the size
/// of a viewport leaves a G-buffer of that size, and the draw of the
/// lighting pass that follows covers exactly that size.
pub proof fn lemma_lighting_pass_covers_viewport(
    pipeline: DeferredView,
    ctx: ContextView,
    width: u32,
    height: u32,
    draws: Seq<DrawCommand>,
    camera: Camera,
    lights: Seq<Light>,
)
    requires
        pipeline.consistent(),
        pipeline.geometry_outcome(ctx, width, height, draws).0 is Ok,
    ensures
        ({
            let after = pipeline.geometry_outcome(ctx, width, height, draws).1;
            &&& after.state is LightingPassPending
            &&& after.gbuffer is Some
            &&& after.gbuffer->Some_0.sized(width, height)
            &&& after.lighting_commands(camera, lights).last() == (DrawCommand::DrawFullScreen {
                width,
                height,
            })
        }),
{
}

} // verus!
