use vstd::prelude::*;
use crate::command::{
    ClearState, DrawCommand, Format, GpuCommand, LightKind, ObjectKind, Program, ShadowProjection,
    Wrapping,
};
use crate::context::{Context, ContextView};
use crate::error::RenderError;
use crate::render_target::{Composition, TargetView};
use crate::scene::Geometry;
use crate::texture::depth_texture2d::DepthTexture2D;
use crate::texture::{with_texture, ImageView};

verus! {

/// The depth that a shadow map is cleared to: the bit pattern of the
/// single-precision number one, the far end of the depth range.
pub const DEPTH_FAR: u32 = 0x3F80_0000;

/// What a shadow map is: its depth image and the projection it was rendered with.
pub struct ShadowView {
    pub texture: ImageView,
    pub projection: ShadowProjection,
}

/// What a light is.
pub struct LightView {
    pub kind: LightKind,
    /// The handle under which the parameters of the light lie on the GPU.
    pub id: u32,
    pub shadow_map: Option<ShadowView>,
}

/// The commands that draw one geometry into the shadow map of a light.
pub open spec fn shadow_draw(light: u32, projection: ShadowProjection, geometry: Geometry) -> Seq<
    DrawCommand,
> {
    seq![
        DrawCommand::UseProgram { program: Program::DepthOnly },
        DrawCommand::SetShadowProjection { light, projection },
        DrawCommand::DrawGeometry { geometry: geometry.id },
    ]
}

/// The commands that draw the geometries, in order, into the shadow map of a light.
pub open spec fn shadow_pass(
    light: u32,
    projection: ShadowProjection,
    geometries: Seq<Geometry>,
) -> Seq<DrawCommand>
    decreases geometries.len(),
{
    if geometries.len() == 0 {
        Seq::empty()
    } else {
        shadow_pass(light, projection, geometries.drop_last()) + shadow_draw(
            light,
            projection,
            geometries.last(),
        )
    }
}

/// A shadow pass selects the depth-only program and no other.
proof fn lemma_shadow_pass_programs(
    ctx: ContextView,
    light: u32,
    projection: ShadowProjection,
    geometries: Seq<Geometry>,
)
    requires
        !ctx.program_failed(Program::DepthOnly),
    ensures
        !ctx.uses_failed_program(shadow_pass(light, projection, geometries)),
    decreases geometries.len(),
{
    let pass = shadow_pass(light, projection, geometries);
    if geometries.len() > 0 {
        let head = shadow_pass(light, projection, geometries.drop_last());
        lemma_shadow_pass_programs(ctx, light, projection, geometries.drop_last());
        assert forall|i: int| 0 <= i < pass.len() implies !ctx.uses_failed(#[trigger] pass[i]) by {
            if i < head.len() {
                assert(pass[i] == head[i]);
            } else {
                assert(pass[i] == shadow_draw(light, projection, geometries.last())[i
                    - head.len()]);
            }
        }
    }
}

/// The commands that bind one light to the program in use: the light, and
/// its shadow map if it has one.
pub open spec fn light_binding(light: LightView) -> Seq<DrawCommand> {
    match light.shadow_map {
        None => seq![DrawCommand::BindLight { light: light.id, kind: light.kind }],
        Some(shadow_map) => seq![
            DrawCommand::BindLight { light: light.id, kind: light.kind },
            DrawCommand::BindShadowMap {
                light: light.id,
                texture: shadow_map.texture.id,
                projection: shadow_map.projection,
            },
        ],
    }
}

/// The commands that bind the lights, in order, to the program in use.
pub open spec fn light_bindings(lights: Seq<Light>) -> Seq<DrawCommand>
    decreases lights.len(),
{
    if lights.len() == 0 {
        Seq::empty()
    } else {
        light_bindings(lights.drop_last()) + light_binding(lights.last()@)
    }
}

impl LightView {
    /// A light of the given kind without a shadow map.
    pub open spec fn fresh(kind: LightKind, id: u32) -> LightView {
        LightView { kind, id, shadow_map: None }
    }

    /// Whether the light has a shadow map.
    pub open spec fn has_shadow_map(self) -> bool {
        self.shadow_map is Some
    }

    /// The light after its shadow map has been cleared.
    pub open spec fn cleared(self) -> LightView {
        LightView { shadow_map: None, ..self }
    }

    /// Whether a light of this kind can cast shadows.
    pub open spec fn casts_shadows(self) -> bool {
        self.kind is Directional || self.kind is Spot
    }

    /// The projection of the shadow map of the light: perspective with the
    /// given cone angle for a spot light, parallel with the given extent for
    /// any other.
    pub open spec fn projection(self, extent_or_cutoff: u32) -> ShadowProjection {
        match self.kind {
            LightKind::Spot => ShadowProjection::Perspective { cutoff: extent_or_cutoff },
            _ => ShadowProjection::Orthographic { extent: extent_or_cutoff },
        }
    }

    /// Whether the light has a shadow map of the given resolution.
    pub open spec fn has_resolution(self, width: u32, height: u32) -> bool {
        self.shadow_map matches Some(shadow_map) && shadow_map.texture.width == width
            && shadow_map.texture.height == height
    }

    /// How a shadow map of the given size is sampled: clamped at its edges.
    pub open spec fn shadow_sampling() -> crate::command::Sampling {
        DepthTexture2D::sampling(Wrapping::ClampToEdge, Wrapping::ClampToEdge)
    }

    /// Why no shadow map of the given resolution can be generated for the
    /// light in the given state, if none can.
    pub open spec fn shadow_error(self, ctx: ContextView, width: u32, height: u32) -> Option<
        RenderError,
    > {
        if !self.casts_shadows() {
            Some(RenderError::UnsupportedOperation)
        } else if ctx.program_failed(Program::DepthOnly) {
            Some(RenderError::ShaderCompilationFailure)
        } else if self.has_resolution(width, height) {
            if ctx.free_handles() < 1 {
                Some(RenderError::ResourceAllocationFailure)
            } else {
                None
            }
        } else if !ctx.supports_size(width, height) || ctx.free_handles() < 2 {
            Some(RenderError::ResourceAllocationFailure)
        } else {
            None
        }
    }

    /// The depth image of the shadow map of the given resolution that is
    /// generated in the given state: the one the light has, if it has that
    /// resolution, else a new one.
    pub open spec fn shadow_image(self, ctx: ContextView, width: u32, height: u32) -> ImageView {
        if self.has_resolution(width, height) {
            self.shadow_map->Some_0.texture
        } else {
            ImageView { id: ctx.next_handle(), width, height, format: Format::Depth32F, samples: 1 }
        }
    }

    /// The light after a shadow map of the given resolution has been generated for it.
    pub open spec fn shadowed(
        self,
        ctx: ContextView,
        extent_or_cutoff: u32,
        width: u32,
        height: u32,
    ) -> LightView {
        LightView {
            shadow_map: Some(
                ShadowView {
                    texture: self.shadow_image(ctx, width, height),
                    projection: self.projection(extent_or_cutoff),
                },
            ),
            ..self
        }
    }

    /// The state of a context after the shadow map of the light has been released.
    pub open spec fn unshadowed(self, ctx: ContextView) -> ContextView {
        match self.shadow_map {
            Some(shadow_map) => ctx.after(
                GpuCommand::Delete { kind: ObjectKind::Texture, id: shadow_map.texture.id },
            ),
            None => ctx,
        }
    }

    /// The state of a context when the depth image of the shadow map of the
    /// given resolution is there: as it was if the light has one of that
    /// resolution; else the one it has is released and a new one created.
    pub open spec fn shadow_allocated(self, ctx: ContextView, width: u32, height: u32)
        -> ContextView {
        if self.has_resolution(width, height) {
            ctx
        } else {
            with_texture(
                self.unshadowed(ctx),
                Format::Depth32F,
                width,
                height,
                Self::shadow_sampling(),
            )
        }
    }

    /// The state of a context after a shadow map of the given resolution has
    /// been generated for the light: the depth image is there, cleared and
    /// drawn into with each geometry in order.
    pub open spec fn shadow_rendered(
        self,
        ctx: ContextView,
        extent_or_cutoff: u32,
        width: u32,
        height: u32,
        geometries: Seq<Geometry>,
    ) -> ContextView {
        Composition::of_depth(
            TargetView {
                image: self.shadow_image(ctx, width, height),
                kind: ObjectKind::Texture,
            },
        ).written(
            self.shadow_allocated(ctx, width, height),
            ClearState { red: None, green: None, blue: None, alpha: None, depth: Some(DEPTH_FAR) },
            shadow_pass(self.id, self.projection(extent_or_cutoff), geometries),
        )
    }

    /// Whether the shadow map of the light lives in a context in the given state.
    pub open spec fn valid(self, ctx: ContextView) -> bool {
        self.shadow_map matches Some(shadow_map) ==> ctx.is_live(
            shadow_map.texture.id,
            ObjectKind::Texture,
        )
    }
}

struct ShadowMap {
    texture: DepthTexture2D,
    projection: ShadowProjection,
}

/// A light: ambient, directional, spot or point.
///
/// A directional or spot light can own a shadow map: a depth texture
/// rendered from the light, with the projection it was rendered with.
/// A light starts without a shadow map, has one after one was generated,
/// and has none again after it was cleared. Ambient and point lights never
/// have one.
pub struct Light {
    kind: LightKind,
    id: u32,
    shadow_map: Option<ShadowMap>,
}

impl View for Light {
    type V = LightView;

    closed spec fn view(&self) -> LightView {
        LightView {
            kind: self.kind,
            id: self.id,
            shadow_map: match self.shadow_map {
                Some(shadow_map) => Some(
                    ShadowView { texture: shadow_map.texture@, projection: shadow_map.projection },
                ),
                None => None,
            },
        }
    }
}

impl Light {
    /// Only a light that can cast shadows has a shadow map.
    #[verifier::type_invariant]
    closed spec fn inv(&self) -> bool {
        self@.shadow_map is Some ==> self@.casts_shadows()
    }

    /// Whether the shadow map of the light lives in the given context.
    pub open spec fn valid(&self, ctx: &Context) -> bool {
        self@.valid(ctx@)
    }

    /// A light of the given kind whose parameters lie under the given
    /// handle. It has no shadow map.
    pub fn new(kind: LightKind, id: u32) -> (light: Light)
        ensures
            light@ == LightView::fresh(kind, id),
            !light@.has_shadow_map(),
    {
        Light { kind, id, shadow_map: None }
    }

    /// The kind of the light.
    pub fn kind(&self) -> (kind: LightKind)
        ensures
            kind == self@.kind,
    {
        self.kind
    }

    /// The handle under which the parameters of the light lie on the GPU.
    pub fn id(&self) -> (id: u32)
        ensures
            id == self@.id,
    {
        self.id
    }

    /// Whether the light has a shadow map. Only a directional or spot light can have one.
    pub fn has_shadow_map(&self) -> (b: bool)
        ensures
            b == self@.has_shadow_map(),
            b ==> self@.casts_shadows(),
    {
        proof {
            use_type_invariant(self);
        }
        self.shadow_map.is_some()
    }

    /// The handle of the depth texture of the shadow map and the projection
    /// it was rendered with, if the light has a shadow map.
    pub fn shadow_map(&self) -> (r: Option<(u32, ShadowProjection)>)
        ensures
            r == (match self@.shadow_map {
                Some(shadow_map) => Some((shadow_map.texture.id, shadow_map.projection)),
                None => None,
            }),
    {
        match &self.shadow_map {
            Some(shadow_map) => Some((shadow_map.texture.id(), shadow_map.projection)),
            None => None,
        }
    }

    /// The draw commands that draw the geometries, in order, into the shadow map of a light.
    fn shadow_draws(light: u32, projection: ShadowProjection, geometries: &Vec<Geometry>) -> (draws:
        Vec<DrawCommand>)
        ensures
            draws@ == shadow_pass(light, projection, geometries@),
    {
        let mut draws: Vec<DrawCommand> = Vec::new();
        let mut i: usize = 0;
        while i < geometries.len()
            invariant
                i <= geometries.len(),
                draws@ == shadow_pass(light, projection, geometries@.take(i as int)),
            decreases geometries.len() - i,
        {
            proof {
                assert(geometries@.take(i + 1).drop_last() == geometries@.take(i as int));
                assert(geometries@.take(i + 1).last() == geometries@[i as int]);
            }
            let ghost before = draws@;
            draws.push(DrawCommand::UseProgram { program: Program::DepthOnly });
            draws.push(DrawCommand::SetShadowProjection { light, projection });
            draws.push(DrawCommand::DrawGeometry { geometry: geometries[i].id });
            assert(draws@ =~= before + shadow_draw(light, projection, geometries@[i as int]));
            i = i + 1;
        }
        proof {
            assert(geometries@.take(i as int) == geometries@);
        }
        draws
    }

    /// Renders the scene from the light and captures its depth as the shadow
    /// map of the light.
    ///
    /// The light-space projection is parallel, sized by `extent_or_cutoff`
    /// as an extent, for a directional light, and perspective, with
    /// `extent_or_cutoff` as the cone angle, for a spot light; the value is the
    /// bit pattern of a single-precision number. The depth texture of the
    /// shadow map has the requested resolution: the one the light has is
    /// used again if it has that resolution, else it is released and a new
    /// one created. The texture is cleared and each geometry is drawn into
    /// it in order, with the depth-only program. Texture and projection are
    /// kept for the lighting passes that follow.
    ///
    /// The call fails, and leaves light and context as they were,
    /// - with `UnsupportedOperation` if the light is ambient or a point light;
    /// - else with `ShaderCompilationFailure` if the depth-only program is
    ///   known not to compile;
    /// - else with `ResourceAllocationFailure` if the context cannot provide
    ///   the framebuffer of the pass and, where a new one is needed, the
    ///   depth texture.
    /// It succeeds otherwise, and the light has a shadow map then.
    pub fn generate_shadow_map(
        &mut self,
        context: &mut Context,
        extent_or_cutoff: u32,
        width: u32,
        height: u32,
        geometries: &Vec<Geometry>,
    ) -> (r: Result<(), RenderError>)
        requires
            old(context).wf(),
            old(self).valid(old(context)),
        ensures
            final(context).wf(),
            final(self).valid(final(context)),
            r == (match old(self)@.shadow_error(old(context)@, width, height) {
                Some(e) => Err::<(), RenderError>(e),
                None => Ok(()),
            }),
            r is Err ==> final(self)@ == old(self)@ && final(context)@ == old(context)@,
            r is Ok ==> {
                &&& final(self)@.has_shadow_map()
                &&& final(self)@ == old(self)@.shadowed(
                    old(context)@,
                    extent_or_cutoff,
                    width,
                    height,
                )
                &&& final(context)@ == old(self)@.shadow_rendered(
                    old(context)@,
                    extent_or_cutoff,
                    width,
                    height,
                    geometries@,
                )
            },
    {
        proof {
            use_type_invariant(&*self);
        }
        let projection = match self.kind {
            LightKind::Directional => ShadowProjection::Orthographic { extent: extent_or_cutoff },
            LightKind::Spot => ShadowProjection::Perspective { cutoff: extent_or_cutoff },
            _ => {
                return Err(RenderError::UnsupportedOperation);
            },
        };
        if context.program_failed(Program::DepthOnly) {
            return Err(RenderError::ShaderCompilationFailure);
        }
        let reuse = match &self.shadow_map {
            Some(shadow_map) => shadow_map.texture.width() == width && shadow_map.texture.height()
                == height,
            None => false,
        };
        if reuse {
            if !context.can_allocate(1) {
                return Err(RenderError::ResourceAllocationFailure);
            }
        } else if !context.supports_size(width, height) || !context.can_allocate(2) {
            return Err(RenderError::ResourceAllocationFailure);
        }
        let mut shadow_map: Option<ShadowMap> = None;
        std::mem::swap(&mut shadow_map, &mut self.shadow_map);
        let mut texture = match shadow_map {
            Some(ShadowMap { texture, projection: _ }) => {
                if reuse {
                    texture
                } else {
                    texture.release(context);
                    DepthTexture2D::new(
                        context,
                        width,
                        height,
                        Wrapping::ClampToEdge,
                        Wrapping::ClampToEdge,
                    ).unwrap()
                }
            },
            None => DepthTexture2D::new(
                context,
                width,
                height,
                Wrapping::ClampToEdge,
                Wrapping::ClampToEdge,
            ).unwrap(),
        };
        let draws = Self::shadow_draws(self.id, projection, geometries);
        let ghost pass = draws@;
        proof {
            lemma_shadow_pass_programs(context@, self.id, projection, geometries@);
        }
        {
            let target = texture.as_depth_target().as_render_target();
            let render = move || -> (out: Result<Vec<DrawCommand>, RenderError>)
                ensures
                    out is Ok,
                    out->Ok_0@ == pass,
                { Ok(draws) };
            let written = target.write(context, ClearState::depth(DEPTH_FAR), render);
            assert(written is Ok);
        }
        self.shadow_map = Some(ShadowMap { texture, projection });
        Ok(())
    }

    /// Releases the shadow map of the light, if it has one. The light has no
    /// shadow map afterwards and counts as unoccluded.
    pub fn clear_shadow_map(&mut self, context: &mut Context)
        requires
            old(context).wf(),
            old(self).valid(old(context)),
        ensures
            final(context).wf(),
            final(self)@ == old(self)@.cleared(),
            !final(self)@.has_shadow_map(),
            final(context)@ == old(self)@.unshadowed(old(context)@),
    {
        let mut shadow_map: Option<ShadowMap> = None;
        std::mem::swap(&mut shadow_map, &mut self.shadow_map);
        match shadow_map {
            Some(ShadowMap { texture, projection: _ }) => {
                texture.release(context);
            },
            None => {},
        }
    }
}

/// The life of a shadow map: a light starts without one, has one after one
/// was generated for it, and has none after it was cleared. One is
/// generated for a directional or spot light unless the context lacks the
/// depth-only program or the resources; for an ambient or point light the
/// attempt is rejected as unsupported, and the light stays without one.
pub proof fn lemma_shadow_map_transitions(
    light: LightView,
    ctx: ContextView,
    extent_or_cutoff: u32,
    width: u32,
    height: u32,
)
    ensures
        !LightView::fresh(light.kind, light.id).has_shadow_map(),
        light.shadow_error(ctx, width, height) is None ==> light.shadowed(
            ctx,
            extent_or_cutoff,
            width,
            height,
        ).has_shadow_map(),
        !light.cleared().has_shadow_map(),
        light.kind is Point || light.kind is Ambient <==> light.shadow_error(ctx, width, height)
            == Some(RenderError::UnsupportedOperation),
        (light.kind is Directional || light.kind is Spot) && !ctx.program_failed(
            Program::DepthOnly,
        ) && ctx.supports_size(width, height) && ctx.free_handles() >= 2 ==> light.shadow_error(
            ctx,
            width,
            height,
        ) is None,
{
}

/// Appends the commands that bind the lights, in order, to the program in use.
pub(crate) fn bind_lights(lights: &Vec<Light>, draws: &mut Vec<DrawCommand>)
    ensures
        final(draws)@ == old(draws)@ + light_bindings(lights@),
{
    let mut i: usize = 0;
    while i < lights.len()
        invariant
            i <= lights.len(),
            draws@ == old(draws)@ + light_bindings(lights@.take(i as int)),
        decreases lights.len() - i,
    {
        proof {
            assert(lights@.take(i + 1).drop_last() == lights@.take(i as int));
            assert(lights@.take(i + 1).last() == lights@[i as int]);
        }
        let ghost before = draws@;
        let light = &lights[i];
        draws.push(DrawCommand::BindLight { light: light.id(), kind: light.kind() });
        match light.shadow_map() {
            Some((texture, projection)) => {
                draws.push(DrawCommand::BindShadowMap { light: light.id(), texture, projection });
            },
            None => {},
        }
        assert(draws@ =~= before + light_binding(lights@[i as int]@));
        assert(draws@ =~= old(draws)@ + light_bindings(lights@.take(i + 1)));
        i = i + 1;
    }
    proof {
        assert(lights@.take(i as int) == lights@);
    }
}

} // verus!
