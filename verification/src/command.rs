use vstd::prelude::*;

verus! {

/// The kinds of GPU object whose lifetime a context tracks.
#[derive(Clone, Copy, Debug, PartialEq, Eq, Structural)]
pub enum ObjectKind {
    /// A single-sample image that can be both rendered to and sampled.
    Texture,
    /// A multisample image that can only be rendered to and blitted from.
    Renderbuffer,
    /// A set of attachments that draw commands write into.
    Framebuffer,
}

/// The pixel layout of an image.
#[derive(Clone, Copy, Debug, PartialEq, Eq, Structural)]
pub enum Format {
    R8,
    Rg8,
    Rgb8,
    Rgba8,
    Rgb16F,
    Rgba16F,
    Rgb32F,
    Rgba32F,
    Depth32F,
}

/// How a texture is filtered when it is sampled between texels.
#[derive(Clone, Copy, Debug, PartialEq, Eq, Structural)]
pub enum Interpolation {
    Nearest,
    Linear,
}

/// How a texture is sampled outside its unit square.
#[derive(Clone, Copy, Debug, PartialEq, Eq, Structural)]
pub enum Wrapping {
    Repeat,
    MirroredRepeat,
    ClampToEdge,
}

/// The sampling parameters of a single-sample texture.
#[derive(Clone, Copy, Debug, PartialEq, Eq, Structural)]
pub struct Sampling {
    pub min_filter: Interpolation,
    pub mag_filter: Interpolation,
    pub mip_map_filter: Option<Interpolation>,
    pub wrap_s: Wrapping,
    pub wrap_t: Wrapping,
}

/// The two framebuffer binding points of a context.
#[derive(Clone, Copy, Debug, PartialEq, Eq, Structural)]
pub enum FramebufferTarget {
    /// The destination of draw, clear and blit commands.
    Draw,
    /// The source of blit commands.
    Read,
}

/// A slot of a framebuffer that an image can be attached to.
#[derive(Clone, Copy, Debug, PartialEq, Eq, Structural)]
pub enum Attachment {
    /// The color attachment that fragment output channel `0` of the variant writes to.
    Color(u32),
    Depth,
}

/// Which parts of a render target are cleared before drawing, and to what.
///
/// Every value is the bit pattern of a single-precision number; the library
/// hands the patterns on and never interprets them.
#[derive(Clone, Copy, Debug, PartialEq, Eq, Structural)]
pub struct ClearState {
    pub red: Option<u32>,
    pub green: Option<u32>,
    pub blue: Option<u32>,
    pub alpha: Option<u32>,
    pub depth: Option<u32>,
}

/// The shading a material performs.
#[derive(Clone, Copy, Debug, PartialEq, Eq, Structural)]
pub enum MaterialKind {
    /// Physically based shading.
    Physical,
    /// Unlit vertex or texture color.
    Color,
    Depth,
    Position,
    Normal,
    Uv,
    /// Occlusion, roughness and metallic channels.
    Orm,
}

/// The G-buffer channel that a deferred lighting pass shows in place of the lit image.
#[derive(Clone, Copy, Debug, PartialEq, Eq, Structural)]
pub enum DebugType {
    Position,
    Normal,
    Color,
    Depth,
    Orm,
    Uv,
    /// No channel: the lighting pass shades.
    Off,
}

/// The variants of light.
#[derive(Clone, Copy, Debug, PartialEq, Eq, Structural)]
pub enum LightKind {
    Ambient,
    Directional,
    Spot,
    Point,
}

/// The projection with which a shadow map was rendered from its light.
///
/// The parameter of either variant is the bit pattern of a single-precision number.
#[derive(Clone, Copy, Debug, PartialEq, Eq, Structural)]
pub enum ShadowProjection {
    /// Parallel projection bounding a region of the given extent.
    Orthographic { extent: u32 },
    /// Perspective projection with the given cone angle.
    Perspective { cutoff: u32 },
}

/// A GPU program.
#[derive(Clone, Copy, Debug, PartialEq, Eq, Structural)]
pub enum Program {
    /// Shades a material directly into the active target.
    Forward(MaterialKind),
    /// Writes the attributes of a material into the channels of a G-buffer.
    Deferred(MaterialKind),
    /// Writes depth only; color writes are disabled.
    DepthOnly,
    /// Full-screen pass that reads a G-buffer and either shades or shows one channel.
    Lighting(DebugType),
}

/// Which faces of a geometry are left out of a draw.
#[derive(Clone, Copy, Debug, PartialEq, Eq, Structural)]
pub enum Cull {
    Off,
    Back,
    Front,
}

/// How the output of a draw is combined with what the target holds.
#[derive(Clone, Copy, Debug, PartialEq, Eq, Structural)]
pub enum Blend {
    /// The output replaces what the target holds: the material is opaque.
    Off,
    /// The output is blended over what the target holds by its alpha.
    Transparency,
}

/// A command that contributes to a draw into the active render target.
#[derive(Clone, Copy, Debug, PartialEq, Eq, Structural)]
pub enum DrawCommand {
    UseProgram { program: Program },
    SetRenderStates { cull: Cull, blend: Blend },
    BindCamera { camera: u32 },
    BindMaterial { material: u32 },
    BindTexture { unit: u32, texture: u32 },
    BindLight { light: u32, kind: LightKind },
    BindShadowMap { light: u32, texture: u32, projection: ShadowProjection },
    SetShadowProjection { light: u32, projection: ShadowProjection },
    DrawGeometry { geometry: u32 },
    DrawFullScreen { width: u32, height: u32 },
}

/// A command submitted to the GPU through a context.
#[allow(inconsistent_fields)]
#[derive(Clone, Copy, Debug, PartialEq, Eq, Structural)]
pub enum GpuCommand {
    Create { kind: ObjectKind, id: u32 },
    Delete { kind: ObjectKind, id: u32 },
    TextureStorage { id: u32, format: Format, width: u32, height: u32, sampling: Sampling },
    BindRenderbuffer { id: Option<u32> },
    /// Allocates storage for the bound renderbuffer.
    RenderbufferStorageMultisample { samples: u32, format: Format, width: u32, height: u32 },
    BindFramebuffer { target: FramebufferTarget, id: Option<u32> },
    /// Attaches a renderbuffer to the framebuffer bound to `target`.
    FramebufferRenderbuffer { target: FramebufferTarget, attachment: Attachment, id: u32 },
    /// Attaches a texture to the framebuffer bound to `target`.
    FramebufferTexture { target: FramebufferTarget, attachment: Attachment, id: u32 },
    /// Routes the first `count` fragment output channels to the color attachments of the same index.
    DrawBuffers { count: u32 },
    Viewport { width: u32, height: u32 },
    Clear { state: ClearState },
    /// Copies from the read framebuffer to the draw framebuffer, resolving samples.
    Blit { width: u32, height: u32, color: bool, depth: bool },
    Draw { command: DrawCommand },
}

impl ClearState {
    /// Whether the state clears nothing.
    pub open spec fn is_none(self) -> bool {
        self.red is None && self.green is None && self.blue is None && self.alpha is None
            && self.depth is None
    }

    /// Clears nothing.
    pub fn none() -> (state: ClearState)
        ensures
            state == (ClearState { red: None, green: None, blue: None, alpha: None, depth: None }),
    {
        ClearState { red: None, green: None, blue: None, alpha: None, depth: None }
    }

    /// Clears the four color channels to the given values.
    pub fn color(red: u32, green: u32, blue: u32, alpha: u32) -> (state: ClearState)
        ensures
            state == (ClearState {
                red: Some(red),
                green: Some(green),
                blue: Some(blue),
                alpha: Some(alpha),
                depth: None,
            }),
    {
        ClearState {
            red: Some(red),
            green: Some(green),
            blue: Some(blue),
            alpha: Some(alpha),
            depth: None,
        }
    }

    /// Clears depth to the given value.
    pub fn depth(depth: u32) -> (state: ClearState)
        ensures
            state == (ClearState {
                red: None,
                green: None,
                blue: None,
                alpha: None,
                depth: Some(depth),
            }),
    {
        ClearState { red: None, green: None, blue: None, alpha: None, depth: Some(depth) }
    }

    /// Clears the four color channels and depth to the given values.
    pub fn color_and_depth(red: u32, green: u32, blue: u32, alpha: u32, depth: u32) -> (state:
        ClearState)
        ensures
            state == (ClearState {
                red: Some(red),
                green: Some(green),
                blue: Some(blue),
                alpha: Some(alpha),
                depth: Some(depth),
            }),
    {
        ClearState {
            red: Some(red),
            green: Some(green),
            blue: Some(blue),
            alpha: Some(alpha),
            depth: Some(depth),
        }
    }

    /// Whether the state clears nothing.
    pub fn clears_nothing(&self) -> (b: bool)
        ensures
            b == self.is_none(),
    {
        self.red.is_none() && self.green.is_none() && self.blue.is_none() && self.alpha.is_none()
            && self.depth.is_none()
    }
}

} // verus!
