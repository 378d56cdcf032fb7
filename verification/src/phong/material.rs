use vstd::prelude::*;
use crate::command::{Blend, Cull, DrawCommand, MaterialKind, Program};
use crate::scene::Camera;
use crate::texture::texture2d::Texture2D;

verus! {

/// The texture unit of the albedo texture of a material.
pub const ALBEDO_UNIT: u32 = 0;

/// The texture unit of the normal texture of a material.
pub const NORMAL_UNIT: u32 = 1;

/// The texture unit of the occlusion, roughness and metallic texture of a material.
pub const ORM_UNIT: u32 = 2;

/// The texture unit of the emissive texture of a material.
pub const EMISSIVE_UNIT: u32 = 3;

/// How the surface of an object is shaded: the kind of shading, the handle
/// under which the parameters of the material lie on the GPU, the textures
/// it reads, and how its draws are culled and blended.
///
/// Every kind shares one draw path; the kind selects the program.
pub struct Material<'a> {
    pub kind: MaterialKind,
    pub id: u32,
    pub albedo: Option<&'a Texture2D>,
    pub normal: Option<&'a Texture2D>,
    pub occlusion_roughness_metallic: Option<&'a Texture2D>,
    pub emissive: Option<&'a Texture2D>,
    pub cull: Cull,
    pub blend: Blend,
}

/// The command that binds a texture to a unit, if there is a texture.
pub open spec fn texture_binding(unit: u32, texture: Option<&Texture2D>) -> Seq<DrawCommand> {
    match texture {
        Some(texture) => seq![DrawCommand::BindTexture { unit, texture: texture@.id }],
        None => Seq::empty(),
    }
}

/// Appends the command that binds a texture to a unit, if there is a texture.
fn bind_texture(unit: u32, texture: Option<&Texture2D>, draws: &mut Vec<DrawCommand>)
    ensures
        final(draws)@ == old(draws)@ + texture_binding(unit, texture),
{
    match texture {
        Some(texture) => {
            draws.push(DrawCommand::BindTexture { unit, texture: texture.id() });
            assert(draws@ =~= old(draws)@ + texture_binding(unit, Some(texture)));
        },
        None => {
            assert(draws@ =~= old(draws)@ + texture_binding(unit, None));
        },
    }
}

impl<'a> Material<'a> {
    /// The program that shades the material directly into the active target.
    pub open spec fn forward(&self) -> Program {
        Program::Forward(self.kind)
    }

    /// The program that writes the attributes of the material into a G-buffer.
    pub open spec fn deferred(&self) -> Program {
        Program::Deferred(self.kind)
    }

    /// The commands that make the material ready for a draw with the given
    /// program: select the program, set the render states, and bind the
    /// camera, the parameters and the textures of the material.
    pub open spec fn bindings(&self, program: Program, camera: Camera) -> Seq<DrawCommand> {
        seq![
            DrawCommand::UseProgram { program },
            DrawCommand::SetRenderStates { cull: self.cull, blend: self.blend },
            DrawCommand::BindCamera { camera: camera.id },
            DrawCommand::BindMaterial { material: self.id },
        ] + texture_binding(ALBEDO_UNIT, self.albedo) + texture_binding(NORMAL_UNIT, self.normal)
            + texture_binding(ORM_UNIT, self.occlusion_roughness_metallic) + texture_binding(
            EMISSIVE_UNIT,
            self.emissive,
        )
    }

    /// An opaque material of the given kind, without textures, whose
    /// parameters lie under the given handle.
    pub fn new(kind: MaterialKind, id: u32) -> (material: Material<'a>)
        ensures
            material == (Material {
                kind,
                id,
                albedo: None,
                normal: None,
                occlusion_roughness_metallic: None,
                emissive: None,
                cull: Cull::Back,
                blend: Blend::Off,
            }),
    {
        Material {
            kind,
            id,
            albedo: None,
            normal: None,
            occlusion_roughness_metallic: None,
            emissive: None,
            cull: Cull::Back,
            blend: Blend::Off,
        }
    }

    /// The program that shades the material directly into the active target.
    pub fn forward_program(&self) -> (program: Program)
        ensures
            program == self.forward(),
    {
        Program::Forward(self.kind)
    }

    /// The program that writes the attributes of the material into a G-buffer.
    pub fn deferred_program(&self) -> (program: Program)
        ensures
            program == self.deferred(),
    {
        Program::Deferred(self.kind)
    }

    /// Appends the commands that make the material ready for a draw with the given program.
    pub fn bind(&self, program: Program, camera: &Camera, draws: &mut Vec<DrawCommand>)
        ensures
            final(draws)@ == old(draws)@ + self.bindings(program, *camera),
    {
        draws.push(DrawCommand::UseProgram { program });
        draws.push(DrawCommand::SetRenderStates { cull: self.cull, blend: self.blend });
        draws.push(DrawCommand::BindCamera { camera: camera.id });
        draws.push(DrawCommand::BindMaterial { material: self.id });
        bind_texture(ALBEDO_UNIT, self.albedo, draws);
        bind_texture(NORMAL_UNIT, self.normal, draws);
        bind_texture(ORM_UNIT, self.occlusion_roughness_metallic, draws);
        bind_texture(EMISSIVE_UNIT, self.emissive, draws);
        assert(draws@ =~= old(draws)@ + self.bindings(program, *camera));
    }
}

} // verus!
