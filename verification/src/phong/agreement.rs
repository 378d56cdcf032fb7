use vstd::prelude::*;
use crate::command::DrawCommand;
use crate::light::{light_binding, light_bindings, Light};
use crate::phong::deferred_pipeline::{geometry_draw, geometry_pass};
use crate::phong::forward_pipeline::{forward_draw, forward_pass};
use crate::phong::material::{texture_binding, Material};
use crate::scene::{Camera, Geometry};
use crate::texture::texture2d::Texture2D;

verus! {

/// The geometries that the commands draw, in the order of the draws.
pub open spec fn geometries_drawn(draws: Seq<DrawCommand>) -> Seq<u32>
    decreases draws.len(),
{
    if draws.len() == 0 {
        Seq::empty()
    } else {
        let before = geometries_drawn(draws.drop_last());
        match draws.last() {
            DrawCommand::DrawGeometry { geometry } => before.push(geometry),
            _ => before,
        }
    }
}

/// The geometries of the objects, in the order of the list.
pub open spec fn geometries_of<'a>(objects: Seq<(Geometry, Material<'a>)>) -> Seq<u32> {
    Seq::new(objects.len(), |i: int| objects[i].0.id)
}

/// What two runs of commands draw, one after the other, is what the first
/// draws followed by what the second draws.
proof fn lemma_drawn_in_sequence(first: Seq<DrawCommand>, second: Seq<DrawCommand>)
    ensures
        geometries_drawn(first + second) == geometries_drawn(first) + geometries_drawn(second),
    decreases second.len(),
{
    if second.len() == 0 {
        assert(first + second =~= first);
        assert(geometries_drawn(first) + geometries_drawn(second) =~= geometries_drawn(first));
    } else {
        assert((first + second).drop_last() =~= first + second.drop_last());
        assert((first + second).last() == second.last());
        lemma_drawn_in_sequence(first, second.drop_last());
        assert(geometries_drawn(first + second) =~= geometries_drawn(first) + geometries_drawn(
            second,
        ));
    }
}

/// Commands among which there is no draw of a geometry draw no geometry.
proof fn lemma_nothing_drawn(draws: Seq<DrawCommand>)
    requires
        forall|i: int| 0 <= i < draws.len() ==> !(#[trigger] draws[i] is DrawGeometry),
    ensures
        geometries_drawn(draws) == Seq::<u32>::empty(),
    decreases draws.len(),
{
    if draws.len() > 0 {
        assert(!(draws[draws.len() - 1] is DrawGeometry));
        lemma_nothing_drawn(draws.drop_last());
    }
}

/// Binding a texture draws no geometry.
proof fn lemma_texture_binding_draws_nothing(unit: u32, texture: Option<&Texture2D>)
    ensures
        geometries_drawn(texture_binding(unit, texture)) == Seq::<u32>::empty(),
{
    lemma_nothing_drawn(texture_binding(unit, texture));
}

/// Making a material ready draws no geometry.
proof fn lemma_material_bindings_draw_nothing<'a>(
    material: Material<'a>,
    program: crate::command::Program,
    camera: Camera,
)
    ensures
        geometries_drawn(material.bindings(program, camera)) == Seq::<u32>::empty(),
{
    let head = seq![
        DrawCommand::UseProgram { program },
        DrawCommand::SetRenderStates { cull: material.cull, blend: material.blend },
        DrawCommand::BindCamera { camera: camera.id },
        DrawCommand::BindMaterial { material: material.id },
    ];
    let albedo = texture_binding(crate::phong::material::ALBEDO_UNIT, material.albedo);
    let normal = texture_binding(crate::phong::material::NORMAL_UNIT, material.normal);
    let orm = texture_binding(
        crate::phong::material::ORM_UNIT,
        material.occlusion_roughness_metallic,
    );
    let emissive = texture_binding(crate::phong::material::EMISSIVE_UNIT, material.emissive);
    lemma_nothing_drawn(head);
    lemma_nothing_drawn(albedo);
    lemma_nothing_drawn(normal);
    lemma_nothing_drawn(orm);
    lemma_nothing_drawn(emissive);
    lemma_drawn_in_sequence(head, albedo);
    lemma_drawn_in_sequence(head + albedo, normal);
    lemma_drawn_in_sequence(head + albedo + normal, orm);
    lemma_drawn_in_sequence(head + albedo + normal + orm, emissive);
}

/// Binding lights draws no geometry.
proof fn lemma_light_bindings_draw_nothing(lights: Seq<Light>)
    ensures
        geometries_drawn(light_bindings(lights)) == Seq::<u32>::empty(),
    decreases lights.len(),
{
    if lights.len() > 0 {
        lemma_light_bindings_draw_nothing(lights.drop_last());
        lemma_nothing_drawn(light_binding(lights.last()@));
        lemma_drawn_in_sequence(
            light_bindings(lights.drop_last()),
            light_binding(lights.last()@),
        );
    }
}

/// The forward draw of an object draws the geometry of the object and no other.
proof fn lemma_forward_draw<'a>(
    camera: Camera,
    object: (Geometry, Material<'a>),
    lights: Seq<Light>,
)
    ensures
        geometries_drawn(forward_draw(camera, object, lights)) == seq![object.0.id],
{
    let bindings = object.1.bindings(object.1.forward(), camera);
    let draw = seq![DrawCommand::DrawGeometry { geometry: object.0.id }];
    lemma_material_bindings_draw_nothing(object.1, object.1.forward(), camera);
    lemma_light_bindings_draw_nothing(lights);
    lemma_drawn_in_sequence(bindings, light_bindings(lights));
    lemma_drawn_in_sequence(bindings + light_bindings(lights), draw);
    assert(geometries_drawn(draw) =~= seq![object.0.id]) by {
        reveal_with_fuel(geometries_drawn, 2);
    }
    assert(geometries_drawn(forward_draw(camera, object, lights)) =~= seq![object.0.id]);
}

/// The geometry draw of an object draws the geometry of the object and no other.
proof fn lemma_geometry_draw<'a>(camera: Camera, object: (Geometry, Material<'a>))
    ensures
        geometries_drawn(geometry_draw(camera, object)) == seq![object.0.id],
{
    let bindings = object.1.bindings(object.1.deferred(), camera);
    let draw = seq![DrawCommand::DrawGeometry { geometry: object.0.id }];
    lemma_material_bindings_draw_nothing(object.1, object.1.deferred(), camera);
    lemma_drawn_in_sequence(bindings, draw);
    assert(geometries_drawn(draw) =~= seq![object.0.id]) by {
        reveal_with_fuel(geometries_drawn, 2);
    }
    assert(geometries_drawn(geometry_draw(camera, object)) =~= seq![object.0.id]);
}

/// The two pipelines draw the same: for one list of objects, the forward
/// pass and the geometry pass of the deferred pipeline each draw the
/// geometry of every object once, in the order of the list, whatever the
/// materials and the lights.
pub proof fn lemma_pipelines_draw_the_same_geometries<'a>(
    camera: Camera,
    objects: Seq<(Geometry, Material<'a>)>,
    lights: Seq<Light>,
)
    ensures
        geometries_drawn(forward_pass(camera, objects, lights)) == geometries_of(objects),
        geometries_drawn(geometry_pass(camera, objects)) == geometries_of(objects),
    decreases objects.len(),
{
    if objects.len() == 0 {
        assert(geometries_of(objects) =~= Seq::<u32>::empty());
    } else {
        let before = objects.drop_last();
        lemma_pipelines_draw_the_same_geometries(camera, before, lights);
        lemma_forward_draw(camera, objects.last(), lights);
        lemma_geometry_draw(camera, objects.last());
        lemma_drawn_in_sequence(
            forward_pass(camera, before, lights),
            forward_draw(camera, objects.last(), lights),
        );
        lemma_drawn_in_sequence(
            geometry_pass(camera, before),
            geometry_draw(camera, objects.last()),
        );
        assert(geometries_of(objects) =~= geometries_of(before) + seq![objects.last().0.id]);
    }
}

} // verus!
