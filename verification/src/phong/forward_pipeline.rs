use vstd::prelude::*;
use crate::command::DrawCommand;
use crate::light::{bind_lights, light_bindings, Light};
use crate::phong::material::Material;
use crate::scene::{Camera, Geometry};

verus! {

/// The commands of the forward draw of one object: make its material ready
/// for its forward program, bind every light with its shadow map, and draw
/// the geometry.
pub open spec fn forward_draw<'a>(
    camera: Camera,
    object: (Geometry, Material<'a>),
    lights: Seq<Light>,
) -> Seq<DrawCommand> {
    object.1.bindings(object.1.forward(), camera) + light_bindings(lights) + seq![
        DrawCommand::DrawGeometry { geometry: object.0.id },
    ]
}

/// The commands of a forward pass: the forward draw of each object, in the
/// order of the list.
pub open spec fn forward_pass<'a>(
    camera: Camera,
    objects: Seq<(Geometry, Material<'a>)>,
    lights: Seq<Light>,
) -> Seq<DrawCommand>
    decreases objects.len(),
{
    if objects.len() == 0 {
        Seq::empty()
    } else {
        forward_pass(camera, objects.drop_last(), lights) + forward_draw(
            camera,
            objects.last(),
            lights,
        )
    }
}

/// The renderer that shades each object in the pass that draws it.
pub struct ForwardPipeline {}

impl ForwardPipeline {
    /// A forward pipeline. It keeps nothing between frames.
    pub fn new() -> (pipeline: ForwardPipeline)
        ensures
            pipeline == (ForwardPipeline {  }),
    {
        ForwardPipeline {  }
    }

    /// The draw commands of one forward pass, to be handed to the write of
    /// the target that the pass goes to: one draw per pair of geometry and
    /// material, in the order of the list, each with the camera, the program
    /// and textures of its material, and every light with its shadow map.
    ///
    /// Nothing is sorted or batched.
    pub fn render_pass(
        &self,
        camera: &Camera,
        objects: &Vec<(Geometry, Material<'_>)>,
        lights: &Vec<Light>,
    ) -> (draws: Vec<DrawCommand>)
        ensures
            draws@ == forward_pass(*camera, objects@, lights@),
    {
        let mut draws: Vec<DrawCommand> = Vec::new();
        let mut i: usize = 0;
        while i < objects.len()
            invariant
                i <= objects.len(),
                draws@ == forward_pass(*camera, objects@.take(i as int), lights@),
            decreases objects.len() - i,
        {
            proof {
                assert(objects@.take(i + 1).drop_last() == objects@.take(i as int));
                assert(objects@.take(i + 1).last() == objects@[i as int]);
            }
            let ghost before = draws@;
            let material = &objects[i].1;
            material.bind(material.forward_program(), camera, &mut draws);
            bind_lights(lights, &mut draws);
            draws.push(DrawCommand::DrawGeometry { geometry: objects[i].0.id });
            assert(draws@ =~= before + forward_draw(*camera, objects@[i as int], lights@));
            i = i + 1;
        }
        proof {
            assert(objects@.take(i as int) == objects@);
        }
        draws
    }
}

} // verus!
