use vstd::prelude::*;

verus! {

/// The geometry of an object, as it lies in the buffers of the GPU.
///
/// The library neither builds nor reads meshes: it refers to each by the
/// handle under which the owner of the mesh data uploaded it.
#[derive(Clone, Copy, Debug, PartialEq, Eq, Structural)]
pub struct Geometry {
    pub id: u32,
}

/// A camera, as it lies in the buffers of the GPU: the handle of its view
/// and projection.
#[derive(Clone, Copy, Debug, PartialEq, Eq, Structural)]
pub struct Camera {
    pub id: u32,
}

} // verus!
