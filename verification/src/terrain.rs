use vstd::prelude::*;

use crate::assets::Mesh;
use crate::ids::Id;

verus! {

/// A pair of coordinates on the horizontal plane.
#[derive(Clone, Copy, Debug)]
pub struct VecXZ<T> {
    /// Position along the x axis.
    pub x: T,
    /// Position along the z axis.
    pub z: T,
}

/// A terrain tile: its position and scale on the horizontal plane, the
/// identity of its mesh, and whether that mesh was loaded to the GPU.
#[derive(Clone, Copy, Debug)]
pub struct Terrain {
    /// The tile's position.
    pub position: VecXZ<i32>,
    /// The tile's scale.
    pub scale: u32,
    /// Identity of the tile's mesh.
    pub mesh: Id<Mesh>,
    /// True if the mesh was loaded to the GPU.
    pub loaded: bool,
}

impl Terrain {
    /// A tile at the given position and scale, not yet loaded.
    pub fn new(position: VecXZ<i32>, scale: u32, mesh: Id<Mesh>) -> (t: Self)
        ensures
            t.position == position,
            t.scale == scale,
            t.mesh == mesh,
            !t.loaded,
    {
        Terrain { position, scale, mesh, loaded: false }
    }
}

} // verus!
