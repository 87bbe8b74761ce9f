use vstd::prelude::*;

use crate::assets::{Mesh, Texture};
use crate::ids::Id;

verus! {

/// An overlay widget: a mesh to draw and the identity of the texture to
/// draw it with.
#[derive(Clone, Debug)]
pub struct Widget {
    /// The widget's mesh.
    pub mesh: Mesh,
    /// Identity of the widget's texture.
    pub texture: Id<Texture>,
}

impl Default for Widget {
    /// A widget with an empty mesh and the null texture identity.
    fn default() -> (w: Self)
        ensures
            !w.mesh.vertex_buffer.spec_loaded(),
            w.texture.key() == 0,
    {
        Widget { mesh: Mesh::default(), texture: Id::default() }
    }
}

} // verus!
