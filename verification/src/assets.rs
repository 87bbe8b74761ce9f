use vstd::prelude::*;

use crate::handles::VertexBuffer;

verus! {

/// A mesh asset, reduced to what drawing reads from it: the vertex buffer
/// handle holding its geometry on the backend.
#[derive(Clone, Copy, Debug)]
pub struct Mesh {
    /// The geometry uploaded for this mesh.
    pub vertex_buffer: VertexBuffer,
}

impl Default for Mesh {
    /// A mesh whose geometry has not been uploaded yet.
    fn default() -> (m: Self)
        ensures
            !m.vertex_buffer.spec_loaded(),
    {
        Mesh { vertex_buffer: VertexBuffer::default() }
    }
}

/// A texture asset: raw image payload waiting to be uploaded into a
/// texture buffer.
#[derive(Clone, Debug)]
pub struct Texture {
    /// Image width in texels.
    pub width: u32,
    /// Image height in texels.
    pub height: u32,
    /// Raw image bytes.
    pub data: Vec<u8>,
}

impl Default for Texture {
    /// An empty texture asset.
    fn default() -> (t: Self)
        ensures
            t.width == 0,
            t.height == 0,
            t.data@.len() == 0,
    {
        Texture { width: 0, height: 0, data: Vec::new() }
    }
}

} // verus!
