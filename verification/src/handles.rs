use vstd::prelude::*;
use vstd::string::StrSliceExecFns;

verus! {

/// Usage flags requested for a texture allocation, built up fluently.
#[derive(Clone, Copy, Debug, PartialEq, Eq, Structural)]
pub struct TextureUsages {
    /// The texture can be written to from the host.
    pub write: bool,
    /// The texture can be read back to the host.
    pub read: bool,
    /// The texture can be bound for sampling.
    pub texture: bool,
    /// The texture can be bound as a storage texture.
    pub storage: bool,
    /// The texture can be used as a render attachment.
    pub attachment: bool,
}

impl TextureUsages {
    /// Starts from no usage at all.
    pub fn create() -> (u: Self)
        ensures
            u == (TextureUsages {
                write: false,
                read: false,
                texture: false,
                storage: false,
                attachment: false,
            }),
    {
        TextureUsages { write: false, read: false, texture: false, storage: false, attachment: false }
    }

    /// Allows host writes.
    pub fn write(self) -> (u: Self)
        ensures
            u == (TextureUsages { write: true, ..self }),
    {
        TextureUsages { write: true, ..self }
    }

    /// Allows host reads.
    pub fn read(self) -> (u: Self)
        ensures
            u == (TextureUsages { read: true, ..self }),
    {
        TextureUsages { read: true, ..self }
    }

    /// Allows binding for sampling.
    pub fn texture(self) -> (u: Self)
        ensures
            u == (TextureUsages { texture: true, ..self }),
    {
        TextureUsages { texture: true, ..self }
    }

    /// Allows binding as a storage texture.
    pub fn storage(self) -> (u: Self)
        ensures
            u == (TextureUsages { storage: true, ..self }),
    {
        TextureUsages { storage: true, ..self }
    }

    /// Allows use as a render attachment.
    pub fn attachment(self) -> (u: Self)
        ensures
            u == (TextureUsages { attachment: true, ..self }),
    {
        TextureUsages { attachment: true, ..self }
    }
}

/// The backend-side state of a vertex buffer upload.
#[derive(Clone, Copy, Debug, PartialEq, Eq, Structural)]
pub struct VertexAlloc {
    /// Bytes of attribute data uploaded.
    pub attributes_len: usize,
    /// Number of vertices to draw.
    pub vertices_count: u32,
    /// Whether an index buffer was uploaded beside the attributes.
    pub indexed: bool,
}

/// A vertex buffer handle: it owns an optional backend-side allocation and
/// is loaded exactly when that allocation exists. Loading always re-uploads,
/// replacing any prior allocation.
#[derive(Clone, Copy, Debug, PartialEq)]
pub struct VertexBuffer {
    resource: Option<VertexAlloc>,
}

impl VertexBuffer {
    /// Whether a backend allocation exists.
    pub closed spec fn spec_loaded(&self) -> bool {
        self.resource is Some
    }

    /// The allocation's state; meaningful only when loaded.
    pub closed spec fn spec_alloc(&self) -> VertexAlloc {
        self.resource->0
    }

    /// Reports whether the buffer has been uploaded.
    pub fn loaded(&self) -> (r: bool)
        ensures
            r == self.spec_loaded(),
    {
        self.resource.is_some()
    }

    /// The number of vertices of the last upload, zero before any.
    pub fn count(&self) -> (r: u32)
        ensures
            r == if self.spec_loaded() { self.spec_alloc().vertices_count } else { 0u32 },
    {
        match &self.resource {
            Some(alloc) => alloc.vertices_count,
            None => 0,
        }
    }

    /// Uploads attribute data, an optional index buffer and the vertex
    /// count, replacing any prior backend allocation.
    pub fn load(&mut self, attributes: &[u8], indices: Option<&[u8]>, count: u32)
        ensures
            final(self).spec_loaded(),
            final(self).spec_alloc() == (VertexAlloc {
                attributes_len: attributes@.len() as usize,
                vertices_count: count,
                indexed: indices is Some,
            }),
    {
        self.resource = Some(VertexAlloc {
            attributes_len: attributes.len(),
            vertices_count: count,
            indexed: indices.is_some(),
        });
    }
}

impl Default for VertexBuffer {
    /// A handle with no backend allocation yet.
    fn default() -> (r: Self)
        ensures
            !r.spec_loaded(),
    {
        VertexBuffer { resource: None }
    }
}

/// The backend-side state of a texture upload.
#[derive(Clone, Copy, Debug, PartialEq, Eq, Structural)]
pub struct TextureAlloc {
    /// Texture width in texels.
    pub width: u32,
    /// Texture height in texels.
    pub height: u32,
    /// Number of layers uploaded.
    pub layers: usize,
    /// The usages the allocation was made with.
    pub usages: TextureUsages,
}

/// A texture buffer handle; loaded exactly when a backend allocation exists.
#[derive(Clone, Copy, Debug, PartialEq)]
pub struct TextureBuffer {
    resource: Option<TextureAlloc>,
}

impl TextureBuffer {
    /// Whether a backend allocation exists.
    pub closed spec fn spec_loaded(&self) -> bool {
        self.resource is Some
    }

    /// The allocation's state; meaningful only when loaded.
    pub closed spec fn spec_alloc(&self) -> TextureAlloc {
        self.resource->0
    }

    /// Reports whether the texture has been uploaded.
    pub fn loaded(&self) -> (r: bool)
        ensures
            r == self.spec_loaded(),
    {
        self.resource.is_some()
    }

    /// The allocation's recorded state, with zero extents before any upload.
    pub fn allocation(&self) -> (r: TextureAlloc)
        ensures
            r == if self.spec_loaded() {
                self.spec_alloc()
            } else {
                TextureAlloc {
                    width: 0,
                    height: 0,
                    layers: 0,
                    usages: TextureUsages {
                        write: false,
                        read: false,
                        texture: false,
                        storage: false,
                        attachment: false,
                    },
                }
            },
    {
        match &self.resource {
            Some(alloc) => *alloc,
            None => TextureAlloc { width: 0, height: 0, layers: 0, usages: TextureUsages::create() },
        }
    }

    /// Uploads the given layers at the given extent, replacing any prior
    /// backend allocation.
    pub fn load(&mut self, width: u32, height: u32, layers: &[&[u8]], usages: TextureUsages)
        ensures
            final(self).spec_loaded(),
            final(self).spec_alloc() == (TextureAlloc {
                width,
                height,
                layers: layers@.len() as usize,
                usages,
            }),
    {
        self.resource = Some(TextureAlloc { width, height, layers: layers.len(), usages });
    }
}

impl Default for TextureBuffer {
    /// A handle with no backend allocation yet.
    fn default() -> (r: Self)
        ensures
            !r.spec_loaded(),
    {
        TextureBuffer { resource: None }
    }
}

/// A uniform buffer handle; the model keeps the size of the last upload.
#[derive(Clone, Copy, Debug, PartialEq)]
pub struct UniformBuffer {
    resource: Option<usize>,
}

impl UniformBuffer {
    /// Whether a backend allocation exists.
    pub closed spec fn spec_loaded(&self) -> bool {
        self.resource is Some
    }

    /// Bytes of the last upload; meaningful only when loaded.
    pub closed spec fn spec_size(&self) -> usize {
        self.resource->0
    }

    /// Reports whether the buffer has been uploaded.
    pub fn loaded(&self) -> (r: bool)
        ensures
            r == self.spec_loaded(),
    {
        self.resource.is_some()
    }

    /// Bytes of the last upload, zero before any.
    pub fn size(&self) -> (r: usize)
        ensures
            r == if self.spec_loaded() { self.spec_size() } else { 0usize },
    {
        match &self.resource {
            Some(size) => *size,
            None => 0,
        }
    }

    /// Uploads raw data, replacing any prior backend allocation.
    pub fn load(&mut self, data: &[u8])
        ensures
            final(self).spec_loaded(),
            final(self).spec_size() == data@.len(),
    {
        self.resource = Some(data.len());
    }
}

impl Default for UniformBuffer {
    /// A handle with no backend allocation yet.
    fn default() -> (r: Self)
        ensures
            !r.spec_loaded(),
    {
        UniformBuffer { resource: None }
    }
}

/// A storage buffer handle; the model keeps the size of the last upload.
#[derive(Clone, Copy, Debug, PartialEq)]
pub struct StorageBuffer {
    resource: Option<usize>,
}

impl StorageBuffer {
    /// Whether a backend allocation exists.
    pub closed spec fn spec_loaded(&self) -> bool {
        self.resource is Some
    }

    /// Bytes of the last upload; meaningful only when loaded.
    pub closed spec fn spec_size(&self) -> usize {
        self.resource->0
    }

    /// Reports whether the buffer has been uploaded.
    pub fn loaded(&self) -> (r: bool)
        ensures
            r == self.spec_loaded(),
    {
        self.resource.is_some()
    }

    /// Bytes of the last upload, zero before any.
    pub fn size(&self) -> (r: usize)
        ensures
            r == if self.spec_loaded() { self.spec_size() } else { 0usize },
    {
        match &self.resource {
            Some(size) => *size,
            None => 0,
        }
    }

    /// Uploads raw data, replacing any prior backend allocation.
    pub fn load(&mut self, data: &[u8])
        ensures
            final(self).spec_loaded(),
            final(self).spec_size() == data@.len(),
    {
        self.resource = Some(data.len());
    }
}

impl Default for StorageBuffer {
    /// A handle with no backend allocation yet.
    fn default() -> (r: Self)
        ensures
            !r.spec_loaded(),
    {
        StorageBuffer { resource: None }
    }
}

/// A texture sampler handle.
#[derive(Clone, Copy, Debug, PartialEq)]
pub struct Sampler {
    loaded: bool,
}

impl Sampler {
    /// Whether the sampler exists on the backend.
    pub closed spec fn spec_loaded(&self) -> bool {
        self.loaded
    }

    /// Reports whether the sampler has been created.
    pub fn loaded(&self) -> (r: bool)
        ensures
            r == self.spec_loaded(),
    {
        self.loaded
    }

    /// Creates the sampler on the backend, replacing any prior one.
    pub fn load(&mut self)
        ensures
            final(self).spec_loaded(),
    {
        self.loaded = true;
    }
}

impl Default for Sampler {
    /// A handle with no backend sampler yet.
    fn default() -> (r: Self)
        ensures
            !r.spec_loaded(),
    {
        Sampler { loaded: false }
    }
}

/// A shader module handle. The model backend validates a source when it is
/// uploaded: any source with at least one character compiles, an empty
/// source fails validation and leaves the module unloaded.
#[derive(Clone, Copy, Debug, PartialEq)]
pub struct ShaderModule {
    loaded: bool,
}

impl ShaderModule {
    /// Whether the module compiled successfully on the backend.
    pub closed spec fn spec_loaded(&self) -> bool {
        self.loaded
    }

    /// Reports whether the module compiled successfully.
    pub fn loaded(&self) -> (r: bool)
        ensures
            r == self.spec_loaded(),
    {
        self.loaded
    }

    /// Uploads and compiles the named source; the module ends loaded exactly
    /// when the source is non-empty.
    pub fn load(&mut self, name: &str, code: &str)
        ensures
            final(self).spec_loaded() == (code@.len() > 0),
    {
        let _ = name;
        self.loaded = code.unicode_len() > 0;
    }
}

impl Default for ShaderModule {
    /// A handle whose module has not been compiled yet.
    fn default() -> (r: Self)
        ensures
            !r.spec_loaded(),
    {
        ShaderModule { loaded: false }
    }
}

/// A three-dimensional compute work-group count.
#[derive(Clone, Copy, Debug, PartialEq, Eq, Structural)]
pub struct WorkGroups {
    /// Work groups along the x axis.
    pub x: u32,
    /// Work groups along the y axis.
    pub y: u32,
    /// Work groups along the z axis.
    pub z: u32,
}

} // verus!
