use vstd::prelude::*;

verus! {

/// A vertex attribute format the backend understands.
#[derive(Clone, Copy, Debug, PartialEq, Eq, Structural)]
pub enum AttributeFormat {
    /// One 32-bit float lane.
    Float32,
    /// Two 32-bit float lanes.
    Float32x2,
    /// Three 32-bit float lanes.
    Float32x3,
    /// Four 32-bit float lanes.
    Float32x4,
    /// Two 16-bit unsigned integer lanes.
    Uint16x2,
    /// Four 16-bit unsigned integer lanes.
    Uint16x4,
    /// One 32-bit unsigned integer lane.
    Uint32,
    /// Two 32-bit unsigned integer lanes.
    Uint32x2,
    /// Three 32-bit unsigned integer lanes.
    Uint32x3,
    /// Four 32-bit unsigned integer lanes.
    Uint32x4,
}

/// The scalar type one attribute lane holds.
#[derive(Clone, Copy, Debug, PartialEq, Eq, Structural)]
pub enum AttributeScalar {
    /// A 32-bit float lane.
    Float32,
    /// A 16-bit unsigned integer lane.
    Uint16,
    /// A 32-bit unsigned integer lane.
    Uint32,
}

/// The identity of an attribute's element type: its scalar and how many
/// lanes of it the attribute packs.
#[derive(Clone, Copy, Debug, PartialEq, Eq, Structural)]
pub struct AttributeTypeId {
    /// The scalar type of each lane.
    pub scalar: AttributeScalar,
    /// The number of lanes.
    pub lanes: u32,
}

/// The size of one scalar lane in bytes.
pub open spec fn scalar_size(scalar: AttributeScalar) -> usize {
    match scalar {
        AttributeScalar::Float32 => 4,
        AttributeScalar::Uint16 => 2,
        AttributeScalar::Uint32 => 4,
    }
}

impl AttributeFormat {
    /// The attribute's size in bytes.
    pub open spec fn spec_size(&self) -> usize {
        match self {
            AttributeFormat::Float32 => 4,
            AttributeFormat::Float32x2 => 8,
            AttributeFormat::Float32x3 => 12,
            AttributeFormat::Float32x4 => 16,
            AttributeFormat::Uint16x2 => 4,
            AttributeFormat::Uint16x4 => 8,
            AttributeFormat::Uint32 => 4,
            AttributeFormat::Uint32x2 => 8,
            AttributeFormat::Uint32x3 => 12,
            AttributeFormat::Uint32x4 => 16,
        }
    }

    /// The identity of the attribute's element type.
    pub open spec fn spec_type_id(&self) -> AttributeTypeId {
        match self {
            AttributeFormat::Float32 => AttributeTypeId {
                scalar: AttributeScalar::Float32,
                lanes: 1,
            },
            AttributeFormat::Float32x2 => AttributeTypeId {
                scalar: AttributeScalar::Float32,
                lanes: 2,
            },
            AttributeFormat::Float32x3 => AttributeTypeId {
                scalar: AttributeScalar::Float32,
                lanes: 3,
            },
            AttributeFormat::Float32x4 => AttributeTypeId {
                scalar: AttributeScalar::Float32,
                lanes: 4,
            },
            AttributeFormat::Uint16x2 => AttributeTypeId {
                scalar: AttributeScalar::Uint16,
                lanes: 2,
            },
            AttributeFormat::Uint16x4 => AttributeTypeId {
                scalar: AttributeScalar::Uint16,
                lanes: 4,
            },
            AttributeFormat::Uint32 => AttributeTypeId {
                scalar: AttributeScalar::Uint32,
                lanes: 1,
            },
            AttributeFormat::Uint32x2 => AttributeTypeId {
                scalar: AttributeScalar::Uint32,
                lanes: 2,
            },
            AttributeFormat::Uint32x3 => AttributeTypeId {
                scalar: AttributeScalar::Uint32,
                lanes: 3,
            },
            AttributeFormat::Uint32x4 => AttributeTypeId {
                scalar: AttributeScalar::Uint32,
                lanes: 4,
            },
        }
    }

    /// Returns the attribute's size in bytes.
    pub fn size(&self) -> (r: usize)
        ensures
            r == self.spec_size(),
    {
        match self {
            AttributeFormat::Float32 => 4,
            AttributeFormat::Float32x2 => 4 * 2,
            AttributeFormat::Float32x3 => 4 * 3,
            AttributeFormat::Float32x4 => 4 * 4,
            AttributeFormat::Uint16x2 => 2 * 2,
            AttributeFormat::Uint16x4 => 2 * 4,
            AttributeFormat::Uint32 => 4,
            AttributeFormat::Uint32x2 => 4 * 2,
            AttributeFormat::Uint32x3 => 4 * 3,
            AttributeFormat::Uint32x4 => 4 * 4,
        }
    }

    /// Returns the identity of the attribute's element type.
    pub fn type_id(&self) -> (t: AttributeTypeId)
        ensures
            t == self.spec_type_id(),
    {
        match self {
            AttributeFormat::Float32 => AttributeTypeId {
                scalar: AttributeScalar::Float32,
                lanes: 1,
            },
            AttributeFormat::Float32x2 => AttributeTypeId {
                scalar: AttributeScalar::Float32,
                lanes: 2,
            },
            AttributeFormat::Float32x3 => AttributeTypeId {
                scalar: AttributeScalar::Float32,
                lanes: 3,
            },
            AttributeFormat::Float32x4 => AttributeTypeId {
                scalar: AttributeScalar::Float32,
                lanes: 4,
            },
            AttributeFormat::Uint16x2 => AttributeTypeId {
                scalar: AttributeScalar::Uint16,
                lanes: 2,
            },
            AttributeFormat::Uint16x4 => AttributeTypeId {
                scalar: AttributeScalar::Uint16,
                lanes: 4,
            },
            AttributeFormat::Uint32 => AttributeTypeId {
                scalar: AttributeScalar::Uint32,
                lanes: 1,
            },
            AttributeFormat::Uint32x2 => AttributeTypeId {
                scalar: AttributeScalar::Uint32,
                lanes: 2,
            },
            AttributeFormat::Uint32x3 => AttributeTypeId {
                scalar: AttributeScalar::Uint32,
                lanes: 3,
            },
            AttributeFormat::Uint32x4 => AttributeTypeId {
                scalar: AttributeScalar::Uint32,
                lanes: 4,
            },
        }
    }
}

/// An attribute's size is its lane count times its lane scalar's size.
pub proof fn lemma_size_from_type(format: AttributeFormat)
    ensures
        format.spec_size() == format.spec_type_id().lanes * scalar_size(
            format.spec_type_id().scalar,
        ),
{
}

} // verus!
