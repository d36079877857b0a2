use vstd::prelude::*;

use crate::context::Context;
use crate::error::GpuError;

verus! {

/// Memory local to the device.
pub const DEVICE_LOCAL: u16 = 0x1;

/// Memory the host can map and write.
pub const CPU_VISIBLE: u16 = 0x2;

/// Memory coherent between host and device.
pub const COHERENT: u16 = 0x4;

/// Memory cached on the host.
pub const CPU_CACHED: u16 = 0x8;

/// Memory that may be allocated lazily and is never visible to the host.
pub const LAZILY_ALLOCATED: u16 = 0x10;

/// Every flag of `wanted` is among the flags of `have`.
pub open spec fn contains_flags(have: u16, wanted: u16) -> bool {
    have & wanted == wanted
}

/// Memory type `id` is allowed by a resource's type mask.
pub open spec fn type_allowed(type_mask: u64, id: int) -> bool {
    0 <= id < 64 && (type_mask >> (id as u64)) & 1u64 == 1u64
}

/// Memory type `id` of `types` can back a resource with this mask and these properties.
pub open spec fn type_suitable(types: Seq<u16>, type_mask: u64, desired: u16, id: int) -> bool {
    &&& 0 <= id < types.len()
    &&& type_allowed(type_mask, id)
    &&& contains_flags(types[id], desired)
}

/// Some memory type of `types` can back such a resource.
pub open spec fn some_type_suitable(types: Seq<u16>, type_mask: u64, desired: u16) -> bool {
    exists|id: int| type_suitable(types, type_mask, desired, id)
}

/// Whether the property flags `have` include all of `wanted`.
pub fn has_properties(have: u16, wanted: u16) -> (r: bool)
    ensures
        r == contains_flags(have, wanted),
{
    have & wanted == wanted
}

/// The lowest-indexed memory type that the type mask allows and whose
/// property flags include `desired`.
pub fn find_memory_type(types: &Vec<u16>, type_mask: u64, desired: u16) -> (r: Result<usize, GpuError>)
    ensures
        match r {
            Ok(id) => {
                &&& type_suitable(types@, type_mask, desired, id as int)
                &&& forall|j: int| 0 <= j < id ==> !type_suitable(types@, type_mask, desired, j)
            },
            Err(e) => {
                &&& e == GpuError::NoCompatibleMemoryType
                &&& !some_type_suitable(types@, type_mask, desired)
            },
        },
{
    let mut id: usize = 0;
    while id < types.len()
        invariant
            id <= types.len(),
            forall|j: int| 0 <= j < id ==> !type_suitable(types@, type_mask, desired, j),
        decreases types.len() - id,
    {
        if id < 64 && (type_mask >> (id as u64)) & 1u64 == 1u64 && has_properties(types[id], desired) {
            return Ok(id);
        }
        id = id + 1;
    }
    Err(GpuError::NoCompatibleMemoryType)
}

/// Memory requirements that the device reports for a buffer or an image.
#[derive(Clone, Copy, Debug, PartialEq, Eq, Structural)]
pub struct Requirements {
    /// Size in bytes of the memory the resource needs.
    pub size: u64,
    /// Alignment in bytes of that memory.
    pub alignment: u64,
    /// Bit `i` is set when memory type `i` can back the resource.
    pub type_mask: u64,
}

/// A block of device memory of a chosen type, sized by the requirements it serves.
#[derive(Clone, Copy, Debug, PartialEq, Eq, Structural)]
pub struct Chunk {
    requirements: Requirements,
    properties: u16,
    memory_type: usize,
}

impl Chunk {
    /// The memory type a chunk of this context may use.
    pub open spec fn valid_for(&self, context: &Context) -> bool {
        &&& type_suitable(
            context.spec_memory_types()@,
            self.spec_requirements().type_mask,
            self.spec_properties(),
            self.spec_memory_type() as int,
        )
        &&& forall|j: int|
            0 <= j < self.spec_memory_type() ==> !type_suitable(
                context.spec_memory_types()@,
                self.spec_requirements().type_mask,
                self.spec_properties(),
                j,
            )
    }

    pub closed spec fn spec_requirements(&self) -> Requirements {
        self.requirements
    }

    pub closed spec fn spec_properties(&self) -> u16 {
        self.properties
    }

    pub closed spec fn spec_memory_type(&self) -> usize {
        self.memory_type
    }

    /// Chooses the memory type of a chunk: the lowest-indexed type of the
    /// context's adapter that the requirements allow and whose flags include
    /// `properties`.
    pub fn new(context: &Context, requirements: Requirements, properties: u16) -> (r: Result<Chunk, GpuError>)
        ensures
            match r {
                Ok(chunk) => {
                    &&& chunk.spec_requirements() == requirements
                    &&& chunk.spec_properties() == properties
                    &&& chunk.valid_for(context)
                },
                Err(e) => {
                    &&& e == GpuError::NoCompatibleMemoryType
                    &&& !some_type_suitable(context.spec_memory_types()@, requirements.type_mask, properties)
                },
            },
    {
        let id = find_memory_type(context.memory_types(), requirements.type_mask, properties)?;
        Ok(Chunk { requirements, properties, memory_type: id })
    }

    /// The requirements the chunk was allocated for.
    pub fn requirements(&self) -> (r: Requirements)
        ensures
            r == self.spec_requirements(),
    {
        self.requirements
    }

    /// The property flags the chunk was asked to have.
    pub fn properties(&self) -> (r: u16)
        ensures
            r == self.spec_properties(),
    {
        self.properties
    }

    /// The index of the memory type the chunk is allocated from.
    pub fn memory_type(&self) -> (r: usize)
        ensures
            r == self.spec_memory_type(),
    {
        self.memory_type
    }

    /// The number of bytes allocated: the size the requirements report.
    pub fn size(&self) -> (r: u64)
        ensures
            r == self.spec_requirements().size,
    {
        self.requirements.size
    }
}

/// A host-visible buffer used to stage uploads, backed by a chunk of
/// CPU-visible memory bound at offset 0.
#[derive(Clone, Copy, Debug, PartialEq, Eq, Structural)]
pub struct Buffer {
    size: usize,
    chunk: Chunk,
}

impl Buffer {
    pub closed spec fn spec_size(&self) -> usize {
        self.size
    }

    pub closed spec fn spec_chunk(&self) -> Chunk {
        self.chunk
    }

    /// Chooses the backing memory of a buffer of `size` bytes for which the
    /// device reported `requirements`: a chunk of CPU-visible memory. Reported
    /// requirements smaller than the buffer cannot back it and are refused.
    pub fn new(context: &Context, size: usize, requirements: Requirements) -> (r: Result<Buffer, GpuError>)
        ensures
            match r {
                Ok(b) => {
                    &&& b.spec_size() == size
                    &&& b.spec_chunk().spec_requirements() == requirements
                    &&& b.spec_chunk().spec_properties() == CPU_VISIBLE
                    &&& b.spec_chunk().valid_for(context)
                    &&& b.spec_chunk().spec_requirements().size >= size
                },
                Err(e) => {
                    ||| (e == GpuError::ResourceCreationFailed && requirements.size < size)
                    ||| (e == GpuError::NoCompatibleMemoryType && requirements.size >= size
                        && !some_type_suitable(context.spec_memory_types()@, requirements.type_mask, CPU_VISIBLE))
                },
            },
    {
        if requirements.size < size as u64 {
            return Err(GpuError::ResourceCreationFailed);
        }
        let chunk = Chunk::new(context, requirements, CPU_VISIBLE)?;
        Ok(Buffer { size, chunk })
    }

    /// The size in bytes the buffer was created with.
    pub fn size(&self) -> (r: usize)
        ensures
            r == self.spec_size(),
    {
        self.size
    }

    /// The chunk backing the buffer.
    pub fn chunk(&self) -> (r: Chunk)
        ensures
            r == self.spec_chunk(),
    {
        self.chunk
    }

    /// The byte range of the chunk that a write maps: all of it.
    pub fn mapping_range(&self) -> (r: (u64, u64))
        ensures
            r == (0u64, self.spec_chunk().spec_requirements().size),
    {
        (0, self.chunk.size())
    }

    /// The outcome of a scoped write into the mapped memory. The mapping is
    /// released whatever the writer did once it was acquired; a mapping that
    /// could not be acquired, or not released, fails the write.
    pub fn write(&self, acquired: bool, released: bool) -> (r: Result<(), GpuError>)
        ensures
            r == if !acquired {
                Err(GpuError::MappingAcquireFailed)
            } else if !released {
                Err(GpuError::MappingReleaseFailed)
            } else {
                Ok(())
            },
    {
        if !acquired {
            Err(GpuError::MappingAcquireFailed)
        } else if !released {
            Err(GpuError::MappingReleaseFailed)
        } else {
            Ok(())
        }
    }
}

} // verus!
