use vstd::prelude::*;

use crate::error::GpuError;

verus! {

/// What a queue family of an adapter offers.
#[derive(Clone, Copy, Debug, PartialEq, Eq, Structural)]
pub struct QueueFamilyInfo {
    /// The family's identifier on its adapter.
    pub id: usize,
    /// The family's queues run graphics operations.
    pub supports_graphics: bool,
    /// The family's queues can present to the window's surface.
    pub supports_present: bool,
}

/// What the library reads of a physical adapter.
#[derive(Clone, Debug)]
pub struct AdapterInfo {
    /// The adapter's queue families, in the order the driver lists them.
    pub queue_families: Vec<QueueFamilyInfo>,
    /// The property flags of each memory type, indexed by memory type id.
    pub memory_types: Vec<u16>,
    /// The alignment in bytes that rows of a buffer-to-image copy must keep.
    pub min_buffer_copy_pitch_alignment: u64,
}

/// The number of queues requested from the chosen queue family.
pub const QUEUES_REQUESTED: usize = 1;

/// A queue family can draw and present.
pub open spec fn family_suitable(f: QueueFamilyInfo) -> bool {
    f.supports_graphics && f.supports_present
}

/// Some queue family of the adapter can draw and present.
pub open spec fn adapter_suitable(a: AdapterInfo) -> bool {
    exists|i: int| 0 <= i < a.queue_families@.len() && family_suitable(a.queue_families@[i])
}

/// Adapter `a` is the first that can draw and present, and `f` the first
/// such queue family on it.
pub open spec fn first_suitable(adapters: Seq<AdapterInfo>, a: int, f: int) -> bool {
    &&& 0 <= a < adapters.len()
    &&& 0 <= f < adapters[a].queue_families@.len()
    &&& family_suitable(adapters[a].queue_families@[f])
    &&& forall|j: int| 0 <= j < f ==> !family_suitable(adapters[a].queue_families@[j])
    &&& forall|k: int| 0 <= k < a ==> !adapter_suitable(adapters[k])
}

/// No adapter can draw and present.
pub open spec fn none_suitable(adapters: Seq<AdapterInfo>) -> bool {
    forall|k: int| 0 <= k < adapters.len() ==> !adapter_suitable(adapters[k])
}

/// The index of the first queue family of `a` that can draw and present.
pub fn first_suitable_family(a: &AdapterInfo) -> (r: Option<usize>)
    ensures
        match r {
            Some(i) => {
                &&& i < a.queue_families@.len()
                &&& family_suitable(a.queue_families@[i as int])
                &&& forall|j: int| 0 <= j < i ==> !family_suitable(a.queue_families@[j])
            },
            None => !adapter_suitable(*a),
        },
{
    let mut i: usize = 0;
    while i < a.queue_families.len()
        invariant
            i <= a.queue_families@.len(),
            forall|j: int| 0 <= j < i ==> !family_suitable(a.queue_families@[j]),
        decreases a.queue_families@.len() - i,
    {
        let f = a.queue_families[i];
        if f.supports_graphics && f.supports_present {
            return Some(i);
        }
        i = i + 1;
    }
    None
}

/// Picks the first adapter that has a queue family able to draw and present
/// to the surface, and the first such family on it.
pub fn select_adapter(adapters: &Vec<AdapterInfo>) -> (r: Result<(usize, usize), GpuError>)
    ensures
        match r {
            Ok((a, f)) => first_suitable(adapters@, a as int, f as int),
            Err(e) => e == GpuError::AdapterSelectionFailed && none_suitable(adapters@),
        },
{
    let mut k: usize = 0;
    while k < adapters.len()
        invariant
            k <= adapters@.len(),
            forall|j: int| 0 <= j < k ==> !adapter_suitable(adapters@[j]),
        decreases adapters@.len() - k,
    {
        match first_suitable_family(&adapters[k]) {
            Some(f) => {
                return Ok((k, f));
            },
            None => {},
        }
        k = k + 1;
    }
    Err(GpuError::AdapterSelectionFailed)
}

/// The device context: the chosen adapter, its graphics queue family, and
/// the number of queues the opened device handed out.
#[derive(Clone, Debug)]
pub struct Context {
    adapter: AdapterInfo,
    adapter_index: usize,
    queue_family: usize,
    queue_count: usize,
}

impl Context {
    pub closed spec fn spec_adapter(&self) -> AdapterInfo {
        self.adapter
    }

    pub closed spec fn spec_adapter_index(&self) -> usize {
        self.adapter_index
    }

    pub closed spec fn spec_queue_family(&self) -> usize {
        self.queue_family
    }

    pub closed spec fn spec_queue_count(&self) -> usize {
        self.queue_count
    }

    pub open spec fn spec_memory_types(&self) -> Vec<u16> {
        self.spec_adapter().memory_types
    }

    /// The chosen family can draw and present, and holds at least one queue.
    pub open spec fn wf(&self) -> bool {
        &&& self.spec_queue_family() < self.spec_adapter().queue_families@.len()
        &&& family_suitable(self.spec_adapter().queue_families@[self.spec_queue_family() as int])
        &&& self.spec_queue_count() > 0
    }

    /// Builds the context on the adapters the instance enumerated: the
    /// adapter and queue family are those `select_adapter` picks, on which the
    /// caller opened the device; `opened_queues` is the number of queues the
    /// opened device gave for that family, or `None` when opening failed.
    pub fn new(adapters: Vec<AdapterInfo>, opened_queues: Option<usize>) -> (r: Result<Context, GpuError>)
        ensures
            match r {
                Ok(c) => {
                    &&& c.wf()
                    &&& first_suitable(adapters@, c.spec_adapter_index() as int, c.spec_queue_family() as int)
                    &&& c.spec_adapter() == adapters@[c.spec_adapter_index() as int]
                    &&& opened_queues == Some(c.spec_queue_count())
                },
                Err(e) => {
                    ||| (e == GpuError::AdapterSelectionFailed && none_suitable(adapters@))
                    ||| (e == GpuError::DeviceOpenFailed && !none_suitable(adapters@)
                        && (opened_queues is None || opened_queues == Some(0usize)))
                },
            },
    {
        let (a, f) = select_adapter(&adapters)?;
        let n = match opened_queues {
            Some(n) => n,
            None => {
                return Err(GpuError::DeviceOpenFailed);
            },
        };
        if n == 0 {
            return Err(GpuError::DeviceOpenFailed);
        }
        let mut adapters = adapters;
        let adapter = adapters.remove(a);
        Ok(Context { adapter, adapter_index: a, queue_family: f, queue_count: n })
    }

    /// The adapter the context was opened on.
    pub fn adapter(&self) -> (r: &AdapterInfo)
        ensures
            *r == self.spec_adapter(),
    {
        &self.adapter
    }

    /// The index of the chosen adapter among those enumerated.
    pub fn adapter_index(&self) -> (r: usize)
        ensures
            r == self.spec_adapter_index(),
    {
        self.adapter_index
    }

    /// The index of the queue family the device was opened on.
    pub fn queue_family(&self) -> (r: usize)
        ensures
            r == self.spec_queue_family(),
    {
        self.queue_family
    }

    /// The number of queues in the graphics queue group.
    pub fn queue_count(&self) -> (r: usize)
        ensures
            r == self.spec_queue_count(),
    {
        self.queue_count
    }

    /// The property flags of the adapter's memory types.
    pub fn memory_types(&self) -> (r: &Vec<u16>)
        ensures
            *r == self.spec_memory_types(),
    {
        &self.adapter.memory_types
    }
}

} // verus!
