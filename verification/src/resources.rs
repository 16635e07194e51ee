//! The resource model shared by the bridge and the scheduler.
//!
//! A `ResourceInstance` is the scheduler's record of one logical GPU
//! resource.  The opaque handle slot of the original interface is modeled
//! explicitly as a tagged value: either the bridge owns the concrete
//! backend object (an index into the bridge's [`BackendArena`]), or the
//! host supplied the object externally (a borrowed view id, e.g. the
//! per-frame swap-chain image), or nothing is attached yet.

use vstd::prelude::*;

use crate::mapping::{BackendFormat, SchedulerFormat};

verus! {

/// The shape class of a resource.  Only two-dimensional images have an
/// allocation strategy in this backend; the other kinds are reported as
/// configuration errors when they reach the materializer.
#[derive(Clone, Copy, Debug, PartialEq, Eq, Structural)]
pub enum ResourceKind {
    Unknown,
    Buffer,
    Image1d,
    Image2d,
    Image3d,
}

/// The immutable shape of a resource, fixed when the scheduler creates
/// the table entry.
#[derive(Clone, Copy, Debug, PartialEq, Eq, Structural)]
pub struct ResourceDescriptor {
    pub kind: ResourceKind,
    pub width: u32,
    pub height: u32,
    pub mip_levels: u32,
    pub sample_count: u32,
    pub array_layers: u32,
    pub temporal_layers: u32,
    pub format: SchedulerFormat,
}

/// The runtime slot of a resource instance: who owns the concrete
/// backend object, if there is one.
#[derive(Clone, Copy, Debug, PartialEq, Eq, Structural)]
pub enum RuntimeHandle {
    /// No backend object is attached.
    Null,
    /// The bridge owns the object; the value indexes the bridge's arena.
    Owned(usize),
    /// The host owns the object; the value identifies an external view
    /// that is only ever read, never created or destroyed, by the bridge.
    Borrowed(u64),
}

/// One entry of the scheduler's resource table.
#[derive(Clone, Copy, Debug, PartialEq, Eq, Structural)]
pub struct ResourceInstance {
    pub desc: ResourceDescriptor,
    /// Union of the access flags over all recorded uses this frame.
    pub all_accesses: u32,
    /// The access the resource must appear in at its first use.
    pub initial_access: u32,
    /// The access the resource was left in by the previous frame.
    pub prev_final_access: u32,
    /// True for resources whose backing object the host supplies per
    /// frame; the bridge must never create or destroy those.
    pub external: bool,
    /// True until the materializer attaches a backend object.
    pub pending_creation: bool,
    pub handle: RuntimeHandle,
    /// Allocation placement chosen by the materializer.
    pub heap_id: u32,
}

impl ResourceInstance {
    /// The per-instance part of the graph contract the scheduler
    /// guarantees: external entries arrive already populated with a
    /// borrowed view and are never pending, and an entry that still
    /// awaits creation has nothing attached yet.
    pub open spec fn wf(self) -> bool {
        &&& self.external ==> !self.pending_creation
        &&& self.external ==> self.handle is Borrowed
        &&& self.pending_creation ==> self.handle is Null
    }
}

/// The concrete description a backend texture is allocated from: the
/// translated shape of a `ResourceDescriptor` plus the usage set derived
/// from the recorded accesses.
#[derive(Clone, Copy, Debug, PartialEq, Eq, Structural)]
pub struct TexturePlan {
    pub width: u32,
    pub height: u32,
    pub mip_levels: u32,
    pub sample_count: u32,
    pub depth_or_array_layers: u32,
    pub format: BackendFormat,
    pub usage: u32,
}

/// One owned backend resource: the plan it was allocated from, and
/// whether it is still alive.  A slot is created exactly once, when it
/// is pushed, and retires at most once; indices are never reused, so a
/// handle can never be re-attached to a recycled object.
#[derive(Clone, Copy, Debug, PartialEq, Eq, Structural)]
pub struct ArenaSlot {
    pub plan: TexturePlan,
    pub live: bool,
}

/// How many times the object in a slot has been created: exactly once,
/// when the slot was allocated.
pub open spec fn spec_slot_creations(s: ArenaSlot) -> int {
    1
}

/// How many times the object in a slot has been destroyed: once if the
/// slot has retired, else not yet.
pub open spec fn spec_slot_destructions(s: ArenaSlot) -> int {
    if s.live {
        0
    } else {
        1
    }
}

/// Lifetime balance: for every owned backend object, the number of
/// creations minus the number of destructions is zero or one — created
/// at most once before being destroyed, never double-created while live.
pub proof fn lemma_creation_destruction_balance(s: ArenaSlot)
    ensures
        0 <= spec_slot_creations(s) - spec_slot_destructions(s) <= 1,
{
}

/// The arena that owns every concrete resource the bridge ever
/// allocates.  `Owned` handles are indices into `slots`.
#[derive(Debug)]
pub struct BackendArena {
    pub slots: Vec<ArenaSlot>,
}

impl BackendArena {
    /// An arena with no resources.
    pub fn new() -> (a: BackendArena)
        ensures
            a.slots@.len() == 0,
    {
        BackendArena { slots: Vec::new() }
    }

    /// Allocates a new live slot for `plan` and returns its index.
    /// Existing slots are never touched, so indices stay stable.
    pub fn allocate(&mut self, plan: TexturePlan) -> (idx: usize)
        ensures
            idx == old(self).slots@.len(),
            final(self).slots@ == old(self).slots@.push(ArenaSlot { plan, live: true }),
    {
        let idx = self.slots.len();
        self.slots.push(ArenaSlot { plan, live: true });
        idx
    }

    /// Retires a live slot.  The plan is kept for diagnostics; only the
    /// liveness changes, and every other slot is untouched.
    pub fn free(&mut self, idx: usize)
        requires
            idx < old(self).slots@.len(),
            old(self).slots@[idx as int].live,
        ensures
            final(self).slots@ == old(self).slots@.update(
                idx as int,
                (ArenaSlot { plan: old(self).slots@[idx as int].plan, live: false }),
            ),
    {
        let plan = self.slots[idx].plan;
        self.slots.set(idx, ArenaSlot { plan, live: false });
    }

    /// Whether `idx` names a slot that is currently alive.
    pub fn is_live(&self, idx: usize) -> (r: bool)
        ensures
            r <==> (idx < self.slots@.len() && self.slots@[idx as int].live),
    {
        idx < self.slots.len() && self.slots[idx].live
    }

    /// The number of slots ever allocated, live or retired.
    pub fn len(&self) -> (n: usize)
        ensures
            n == self.slots@.len(),
    {
        self.slots.len()
    }
}

/// Every handle in the table points at something that exists: owned
/// handles index live arena slots, and each entry obeys its own
/// contract.
pub open spec fn spec_handles_wf(table: Seq<ResourceInstance>, arena: BackendArena) -> bool {
    forall|i: int|
        0 <= i < table.len() ==> {
            &&& #[trigger] table[i].wf()
            &&& (table[i].handle matches RuntimeHandle::Owned(s) ==> s < arena.slots@.len()
                && arena.slots@[s as int].live)
        }
}

/// No two table entries own the same arena slot; destroying one
/// instance can therefore never invalidate another.
pub open spec fn spec_owned_distinct(table: Seq<ResourceInstance>) -> bool {
    forall|i: int, j: int|
        0 <= i < table.len() && 0 <= j < table.len() && i != j && #[trigger] table[i].handle
            is Owned && #[trigger] table[j].handle is Owned ==> table[i].handle->Owned_0
            != table[j].handle->Owned_0
}

/// External resources always carry a borrowed view: the bridge reads
/// them and nothing else.
pub proof fn lemma_external_handle_borrowed(table: Seq<ResourceInstance>, arena: BackendArena, i: int)
    requires
        spec_handles_wf(table, arena),
        0 <= i < table.len(),
        table[i].external,
    ensures
        table[i].handle is Borrowed,
{
    assert(table[i].wf());
}

/// Wraps a host-supplied view (for example the frame's swap-chain
/// image) as an external table entry, populated before the scheduler
/// update so the bridge only ever reads it.
pub fn make_external_instance(desc: ResourceDescriptor, view_id: u64, access: u32) -> (inst:
    ResourceInstance)
    ensures
        inst.desc == desc,
        inst.external,
        !inst.pending_creation,
        inst.handle == RuntimeHandle::Borrowed(view_id),
        inst.all_accesses == access,
        inst.initial_access == access,
        inst.prev_final_access == access,
        inst.wf(),
{
    ResourceInstance {
        desc,
        all_accesses: access,
        initial_access: access,
        prev_final_access: access,
        external: true,
        pending_creation: false,
        handle: RuntimeHandle::Borrowed(view_id),
        heap_id: 0,
    }
}

} // verus!
