//! The resource materializer and the deferred destructor.
//!
//! Once per graph update the scheduler hands the bridge its complete
//! resource table.  Entries that are flagged pending and are not
//! externally owned get a concrete backend texture: the recorded
//! accesses are translated to a usage set, the shape is translated to a
//! backend description, a new arena slot is allocated, and the entry's
//! handle becomes `Owned`.  When the last use of a resource has retired
//! across all in-flight frames the scheduler asks for deferred
//! destruction, which retires the arena slot and nulls the handle —
//! never for externally owned entries.

use vstd::prelude::*;

use crate::errors::BridgeError;
use crate::mapping::{
    map_scheduler_format_to_backend, spec_map_scheduler_format_to_backend, spec_translate_access,
    translate_access,
};
use crate::resources::{
    spec_handles_wf, spec_owned_distinct, ArenaSlot, BackendArena, ResourceInstance, ResourceKind,
    RuntimeHandle, TexturePlan,
};

verus! {

/// Whether the materializer must attach a backend object to this entry:
/// it is flagged pending and the host does not own it.
pub open spec fn spec_needs_creation(inst: ResourceInstance) -> bool {
    !inst.external && inst.pending_creation
}

/// The concrete allocation description for one entry, or the
/// configuration error that makes the entry unallocatable: only
/// two-dimensional images have an allocation strategy here, and the
/// pixel format must be in the translation table.
pub open spec fn spec_plan_texture(inst: ResourceInstance) -> Result<TexturePlan, BridgeError> {
    if !(inst.desc.kind is Image2d) {
        Err(BridgeError::UnsupportedResourceKind)
    } else {
        match spec_map_scheduler_format_to_backend(inst.desc.format) {
            Some(fmt) => Ok(
                TexturePlan {
                    width: inst.desc.width,
                    height: inst.desc.height,
                    mip_levels: inst.desc.mip_levels,
                    sample_count: inst.desc.sample_count,
                    depth_or_array_layers: 1,
                    format: fmt,
                    usage: spec_translate_access(inst.all_accesses),
                },
            ),
            None => Err(BridgeError::UnsupportedFormat),
        }
    }
}

/// Builds the concrete allocation description for one table entry.
pub fn plan_texture(inst: &ResourceInstance) -> (r: Result<TexturePlan, BridgeError>)
    ensures
        r == spec_plan_texture(*inst),
{
    match inst.desc.kind {
        ResourceKind::Image2d => {
            match map_scheduler_format_to_backend(inst.desc.format) {
                Some(fmt) => Ok(
                    TexturePlan {
                        width: inst.desc.width,
                        height: inst.desc.height,
                        mip_levels: inst.desc.mip_levels,
                        sample_count: inst.desc.sample_count,
                        depth_or_array_layers: 1,
                        format: fmt,
                        usage: translate_access(inst.all_accesses),
                    },
                ),
                None => Err(BridgeError::UnsupportedFormat),
            }
        },
        _ => Err(BridgeError::UnsupportedResourceKind),
    }
}

/// The table entry after the materializer attached the arena slot
/// `slot`: the handle is owned, the pending flag is cleared exactly
/// once, the placement is recorded, and the declared initial access is
/// carried forward as the access the resource was last left in.
pub open spec fn spec_created_instance(inst: ResourceInstance, slot: usize) -> ResourceInstance {
    ResourceInstance {
        desc: inst.desc,
        all_accesses: inst.all_accesses,
        initial_access: inst.initial_access,
        prev_final_access: inst.initial_access,
        external: inst.external,
        pending_creation: false,
        handle: RuntimeHandle::Owned(slot),
        heap_id: 0,
    }
}

/// How many entries in the first `i` of the table need creation; the
/// materializer allocates arena slots for them in table order.
pub open spec fn spec_creations_before(table: Seq<ResourceInstance>, i: int) -> int
    decreases i,
{
    if i <= 0 {
        0
    } else {
        spec_creations_before(table, i - 1) + if spec_needs_creation(table[i - 1]) {
            1int
        } else {
            0int
        }
    }
}

pub proof fn lemma_creations_before_bounds(table: Seq<ResourceInstance>, i: int)
    requires
        0 <= i,
    ensures
        0 <= spec_creations_before(table, i) <= i,
    decreases i,
{
    if i > 0 {
        lemma_creations_before_bounds(table, i - 1);
    }
}

/// Later entries are counted after earlier ones, and an entry that
/// itself needs creation strictly advances the count: the slot indices
/// handed out by one materializer pass are pairwise distinct.
pub proof fn lemma_creations_before_mono(table: Seq<ResourceInstance>, i: int, j: int)
    requires
        0 <= i <= j,
    ensures
        spec_creations_before(table, i) <= spec_creations_before(table, j),
        i < j && spec_needs_creation(table[i]) ==> spec_creations_before(table, i) + 1
            <= spec_creations_before(table, j),
    decreases j - i,
{
    if i < j {
        lemma_creations_before_mono(table, i + 1, j);
    }
}

/// The first configuration error at or after entry `i`, in table order,
/// or success when every entry that needs creation can be planned.
pub open spec fn spec_validate_from(table: Seq<ResourceInstance>, i: int) -> Result<
    (),
    BridgeError,
>
    decreases table.len() - i,
{
    if i < 0 || i >= table.len() {
        Ok(())
    } else if spec_needs_creation(table[i]) && spec_plan_texture(table[i]) is Err {
        Err(spec_plan_texture(table[i])->Err_0)
    } else {
        spec_validate_from(table, i + 1)
    }
}

pub proof fn lemma_validate_ok_iff(table: Seq<ResourceInstance>, i: int)
    requires
        0 <= i,
    ensures
        spec_validate_from(table, i) is Ok <==> (forall|j: int|
            i <= j < table.len() && spec_needs_creation(#[trigger] table[j])
                ==> spec_plan_texture(table[j]) is Ok),
    decreases table.len() - i,
{
    if i < table.len() {
        lemma_validate_ok_iff(table, i + 1);
    }
}

/// Skipping a prefix free of configuration errors does not change the
/// verdict.
pub proof fn lemma_validate_skip_prefix(table: Seq<ResourceInstance>, i: int, j: int)
    requires
        0 <= i <= j,
        forall|k: int|
            i <= k < j && spec_needs_creation(#[trigger] table[k]) ==> spec_plan_texture(table[k])
                is Ok,
    ensures
        spec_validate_from(table, i) == spec_validate_from(table, j),
    decreases j - i,
{
    if i < j {
        lemma_validate_skip_prefix(table, i + 1, j);
    }
}

/// Entry `i` of the updated table `t1` is entry `i` of `t0` with a
/// fresh owned handle, and the arena slot it owns holds its plan and is
/// live.  `base` is the arena length before the pass.
pub open spec fn spec_created_at(
    t0: Seq<ResourceInstance>,
    t1: Seq<ResourceInstance>,
    a1: Seq<ArenaSlot>,
    base: int,
    i: int,
) -> bool {
    let slot = base + spec_creations_before(t0, i);
    &&& t1[i].handle is Owned
    &&& t1[i].handle->Owned_0 as int == slot
    &&& t1[i] == spec_created_instance(t0[i], t1[i].handle->Owned_0)
    &&& 0 <= slot < a1.len()
    &&& a1[slot] == (ArenaSlot { plan: spec_plan_texture(t0[i])->Ok_0, live: true })
}

/// The materializer's effect on the first `upto` entries: entries that
/// needed creation own fresh live slots allocated in table order, every
/// other entry — in particular every externally owned one — is exactly
/// as it came in, slots that existed before the pass are untouched, and
/// entries at `upto` and beyond are not yet visited.
pub open spec fn spec_commit_upto(
    t0: Seq<ResourceInstance>,
    t1: Seq<ResourceInstance>,
    a0: Seq<ArenaSlot>,
    a1: Seq<ArenaSlot>,
    upto: int,
) -> bool {
    let base = a0.len() as int;
    &&& t1.len() == t0.len()
    &&& a1.len() == base + spec_creations_before(t0, upto)
    &&& (forall|s: int| 0 <= s < base ==> a1[s] == a0[s])
    &&& (forall|j: int| upto <= j < t0.len() ==> t1[j] == t0[j])
    &&& (forall|j: int|
        0 <= j < upto && !spec_needs_creation(#[trigger] t0[j]) ==> t1[j] == t0[j])
    &&& (forall|j: int|
        0 <= j < upto && spec_needs_creation(#[trigger] t0[j]) ==> spec_created_at(
            t0,
            t1,
            a1,
            base,
            j,
        ))
}

/// Materializes every pending, non-external entry of the resource
/// table, in table order, against the bridge's arena.
///
/// The pass is atomic: it first checks that every entry that needs
/// creation can be planned, and reports the first configuration error —
/// an unsupported resource kind or an untranslatable format — with
/// nothing changed.  On success the effect is exactly
/// `spec_commit_upto` over the whole table.
pub fn create_resources(table: &mut Vec<ResourceInstance>, arena: &mut BackendArena) -> (r: Result<
    (),
    BridgeError,
>)
    ensures
        final(table)@.len() == old(table)@.len(),
        r is Ok <==> spec_validate_from(old(table)@, 0) is Ok,
        r is Err ==> r == spec_validate_from(old(table)@, 0),
        r is Err ==> final(table)@ == old(table)@ && final(arena).slots@ == old(arena).slots@,
        r is Ok ==> spec_commit_upto(
            old(table)@,
            final(table)@,
            old(arena).slots@,
            final(arena).slots@,
            old(table)@.len() as int,
        ),
        r is Ok && spec_handles_wf(old(table)@, *old(arena)) && spec_owned_distinct(old(table)@)
            ==> spec_handles_wf(final(table)@, *final(arena)) && spec_owned_distinct(
            final(table)@,
        ),
{
    let n = table.len();
    let mut i: usize = 0;
    while i < n
        invariant
            n == table@.len(),
            i <= n,
            table@ == old(table)@,
            arena.slots@ == old(arena).slots@,
            forall|j: int|
                0 <= j < i && spec_needs_creation(#[trigger] table@[j]) ==> spec_plan_texture(
                    table@[j],
                ) is Ok,
        decreases n - i,
    {
        let inst = table[i];
        if !inst.external && inst.pending_creation {
            match plan_texture(&inst) {
                Ok(_) => {},
                Err(e) => {
                    proof {
                        lemma_validate_skip_prefix(table@, 0, i as int);
                        assert(spec_validate_from(table@, i as int) == Err::<(), BridgeError>(e));
                    }
                    return Err(e);
                },
            }
        }
        i += 1;
    }
    proof {
        lemma_validate_ok_iff(old(table)@, 0);
        assert(spec_validate_from(old(table)@, 0) is Ok);
    }

    let ghost table0 = table@;
    let ghost base = arena.slots@.len() as int;
    let mut i: usize = 0;
    while i < n
        invariant
            n == table0.len(),
            i <= n,
            table0 == old(table)@,
            base == old(arena).slots@.len() as int,
            forall|j: int|
                0 <= j < n && spec_needs_creation(#[trigger] table0[j]) ==> spec_plan_texture(
                    table0[j],
                ) is Ok,
            spec_commit_upto(table0, table@, old(arena).slots@, arena.slots@, i as int),
        decreases n - i,
    {
        let inst = table[i];
        proof {
            lemma_creations_before_bounds(table0, i as int);
        }
        if !inst.external && inst.pending_creation {
            match plan_texture(&inst) {
                Ok(plan) => {
                    let slot = arena.allocate(plan);
                    let created = ResourceInstance {
                        desc: inst.desc,
                        all_accesses: inst.all_accesses,
                        initial_access: inst.initial_access,
                        prev_final_access: inst.initial_access,
                        external: inst.external,
                        pending_creation: false,
                        handle: RuntimeHandle::Owned(slot),
                        heap_id: 0,
                    };
                    table.set(i, created);
                    proof {
                        assert(created == spec_created_instance(table0[i as int], slot));
                        assert(spec_creations_before(table0, i as int + 1)
                            == spec_creations_before(table0, i as int) + 1);
                    }
                },
                Err(_) => {
                    // The validation pass already proved every entry
                    // that needs creation has a plan.
                    proof {
                        assert(false);
                    }
                },
            }
        } else {
            proof {
                assert(spec_creations_before(table0, i as int + 1) == spec_creations_before(
                    table0,
                    i as int,
                ));
            }
        }
        i += 1;
    }

    proof {
        if spec_handles_wf(table0, *old(arena)) && spec_owned_distinct(table0) {
            lemma_commit_preserves_wf(table0, *old(arena), table@, *arena, base);
        }
    }
    Ok(())
}

/// After a successful materializer pass the handle map is still
/// well-formed and owned slots are still pairwise distinct: fresh slots
/// start at the old arena length, old handles stay below it, and two
/// fresh slots differ because the creation count strictly advances.
proof fn lemma_commit_preserves_wf(
    table0: Seq<ResourceInstance>,
    arena0: BackendArena,
    table1: Seq<ResourceInstance>,
    arena1: BackendArena,
    base: int,
)
    requires
        spec_handles_wf(table0, arena0),
        spec_owned_distinct(table0),
        base == arena0.slots@.len() as int,
        spec_commit_upto(table0, table1, arena0.slots@, arena1.slots@, table0.len() as int),
    ensures
        spec_handles_wf(table1, arena1),
        spec_owned_distinct(table1),
{
    let n = table0.len() as int;
    assert forall|i: int| 0 <= i < n implies {
        &&& #[trigger] table1[i].wf()
        &&& (table1[i].handle matches RuntimeHandle::Owned(s) ==> s < arena1.slots@.len()
            && arena1.slots@[s as int].live)
    } by {
        assert(table0[i].wf());
        lemma_creations_before_bounds(table0, n);
        if spec_needs_creation(table0[i]) {
            lemma_creations_before_bounds(table0, i);
            lemma_creations_before_mono(table0, i, n);
            assert(spec_created_at(table0, table1, arena1.slots@, base, i));
        }
    }
    assert forall|i: int, j: int|
        0 <= i < n && 0 <= j < n && i != j && #[trigger] table1[i].handle is Owned
            && #[trigger] table1[j].handle is Owned implies table1[i].handle->Owned_0
        != table1[j].handle->Owned_0 by {
        assert(table0[i].wf());
        assert(table0[j].wf());
        if spec_needs_creation(table0[i]) && spec_needs_creation(table0[j]) {
            if i < j {
                lemma_creations_before_mono(table0, i, j);
            } else {
                lemma_creations_before_mono(table0, j, i);
            }
        } else if spec_needs_creation(table0[i]) {
            lemma_creations_before_bounds(table0, i);
        } else if spec_needs_creation(table0[j]) {
            lemma_creations_before_bounds(table0, j);
        }
    }
}

/// What deferred destruction of one entry yields: external entries are
/// rejected as an invariant violation, an entry without an owned live
/// backing object cannot be destroyed, and only an owned handle whose
/// arena slot is still live succeeds.
pub open spec fn spec_destroy_result(inst: ResourceInstance, arena: BackendArena) -> Result<
    (),
    BridgeError,
> {
    if inst.external {
        Err(BridgeError::ExternalResourceDestroyed)
    } else {
        match inst.handle {
            RuntimeHandle::Null => Err(BridgeError::NullResourceHandle),
            RuntimeHandle::Borrowed(_) => Err(BridgeError::ExternalResourceDestroyed),
            RuntimeHandle::Owned(s) => {
                if s < arena.slots@.len() && arena.slots@[s as int].live {
                    Ok(())
                } else {
                    Err(BridgeError::StaleResourceHandle)
                }
            },
        }
    }
}

/// The table entry after its backend object was destroyed: the handle
/// slot is nulled, everything else is untouched.
pub open spec fn spec_destroyed_instance(inst: ResourceInstance) -> ResourceInstance {
    ResourceInstance {
        desc: inst.desc,
        all_accesses: inst.all_accesses,
        initial_access: inst.initial_access,
        prev_final_access: inst.prev_final_access,
        external: inst.external,
        pending_creation: inst.pending_creation,
        handle: RuntimeHandle::Null,
        heap_id: inst.heap_id,
    }
}

/// The effect of a successful destruction of entry `idx`: its handle is
/// nulled, the slot it owned retires, nothing else moves.
pub open spec fn spec_destroy_ok(
    t0: Seq<ResourceInstance>,
    t1: Seq<ResourceInstance>,
    a0: Seq<ArenaSlot>,
    a1: Seq<ArenaSlot>,
    idx: int,
) -> bool {
    let s = t0[idx].handle->Owned_0 as int;
    &&& t1 == t0.update(idx, spec_destroyed_instance(t0[idx]))
    &&& a1 == a0.update(s, (ArenaSlot { plan: a0[s].plan, live: false }))
}

/// Destroys the backend object of table entry `idx`, deferred until the
/// scheduler has confirmed that no in-flight or future frame still
/// references it.
///
/// Invoking this on an externally owned entry is an invariant violation
/// and is rejected, never silently ignored; so is an entry with no
/// owned, live backing object.  On success the arena slot retires and
/// the entry's handle is nulled; no other entry and no other slot is
/// touched.
pub fn destroy_resource_deferred(
    table: &mut Vec<ResourceInstance>,
    idx: usize,
    arena: &mut BackendArena,
) -> (r: Result<(), BridgeError>)
    requires
        idx < old(table)@.len(),
    ensures
        r == spec_destroy_result(old(table)@[idx as int], *old(arena)),
        r is Err ==> final(table)@ == old(table)@ && final(arena).slots@ == old(arena).slots@,
        r is Ok ==> spec_destroy_ok(
            old(table)@,
            final(table)@,
            old(arena).slots@,
            final(arena).slots@,
            idx as int,
        ),
        spec_handles_wf(old(table)@, *old(arena)) && spec_owned_distinct(old(table)@)
            ==> spec_handles_wf(final(table)@, *final(arena)) && spec_owned_distinct(
            final(table)@,
        ),
{
    let inst = table[idx];
    if inst.external {
        return Err(BridgeError::ExternalResourceDestroyed);
    }
    match inst.handle {
        RuntimeHandle::Null => Err(BridgeError::NullResourceHandle),
        RuntimeHandle::Borrowed(_) => Err(BridgeError::ExternalResourceDestroyed),
        RuntimeHandle::Owned(s) => {
            if arena.is_live(s) {
                arena.free(s);
                let destroyed = ResourceInstance {
                    desc: inst.desc,
                    all_accesses: inst.all_accesses,
                    initial_access: inst.initial_access,
                    prev_final_access: inst.prev_final_access,
                    external: inst.external,
                    pending_creation: inst.pending_creation,
                    handle: RuntimeHandle::Null,
                    heap_id: inst.heap_id,
                };
                table.set(idx, destroyed);
                proof {
                    assert(destroyed == spec_destroyed_instance(old(table)@[idx as int]));
                    if spec_handles_wf(old(table)@, *old(arena)) && spec_owned_distinct(
                        old(table)@,
                    ) {
                        lemma_destroy_preserves_wf(
                            old(table)@,
                            *old(arena),
                            table@,
                            *arena,
                            idx as int,
                            s,
                        );
                    }
                }
                Ok(())
            } else {
                Err(BridgeError::StaleResourceHandle)
            }
        },
    }
}

/// Retiring the slot of one owned entry leaves the handle map
/// well-formed: distinctness guarantees no other entry pointed at the
/// retired slot.
proof fn lemma_destroy_preserves_wf(
    table0: Seq<ResourceInstance>,
    arena0: BackendArena,
    table1: Seq<ResourceInstance>,
    arena1: BackendArena,
    idx: int,
    s: usize,
)
    requires
        spec_handles_wf(table0, arena0),
        spec_owned_distinct(table0),
        0 <= idx < table0.len(),
        table0[idx].handle == RuntimeHandle::Owned(s),
        table1 == table0.update(idx, spec_destroyed_instance(table0[idx])),
        s < arena0.slots@.len(),
        arena1.slots@ == arena0.slots@.update(
            s as int,
            (ArenaSlot { plan: arena0.slots@[s as int].plan, live: false }),
        ),
    ensures
        spec_handles_wf(table1, arena1),
        spec_owned_distinct(table1),
{
    assert forall|i: int| 0 <= i < table1.len() implies {
        &&& #[trigger] table1[i].wf()
        &&& (table1[i].handle matches RuntimeHandle::Owned(t) ==> t < arena1.slots@.len()
            && arena1.slots@[t as int].live)
    } by {
        assert(table0[i].wf());
        if i == idx {
            assert(table1[i] == spec_destroyed_instance(table0[idx]));
        } else if table1[i].handle is Owned {
            assert(table1[i] == table0[i]);
            assert(table0[i].handle is Owned);
            assert(table0[idx].handle is Owned);
            assert(table0[i].handle->Owned_0 != table0[idx].handle->Owned_0);
            assert(table0[i].handle->Owned_0 != s);
            assert(arena1.slots@[table0[i].handle->Owned_0 as int] == arena0.slots@[table0[i].handle->Owned_0 as int]);
        }
    }
    assert forall|i: int, j: int|
        0 <= i < table1.len() && 0 <= j < table1.len() && i != j && #[trigger] table1[i].handle
            is Owned && #[trigger] table1[j].handle is Owned implies table1[i].handle->Owned_0
        != table1[j].handle->Owned_0 by {
        assert(table0[i].handle is Owned);
        assert(table0[j].handle is Owned);
    }
}

/// One materializer pass settles the whole table: afterwards no entry
/// is still pending, so a second pass over the same table creates
/// nothing — an instance is created at most once between destructions.
pub proof fn lemma_materializer_settles(
    t0: Seq<ResourceInstance>,
    t1: Seq<ResourceInstance>,
    a0: Seq<ArenaSlot>,
    a1: Seq<ArenaSlot>,
)
    requires
        spec_commit_upto(t0, t1, a0, a1, t0.len() as int),
    ensures
        forall|i: int| 0 <= i < t1.len() ==> !spec_needs_creation(#[trigger] t1[i]),
        spec_creations_before(t1, t1.len() as int) == 0,
{
    assert forall|i: int| 0 <= i < t1.len() implies !spec_needs_creation(#[trigger] t1[i]) by {
        if spec_needs_creation(t0[i]) {
            assert(spec_created_at(t0, t1, a1, a0.len() as int, i));
        } else {
            assert(t1[i] == t0[i]);
        }
    }
    lemma_no_pending_no_creations(t1, t1.len() as int);
}

/// A table with nothing pending counts no creations.
proof fn lemma_no_pending_no_creations(table: Seq<ResourceInstance>, i: int)
    requires
        0 <= i <= table.len(),
        forall|j: int| 0 <= j < table.len() ==> !spec_needs_creation(#[trigger] table[j]),
    ensures
        spec_creations_before(table, i) == 0,
    decreases i,
{
    if i > 0 {
        lemma_no_pending_no_creations(table, i - 1);
    }
}

/// A live instance is never re-materialized: while the handle is owned
/// the pending flag is clear, so the creation path skips the entry.
pub proof fn lemma_no_recreation_while_live(inst: ResourceInstance)
    requires
        inst.wf(),
        inst.handle is Owned,
    ensures
        !spec_needs_creation(inst),
{
}

/// Destruction happens at most once per creation: once an entry's
/// backend object has been destroyed, a second destruction request is
/// rejected whatever state the arena is in.
pub proof fn lemma_destroy_at_most_once(inst: ResourceInstance, arena: BackendArena)
    requires
        spec_destroy_result(inst, arena) is Ok,
    ensures
        forall|later: BackendArena|
            spec_destroy_result(spec_destroyed_instance(inst), later) == Err::<(), BridgeError>(
                BridgeError::NullResourceHandle,
            ),
{
}

/// External resources are never passed to the allocation path nor to
/// the free path: they are not counted as needing creation, and a
/// destruction request for one is rejected as an invariant violation.
pub proof fn lemma_external_untouched(inst: ResourceInstance, arena: BackendArena)
    requires
        inst.external,
    ensures
        !spec_needs_creation(inst),
        spec_destroy_result(inst, arena) == Err::<(), BridgeError>(
            BridgeError::ExternalResourceDestroyed,
        ),
{
}

} // verus!
