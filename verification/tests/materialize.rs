use render_bridge::errors::BridgeError;
use render_bridge::mapping::{
    BackendFormat, SchedulerFormat, ACCESS_RENDER_TARGET, ACCESS_SHADER_RESOURCE,
    USAGE_RENDER_ATTACHMENT, USAGE_TEXTURE_BINDING,
};
use render_bridge::materialize::{create_resources, destroy_resource_deferred};
use render_bridge::resources::{
    make_external_instance, BackendArena, ResourceDescriptor, ResourceInstance, ResourceKind,
    RuntimeHandle,
};

fn image_2d_descriptor(format: SchedulerFormat) -> ResourceDescriptor {
    ResourceDescriptor {
        kind: ResourceKind::Image2d,
        width: 640,
        height: 480,
        mip_levels: 1,
        sample_count: 1,
        array_layers: 1,
        temporal_layers: 1,
        format,
    }
}

fn pending_instance(format: SchedulerFormat, access: u32) -> ResourceInstance {
    ResourceInstance {
        desc: image_2d_descriptor(format),
        all_accesses: access,
        initial_access: access,
        prev_final_access: 0,
        external: false,
        pending_creation: true,
        handle: RuntimeHandle::Null,
        heap_id: 9,
    }
}

#[test]
fn materializer_creates_pending_2d_image() {
    let mut table = vec![pending_instance(
        SchedulerFormat::B8g8r8a8UnormSrgb,
        ACCESS_RENDER_TARGET | ACCESS_SHADER_RESOURCE,
    )];
    let mut arena = BackendArena::new();

    assert_eq!(create_resources(&mut table, &mut arena), Ok(()));

    assert_eq!(table[0].handle, RuntimeHandle::Owned(0));
    assert!(!table[0].pending_creation);
    assert_eq!(table[0].heap_id, 0);
    assert_eq!(table[0].prev_final_access, table[0].initial_access);

    assert_eq!(arena.len(), 1);
    assert!(arena.is_live(0));
    let plan = arena.slots[0].plan;
    assert_eq!(plan.width, 640);
    assert_eq!(plan.height, 480);
    assert_eq!(plan.mip_levels, 1);
    assert_eq!(plan.sample_count, 1);
    assert_eq!(plan.depth_or_array_layers, 1);
    assert_eq!(plan.format, BackendFormat::Bgra8UnormSrgb);
    assert_ne!(plan.usage & USAGE_RENDER_ATTACHMENT, 0);
    assert_ne!(plan.usage & USAGE_TEXTURE_BINDING, 0);
}

#[test]
fn materializer_skips_external_entries() {
    // Even an external entry wrongly flagged pending is skipped: the
    // external check comes first, exactly as the allocation path must.
    let mut external = make_external_instance(
        image_2d_descriptor(SchedulerFormat::B8g8r8a8UnormSrgb),
        42,
        ACCESS_RENDER_TARGET,
    );
    external.pending_creation = true;
    let before = external;
    let mut table = vec![external];
    let mut arena = BackendArena::new();

    assert_eq!(create_resources(&mut table, &mut arena), Ok(()));
    assert_eq!(table[0], before);
    assert_eq!(arena.len(), 0);
}

#[test]
fn materializer_skips_settled_entries() {
    let mut settled = pending_instance(SchedulerFormat::B8g8r8a8UnormSrgb, ACCESS_RENDER_TARGET);
    settled.pending_creation = false;
    let before = settled;
    let mut table = vec![settled];
    let mut arena = BackendArena::new();

    assert_eq!(create_resources(&mut table, &mut arena), Ok(()));
    assert_eq!(table[0], before);
    assert_eq!(arena.len(), 0);
}

#[test]
fn materializer_rejects_unsupported_kind_atomically() {
    let good = pending_instance(SchedulerFormat::B8g8r8a8UnormSrgb, ACCESS_RENDER_TARGET);
    let mut buffer = pending_instance(SchedulerFormat::B8g8r8a8UnormSrgb, ACCESS_RENDER_TARGET);
    buffer.desc.kind = ResourceKind::Buffer;
    let mut table = vec![good, buffer];
    let mut arena = BackendArena::new();

    assert_eq!(
        create_resources(&mut table, &mut arena),
        Err(BridgeError::UnsupportedResourceKind)
    );
    // Nothing was created, not even for the valid entry before the bad one.
    assert_eq!(table[0].handle, RuntimeHandle::Null);
    assert!(table[0].pending_creation);
    assert_eq!(arena.len(), 0);
}

#[test]
fn materializer_rejects_unmapped_format() {
    let mut table = vec![pending_instance(SchedulerFormat::Unknown, ACCESS_RENDER_TARGET)];
    let mut arena = BackendArena::new();
    assert_eq!(create_resources(&mut table, &mut arena), Err(BridgeError::UnsupportedFormat));
    assert_eq!(arena.len(), 0);
}

#[test]
fn materializer_allocates_slots_in_table_order() {
    let mut table = vec![
        pending_instance(SchedulerFormat::B8g8r8a8UnormSrgb, ACCESS_RENDER_TARGET),
        make_external_instance(
            image_2d_descriptor(SchedulerFormat::B8g8r8a8UnormSrgb),
            7,
            ACCESS_RENDER_TARGET,
        ),
        pending_instance(SchedulerFormat::R16g16b16a16Float, ACCESS_SHADER_RESOURCE),
    ];
    let mut arena = BackendArena::new();

    assert_eq!(create_resources(&mut table, &mut arena), Ok(()));
    assert_eq!(table[0].handle, RuntimeHandle::Owned(0));
    assert_eq!(table[1].handle, RuntimeHandle::Borrowed(7));
    assert_eq!(table[2].handle, RuntimeHandle::Owned(1));
    assert_eq!(arena.len(), 2);
    assert_eq!(arena.slots[1].plan.format, BackendFormat::Rgba16Float);
}

#[test]
fn destroy_releases_exactly_once() {
    let mut table = vec![pending_instance(
        SchedulerFormat::B8g8r8a8UnormSrgb,
        ACCESS_RENDER_TARGET,
    )];
    let mut arena = BackendArena::new();
    assert_eq!(create_resources(&mut table, &mut arena), Ok(()));
    assert!(arena.is_live(0));

    // First destruction succeeds: slot retires, handle is nulled.
    assert_eq!(destroy_resource_deferred(&mut table, 0, &mut arena), Ok(()));
    assert_eq!(table[0].handle, RuntimeHandle::Null);
    assert!(!arena.is_live(0));
    assert_eq!(arena.len(), 1);

    // A second destruction is rejected, not silently ignored.
    assert_eq!(
        destroy_resource_deferred(&mut table, 0, &mut arena),
        Err(BridgeError::NullResourceHandle)
    );
}

#[test]
fn destroy_rejects_external_resource() {
    let external = make_external_instance(
        image_2d_descriptor(SchedulerFormat::B8g8r8a8UnormSrgb),
        11,
        ACCESS_RENDER_TARGET,
    );
    let before = external;
    let mut table = vec![external];
    let mut arena = BackendArena::new();

    assert_eq!(
        destroy_resource_deferred(&mut table, 0, &mut arena),
        Err(BridgeError::ExternalResourceDestroyed)
    );
    // The entry is untouched: the bridge never frees what it does not own.
    assert_eq!(table[0], before);
}

#[test]
fn destroy_rejects_stale_handle() {
    let mut dangling = pending_instance(SchedulerFormat::B8g8r8a8UnormSrgb, ACCESS_RENDER_TARGET);
    dangling.pending_creation = false;
    dangling.handle = RuntimeHandle::Owned(5);
    let mut table = vec![dangling];
    let mut arena = BackendArena::new();

    assert_eq!(
        destroy_resource_deferred(&mut table, 0, &mut arena),
        Err(BridgeError::StaleResourceHandle)
    );
}

#[test]
fn lifetime_balance_over_create_and_destroy() {
    // One instance, created once and destroyed once: at every point the
    // creation count minus the destruction count stays within {0, 1}.
    let mut table = vec![pending_instance(
        SchedulerFormat::B8g8r8a8UnormSrgb,
        ACCESS_RENDER_TARGET,
    )];
    let mut arena = BackendArena::new();

    // Not yet created: 0 - 0.
    assert_eq!(arena.len(), 0);

    assert_eq!(create_resources(&mut table, &mut arena), Ok(()));
    // Created and live: 1 - 0.
    assert_eq!(arena.len(), 1);
    assert!(arena.is_live(0));

    // A second materializer pass creates nothing new: the pending flag
    // was cleared exactly once, so the instance is never double-created
    // while live.
    assert_eq!(create_resources(&mut table, &mut arena), Ok(()));
    assert_eq!(arena.len(), 1);
    assert_eq!(table[0].handle, RuntimeHandle::Owned(0));

    assert_eq!(destroy_resource_deferred(&mut table, 0, &mut arena), Ok(()));
    // Created and destroyed: 1 - 1; the slot index is never reused.
    assert_eq!(arena.len(), 1);
    assert!(!arena.is_live(0));
}

#[test]
fn external_instance_is_populated_and_borrowed() {
    let inst = make_external_instance(
        image_2d_descriptor(SchedulerFormat::B8g8r8a8UnormSrgb),
        99,
        ACCESS_RENDER_TARGET,
    );
    assert!(inst.external);
    assert!(!inst.pending_creation);
    assert_eq!(inst.handle, RuntimeHandle::Borrowed(99));
    assert_eq!(inst.all_accesses, ACCESS_RENDER_TARGET);
    assert_eq!(inst.initial_access, ACCESS_RENDER_TARGET);
    assert_eq!(inst.prev_final_access, ACCESS_RENDER_TARGET);
}
