use render_bridge::errors::{classify, BridgeError, ErrorClass};
use render_bridge::mapping::{
    map_backend_format_to_scheduler, map_result, map_scheduler_format_to_backend,
    map_scheduler_status, translate_access, BackendFormat, SchedulerFormat, ACCESS_COPY_SRC,
    ACCESS_RENDER_TARGET, ACCESS_SHADER_RESOURCE, USAGE_RENDER_ATTACHMENT, USAGE_TEXTURE_BINDING,
};

#[test]
fn map_result_success() {
    assert_eq!(map_result(0), Ok(()));
}

#[test]
fn map_result_failure_keeps_code() {
    assert_eq!(map_result(-3), Err(-3));
    assert_eq!(map_result(7), Err(7));
}

#[test]
fn scheduler_status_enters_the_taxonomy() {
    assert_eq!(map_scheduler_status(0), Ok(()));
    assert_eq!(map_scheduler_status(-4), Err(BridgeError::SchedulerFailure(-4)));
    assert_eq!(
        classify(BridgeError::SchedulerFailure(-4)),
        ErrorClass::FrameFatal
    );
}

#[test]
fn translate_maps_render_target() {
    assert_eq!(translate_access(ACCESS_RENDER_TARGET), USAGE_RENDER_ATTACHMENT);
}

#[test]
fn translate_maps_shader_resource() {
    assert_eq!(translate_access(ACCESS_SHADER_RESOURCE), USAGE_TEXTURE_BINDING);
}

#[test]
fn translate_unions_mapped_bits() {
    assert_eq!(
        translate_access(ACCESS_RENDER_TARGET | ACCESS_SHADER_RESOURCE),
        USAGE_RENDER_ATTACHMENT | USAGE_TEXTURE_BINDING
    );
}

#[test]
fn translate_empty_set_falls_back_to_texture_binding() {
    assert_eq!(translate_access(0), USAGE_TEXTURE_BINDING);
}

#[test]
fn translate_ignores_unmapped_bits() {
    // A copy-source access maps to nothing here, so the fallback applies.
    assert_eq!(translate_access(ACCESS_COPY_SRC), USAGE_TEXTURE_BINDING);
    // An unmapped bit beside a mapped one changes nothing.
    assert_eq!(
        translate_access(ACCESS_COPY_SRC | ACCESS_RENDER_TARGET),
        USAGE_RENDER_ATTACHMENT
    );
}

#[test]
fn translate_is_deterministic_and_total() {
    let inputs = [0u32, 1, ACCESS_RENDER_TARGET, ACCESS_SHADER_RESOURCE, 0xffff_ffff, 0x1234_5678];
    for &a in inputs.iter() {
        let first = translate_access(a);
        let second = translate_access(a);
        assert_eq!(first, second);
        assert_ne!(first, 0);
    }
}

#[test]
fn format_round_trip_over_supported_set() {
    let all = [
        BackendFormat::Bgra8UnormSrgb,
        BackendFormat::Rgba16Float,
        BackendFormat::Depth32Float,
    ];
    for &f in all.iter() {
        if let Some(s) = map_backend_format_to_scheduler(f) {
            assert_eq!(map_scheduler_format_to_backend(s), Some(f));
        }
    }
}

#[test]
fn format_maps_exact_entries() {
    assert_eq!(
        map_backend_format_to_scheduler(BackendFormat::Bgra8UnormSrgb),
        Some(SchedulerFormat::B8g8r8a8UnormSrgb)
    );
    assert_eq!(map_backend_format_to_scheduler(BackendFormat::Rgba16Float), None);
    assert_eq!(map_backend_format_to_scheduler(BackendFormat::Depth32Float), None);
    assert_eq!(
        map_scheduler_format_to_backend(SchedulerFormat::B8g8r8a8UnormSrgb),
        Some(BackendFormat::Bgra8UnormSrgb)
    );
    assert_eq!(
        map_scheduler_format_to_backend(SchedulerFormat::R16g16b16a16Float),
        Some(BackendFormat::Rgba16Float)
    );
    assert_eq!(
        map_scheduler_format_to_backend(SchedulerFormat::D32Float),
        Some(BackendFormat::Depth32Float)
    );
    assert_eq!(map_scheduler_format_to_backend(SchedulerFormat::Unknown), None);
}

#[test]
fn error_classes_follow_the_taxonomy() {
    assert_eq!(classify(BridgeError::UnsupportedResourceKind), ErrorClass::Configuration);
    assert_eq!(classify(BridgeError::UnsupportedFormat), ErrorClass::Configuration);
    assert_eq!(classify(BridgeError::SchedulerFailure(-5)), ErrorClass::FrameFatal);
    assert_eq!(
        classify(BridgeError::ExternalResourceDestroyed),
        ErrorClass::InvariantViolation
    );
    assert_eq!(classify(BridgeError::InvalidResourceId), ErrorClass::InvariantViolation);
    assert_eq!(classify(BridgeError::InvalidBatchRange), ErrorClass::InvariantViolation);
    assert_eq!(classify(BridgeError::NullResourceHandle), ErrorClass::InvariantViolation);
    assert_eq!(classify(BridgeError::StaleResourceHandle), ErrorClass::InvariantViolation);
    assert_eq!(classify(BridgeError::ArgumentCountMismatch), ErrorClass::InvariantViolation);
    assert_eq!(classify(BridgeError::ArgumentSizeMismatch), ErrorClass::InvariantViolation);
}
