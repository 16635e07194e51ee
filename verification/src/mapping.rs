//! Translation between the scheduler's abstract model and the backend's
//! concrete one: status codes, per-resource access-flag bitsets, and
//! pixel formats.

use vstd::prelude::*;

verus! {

/// The scheduler's status value for success; every other value reports
/// a failure.
pub const STATUS_OK: i32 = 0;

/// Turns a scheduler status code into a `Result`, so that callers can
/// propagate failures with `?` instead of comparing codes.
pub fn map_result(status: i32) -> (r: Result<(), i32>)
    ensures
        r is Ok <==> status == STATUS_OK,
        r is Err ==> r->Err_0 == status,
{
    if status == STATUS_OK {
        Ok(())
    } else {
        Err(status)
    }
}

/// Lifts a scheduler status into the bridge's error taxonomy: any
/// non-success status is a scheduler-reported failure, fatal for the
/// current frame only.
pub fn map_scheduler_status(status: i32) -> (r: Result<(), crate::errors::BridgeError>)
    ensures
        r is Ok <==> status == STATUS_OK,
        r is Err ==> r->Err_0 == crate::errors::BridgeError::SchedulerFailure(status),
{
    if status == STATUS_OK {
        Ok(())
    } else {
        Err(crate::errors::BridgeError::SchedulerFailure(status))
    }
}

// The scheduler's semantic access-flag bits, one per way a node may use
// a resource during one frame.

pub const ACCESS_INDIRECT_ARGS: u32 = 0x1;
pub const ACCESS_INDEX_BUFFER: u32 = 0x2;
pub const ACCESS_VERTEX_BUFFER: u32 = 0x4;
pub const ACCESS_CONSTANT_BUFFER: u32 = 0x8;
pub const ACCESS_SHADER_RESOURCE: u32 = 0x10;
pub const ACCESS_UNORDERED_ACCESS: u32 = 0x20;
pub const ACCESS_SHADING_RATE: u32 = 0x40;
pub const ACCESS_RENDER_TARGET: u32 = 0x80;
pub const ACCESS_DEPTH_READ: u32 = 0x100;
pub const ACCESS_DEPTH_WRITE: u32 = 0x200;
pub const ACCESS_STENCIL_READ: u32 = 0x400;
pub const ACCESS_STENCIL_WRITE: u32 = 0x800;
pub const ACCESS_STREAM_OUT: u32 = 0x1000;
pub const ACCESS_COPY_SRC: u32 = 0x2000;
pub const ACCESS_COPY_DEST: u32 = 0x4000;
pub const ACCESS_RESOLVE_SRC: u32 = 0x8000;
pub const ACCESS_RESOLVE_DEST: u32 = 0x10000;
pub const ACCESS_RAYTRACING_AS_BUILD: u32 = 0x20000;
pub const ACCESS_RAYTRACING_AS_READ: u32 = 0x40000;
pub const ACCESS_PRESENT: u32 = 0x80000;
pub const ACCESS_CPU_READ: u32 = 0x100000;
pub const ACCESS_CPU_WRITE: u32 = 0x200000;

// The backend's texture-usage bits, the capability set a concrete
// texture is allocated with.

pub const USAGE_COPY_SRC: u32 = 0x1;
pub const USAGE_COPY_DST: u32 = 0x2;
pub const USAGE_TEXTURE_BINDING: u32 = 0x4;
pub const USAGE_STORAGE_BINDING: u32 = 0x8;
pub const USAGE_RENDER_ATTACHMENT: u32 = 0x10;

/// The backend usage set for one scheduler access set: render-target
/// access needs the render-attachment capability, shader-resource access
/// needs the texture-binding capability, and an access set that maps to
/// nothing falls back to texture binding so that the resource is still
/// allocatable.  The fallback is a deliberate permissive default, not a
/// silent guess: see `translate_access`.
pub open spec fn spec_translate_access(access: u32) -> u32 {
    let mapped = spec_mapped_usage(access);
    if mapped == 0 {
        USAGE_TEXTURE_BINDING
    } else {
        mapped
    }
}

/// The part of the usage set that the access bits ask for directly,
/// before the empty-set fallback is applied.
pub open spec fn spec_mapped_usage(access: u32) -> u32 {
    let rt = if access & ACCESS_RENDER_TARGET != 0 {
        USAGE_RENDER_ATTACHMENT
    } else {
        0
    };
    let sr = if access & ACCESS_SHADER_RESOURCE != 0 {
        USAGE_TEXTURE_BINDING
    } else {
        0
    };
    rt | sr
}

/// Maps one resource's scheduler access set to the backend usage set the
/// concrete resource must be allocated with.
///
/// The function is total and pure: every input bitset has a defined
/// result, equal to `spec_translate_access`, so repeated calls on the
/// same input always agree.  Unknown or unused bits are ignored.  When
/// no bit maps to a backend usage the result falls back to the minimal
/// texture-binding usage rather than producing an unallocatable, empty
/// capability set; callers that consider that a mapping gap can detect
/// it through `spec_mapped_usage(access) == 0`.
pub fn translate_access(access: u32) -> (usage: u32)
    ensures
        usage == spec_translate_access(access),
        usage != 0,
{
    let mut usage: u32 = 0;
    if access & ACCESS_RENDER_TARGET != 0 {
        usage = usage | USAGE_RENDER_ATTACHMENT;
    }
    if access & ACCESS_SHADER_RESOURCE != 0 {
        usage = usage | USAGE_TEXTURE_BINDING;
    }
    proof {
        assert(0u32 | 0u32 == 0u32) by (bit_vector);
        assert(0u32 | 0x10u32 == 0x10u32) by (bit_vector);
        assert(0u32 | 0x4u32 == 0x4u32) by (bit_vector);
        assert(0x10u32 | 0u32 == 0x10u32) by (bit_vector);
        assert(0x10u32 | 0x4u32 == 0x14u32) by (bit_vector);
    }
    if usage == 0 {
        usage = USAGE_TEXTURE_BINDING;
    }
    usage
}

/// Translation is total and never yields an empty usage set, and the two
/// access bits this backend maps are always honoured: render-target
/// access implies the render-attachment capability and shader-resource
/// access implies the texture-binding capability.
pub proof fn lemma_translate_access_total(access: u32)
    ensures
        spec_translate_access(access) != 0,
        access & ACCESS_RENDER_TARGET != 0 ==> spec_translate_access(access)
            & USAGE_RENDER_ATTACHMENT != 0,
        access & ACCESS_SHADER_RESOURCE != 0 ==> spec_translate_access(access)
            & USAGE_TEXTURE_BINDING != 0,
{
    assert(0u32 | 0u32 == 0u32) by (bit_vector);
    assert(0u32 | 0x10u32 == 0x10u32) by (bit_vector);
    assert(0u32 | 0x4u32 == 0x4u32) by (bit_vector);
    assert(0x10u32 | 0u32 == 0x10u32) by (bit_vector);
    assert(0x10u32 | 0x4u32 == 0x14u32) by (bit_vector);
    assert(0x10u32 & 0x10u32 != 0) by (bit_vector);
    assert(0x4u32 & 0x4u32 != 0) by (bit_vector);
    assert(0x14u32 & 0x10u32 != 0) by (bit_vector);
    assert(0x14u32 & 0x4u32 != 0) by (bit_vector);
}

/// A pixel format of the concrete backend, restricted to the set this
/// bridge supports.
#[derive(Clone, Copy, Debug, PartialEq, Eq, Structural)]
pub enum BackendFormat {
    Bgra8UnormSrgb,
    Rgba16Float,
    Depth32Float,
}

/// A pixel format in the scheduler's vocabulary.  `Unknown` stands for
/// every scheduler format this bridge has no backend equivalent for.
#[derive(Clone, Copy, Debug, PartialEq, Eq, Structural)]
pub enum SchedulerFormat {
    B8g8r8a8UnormSrgb,
    R16g16b16a16Float,
    D32Float,
    Unknown,
}

/// The scheduler format a backend format is announced as, if any.  Only
/// the swap-chain format is announced to the scheduler.
pub open spec fn spec_map_backend_format_to_scheduler(f: BackendFormat) -> Option<
    SchedulerFormat,
> {
    match f {
        BackendFormat::Bgra8UnormSrgb => Some(SchedulerFormat::B8g8r8a8UnormSrgb),
        BackendFormat::Rgba16Float => None,
        BackendFormat::Depth32Float => None,
    }
}

/// The backend format a scheduler format is allocated with, if the
/// translation table has an entry for it.
pub open spec fn spec_map_scheduler_format_to_backend(f: SchedulerFormat) -> Option<
    BackendFormat,
> {
    match f {
        SchedulerFormat::B8g8r8a8UnormSrgb => Some(BackendFormat::Bgra8UnormSrgb),
        SchedulerFormat::R16g16b16a16Float => Some(BackendFormat::Rgba16Float),
        SchedulerFormat::D32Float => Some(BackendFormat::Depth32Float),
        SchedulerFormat::Unknown => None,
    }
}

/// Announces a backend format to the scheduler, or `None` where the
/// format is not part of the supported exchange set.
pub fn map_backend_format_to_scheduler(f: BackendFormat) -> (r: Option<SchedulerFormat>)
    ensures
        r == spec_map_backend_format_to_scheduler(f),
{
    match f {
        BackendFormat::Bgra8UnormSrgb => Some(SchedulerFormat::B8g8r8a8UnormSrgb),
        BackendFormat::Rgba16Float => None,
        BackendFormat::Depth32Float => None,
    }
}

/// Resolves a scheduler format to the backend format resources of it are
/// allocated with, or `None` where the table has no entry.
pub fn map_scheduler_format_to_backend(f: SchedulerFormat) -> (r: Option<BackendFormat>)
    ensures
        r == spec_map_scheduler_format_to_backend(f),
{
    match f {
        SchedulerFormat::B8g8r8a8UnormSrgb => Some(BackendFormat::Bgra8UnormSrgb),
        SchedulerFormat::R16g16b16a16Float => Some(BackendFormat::Rgba16Float),
        SchedulerFormat::D32Float => Some(BackendFormat::Depth32Float),
        SchedulerFormat::Unknown => None,
    }
}

/// Round trip: every backend format the scheduler-announcement map
/// accepts comes back unchanged through the allocation map.
pub proof fn lemma_format_round_trip(f: BackendFormat)
    ensures
        spec_map_backend_format_to_scheduler(f) matches Some(s)
            ==> spec_map_scheduler_format_to_backend(s) == Some(f),
{
}

} // verus!
