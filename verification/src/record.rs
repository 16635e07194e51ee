//! Node argument decoding, view resolution, and command recording.
//!
//! The scheduler hands each node callback a positional list of raw
//! argument blobs and guarantees their order and sizes match the node's
//! declared signature, but does not type-check them.  Instead of
//! reinterpreting pointers, the bridge decodes every blob against the
//! single source of truth for the node's parameter layout, rejecting a
//! size mismatch as an invariant violation.  Recording then resolves
//! the referenced views against the resource table and yields a typed
//! description of the pass to issue, which the backend edge executes.

use vstd::prelude::*;

use crate::errors::BridgeError;
use crate::resources::{BackendArena, ResourceInstance, RuntimeHandle};

verus! {

/// The little-endian 16-bit value at `off`.
pub open spec fn spec_le_u16(b: Seq<u8>, off: int) -> u16 {
    (b[off] + b[off + 1] * 0x100) as u16
}

/// The little-endian 32-bit value at `off`.
pub open spec fn spec_le_u32(b: Seq<u8>, off: int) -> u32 {
    (b[off] + b[off + 1] * 0x100 + b[off + 2] * 0x10000 + b[off + 3] * 0x1000000) as u32
}

/// Reads the little-endian 16-bit value at `off`.
pub fn read_le_u16(b: &Vec<u8>, off: usize) -> (r: u16)
    requires
        off + 2 <= b@.len(),
    ensures
        r == spec_le_u16(b@, off as int),
{
    proof {
        vstd::std_specs::vec::axiom_spec_len(b);
    }
    let b0 = b[off] as u16;
    let b1 = b[off + 1] as u16;
    b0 + b1 * 0x100
}

/// Reads the little-endian 32-bit value at `off`.
pub fn read_le_u32(b: &Vec<u8>, off: usize) -> (r: u32)
    requires
        off + 4 <= b@.len(),
    ensures
        r == spec_le_u32(b@, off as int),
{
    proof {
        vstd::std_specs::vec::axiom_spec_len(b);
    }
    let b0 = b[off] as u32;
    let b1 = b[off + 1] as u32;
    let b2 = b[off + 2] as u32;
    let b3 = b[off + 3] as u32;
    b0 + b1 * 0x100 + b2 * 0x10000 + b3 * 0x1000000
}

/// The byte size of an image-view argument blob.
pub const IMAGE_VIEW_ARG_SIZE: usize = 36;

/// The byte size of a clear-value argument blob: four 32-bit channels.
pub const CLEAR_COLOR_ARG_SIZE: usize = 16;

/// The byte size of a viewport argument blob: six 32-bit fields.
pub const VIEWPORT_ARG_SIZE: usize = 24;

/// The byte size of a single 32-bit scalar argument blob.
pub const SCALAR_ARG_SIZE: usize = 4;

/// An image-view argument: a resource id, a subresource range, and the
/// view parameters, exactly as the scheduler lays them out.  Fields
/// that carry floating-point data (the level-of-detail clamp) are kept
/// as raw bit patterns; the bridge never computes with them.
#[derive(Clone, Copy, Debug, PartialEq, Eq, Structural)]
pub struct ImageViewArg {
    pub resource_id: u32,
    pub view_format: u32,
    pub temporal_layer: u32,
    pub flags: u32,
    pub base_mip: u16,
    pub mip_levels: u16,
    pub base_array_layer: u32,
    pub array_layers: u32,
    pub min_lod_clamp_bits: u32,
    pub component_mapping: u32,
}

/// The image view encoded in a 36-byte blob.
pub open spec fn spec_image_view_of(b: Seq<u8>) -> ImageViewArg {
    ImageViewArg {
        resource_id: spec_le_u32(b, 0),
        view_format: spec_le_u32(b, 4),
        temporal_layer: spec_le_u32(b, 8),
        flags: spec_le_u32(b, 12),
        base_mip: spec_le_u16(b, 16),
        mip_levels: spec_le_u16(b, 18),
        base_array_layer: spec_le_u32(b, 20),
        array_layers: spec_le_u32(b, 24),
        min_lod_clamp_bits: spec_le_u32(b, 28),
        component_mapping: spec_le_u32(b, 32),
    }
}

/// Decodes an image-view argument, rejecting a blob whose size does not
/// match the declared parameter type.
pub fn decode_image_view(b: &Vec<u8>) -> (r: Result<ImageViewArg, BridgeError>)
    ensures
        r is Ok <==> b@.len() == IMAGE_VIEW_ARG_SIZE,
        r is Ok ==> r->Ok_0 == spec_image_view_of(b@),
        r is Err ==> r->Err_0 == BridgeError::ArgumentSizeMismatch,
{
    if b.len() != IMAGE_VIEW_ARG_SIZE {
        return Err(BridgeError::ArgumentSizeMismatch);
    }
    Ok(
        ImageViewArg {
            resource_id: read_le_u32(b, 0),
            view_format: read_le_u32(b, 4),
            temporal_layer: read_le_u32(b, 8),
            flags: read_le_u32(b, 12),
            base_mip: read_le_u16(b, 16),
            mip_levels: read_le_u16(b, 18),
            base_array_layer: read_le_u32(b, 20),
            array_layers: read_le_u32(b, 24),
            min_lod_clamp_bits: read_le_u32(b, 28),
            component_mapping: read_le_u32(b, 32),
        },
    )
}

/// A clear color, four channels carried as raw 32-bit float patterns;
/// the bridge forwards them to the backend untouched.
#[derive(Clone, Copy, Debug, PartialEq, Eq, Structural)]
pub struct ClearColorArg {
    pub r_bits: u32,
    pub g_bits: u32,
    pub b_bits: u32,
    pub a_bits: u32,
}

/// The clear color encoded in a 16-byte blob.
pub open spec fn spec_clear_color_of(b: Seq<u8>) -> ClearColorArg {
    ClearColorArg {
        r_bits: spec_le_u32(b, 0),
        g_bits: spec_le_u32(b, 4),
        b_bits: spec_le_u32(b, 8),
        a_bits: spec_le_u32(b, 12),
    }
}

/// Decodes a clear-value argument.
pub fn decode_clear_color(b: &Vec<u8>) -> (r: Result<ClearColorArg, BridgeError>)
    ensures
        r is Ok <==> b@.len() == CLEAR_COLOR_ARG_SIZE,
        r is Ok ==> r->Ok_0 == spec_clear_color_of(b@),
        r is Err ==> r->Err_0 == BridgeError::ArgumentSizeMismatch,
{
    if b.len() != CLEAR_COLOR_ARG_SIZE {
        return Err(BridgeError::ArgumentSizeMismatch);
    }
    Ok(
        ClearColorArg {
            r_bits: read_le_u32(b, 0),
            g_bits: read_le_u32(b, 4),
            b_bits: read_le_u32(b, 8),
            a_bits: read_le_u32(b, 12),
        },
    )
}

/// A viewport, six fields carried as raw 32-bit float patterns.
#[derive(Clone, Copy, Debug, PartialEq, Eq, Structural)]
pub struct ViewportArg {
    pub x_bits: u32,
    pub y_bits: u32,
    pub width_bits: u32,
    pub height_bits: u32,
    pub min_z_bits: u32,
    pub max_z_bits: u32,
}

/// The viewport encoded in a 24-byte blob.
pub open spec fn spec_viewport_of(b: Seq<u8>) -> ViewportArg {
    ViewportArg {
        x_bits: spec_le_u32(b, 0),
        y_bits: spec_le_u32(b, 4),
        width_bits: spec_le_u32(b, 8),
        height_bits: spec_le_u32(b, 12),
        min_z_bits: spec_le_u32(b, 16),
        max_z_bits: spec_le_u32(b, 20),
    }
}

/// Decodes a viewport argument.
pub fn decode_viewport(b: &Vec<u8>) -> (r: Result<ViewportArg, BridgeError>)
    ensures
        r is Ok <==> b@.len() == VIEWPORT_ARG_SIZE,
        r is Ok ==> r->Ok_0 == spec_viewport_of(b@),
        r is Err ==> r->Err_0 == BridgeError::ArgumentSizeMismatch,
{
    if b.len() != VIEWPORT_ARG_SIZE {
        return Err(BridgeError::ArgumentSizeMismatch);
    }
    Ok(
        ViewportArg {
            x_bits: read_le_u32(b, 0),
            y_bits: read_le_u32(b, 4),
            width_bits: read_le_u32(b, 8),
            height_bits: read_le_u32(b, 12),
            min_z_bits: read_le_u32(b, 16),
            max_z_bits: read_le_u32(b, 20),
        },
    )
}

/// Decodes a single 32-bit scalar argument (carried as raw bits; the
/// scheduler's scalars are floats the bridge never computes with).
pub fn decode_scalar_bits(b: &Vec<u8>) -> (r: Result<u32, BridgeError>)
    ensures
        r is Ok <==> b@.len() == SCALAR_ARG_SIZE,
        r is Ok ==> r->Ok_0 == spec_le_u32(b@, 0),
        r is Err ==> r->Err_0 == BridgeError::ArgumentSizeMismatch,
{
    if b.len() != SCALAR_ARG_SIZE {
        return Err(BridgeError::ArgumentSizeMismatch);
    }
    Ok(read_le_u32(b, 0))
}

/// The concrete view a node binds: either a transient view the backend
/// must create over a bridge-owned arena object, scoped to the current
/// recording operation, or the pre-existing external view, used
/// directly with no allocation and no view creation.
#[derive(Clone, Copy, Debug, PartialEq, Eq, Structural)]
pub enum ResolvedView {
    Transient(usize),
    External(u64),
}

/// How a resource id resolves against the table: an owned handle
/// yields a transient view over its arena slot, a borrowed handle
/// yields the external view itself, an id outside the table or an
/// entry with nothing attached is an invariant violation.
pub open spec fn spec_resolve_view(table: Seq<ResourceInstance>, id: u32) -> Result<
    ResolvedView,
    BridgeError,
> {
    if id >= table.len() {
        Err(BridgeError::InvalidResourceId)
    } else {
        match table[id as int].handle {
            RuntimeHandle::Owned(s) => Ok(ResolvedView::Transient(s)),
            RuntimeHandle::Borrowed(v) => Ok(ResolvedView::External(v)),
            RuntimeHandle::Null => Err(BridgeError::NullResourceHandle),
        }
    }
}

/// Resolves a resource id from a node argument to the view the node
/// must bind, with an explicit bounds check on the id.
pub fn resolve_view(table: &Vec<ResourceInstance>, id: u32) -> (r: Result<
    ResolvedView,
    BridgeError,
>)
    ensures
        r == spec_resolve_view(table@, id),
{
    if (id as usize) >= table.len() {
        return Err(BridgeError::InvalidResourceId);
    }
    match table[id as usize].handle {
        RuntimeHandle::Owned(s) => Ok(ResolvedView::Transient(s)),
        RuntimeHandle::Borrowed(v) => Ok(ResolvedView::External(v)),
        RuntimeHandle::Null => Err(BridgeError::NullResourceHandle),
    }
}

/// An external resource always resolves to its external view: the
/// recorder reuses it as it is and never derives a transient view from
/// a resource the bridge does not own.
pub proof fn lemma_external_resolves_to_external_view(
    table: Seq<ResourceInstance>,
    arena: BackendArena,
    id: u32,
)
    requires
        crate::resources::spec_handles_wf(table, arena),
        id < table.len(),
        table[id as int].external,
    ensures
        spec_resolve_view(table, id) is Ok,
        spec_resolve_view(table, id)->Ok_0 is External,
{
    assert(table[id as int].wf());
}

/// The node kinds this backend binds command recorders for.
#[derive(Clone, Copy, Debug, PartialEq, Eq, Structural)]
pub enum NodeKind {
    /// Clear a render target to a constant color.
    ClearColor,
    /// Draw the fixed triangle with the triangle pipeline.
    DrawTriangle,
    /// The geometry pass: viewport, per-call push constant, draw.
    GeometryPass,
    /// Sample a source image and blit it into a destination target.
    Upscale,
}

/// One node call as the scheduler presents it: the kind the callback
/// was bound for and the positional raw argument blobs.
#[derive(Debug)]
pub struct NodeInvocation {
    pub kind: NodeKind,
    pub args: Vec<Vec<u8>>,
}

/// The typed description of the backend work one node records.  The
/// backend edge executes it: begin a render pass over the resolved
/// attachment with the stated load policy, bind the node's fixed
/// pipeline, issue the draw, end the pass.
#[derive(Clone, Copy, Debug, PartialEq, Eq, Structural)]
pub enum RecordedCommand {
    /// A pass that clears `target` to `color` (load = clear).
    Clear { target: ResolvedView, color: ClearColorArg },
    /// A pass over `target` (load = load) drawing the fixed triangle.
    Triangle { target: ResolvedView },
    /// A pass over `target` (load = load) with the given viewport,
    /// drawing with a push constant the backend derives from the raw
    /// aspect-ratio and time bits.
    Geometry {
        target: ResolvedView,
        aspect_ratio_bits: u32,
        time_bits: u32,
        viewport: ViewportArg,
    },
    /// A pass over `target` (load = load) sampling `source` with the
    /// blit pipeline.
    Upscale { target: ResolvedView, source: ResolvedView },
}

/// Recording a clear node: an image view and a clear value, then the
/// target resolves against the table.
pub open spec fn spec_record_clear(args: Seq<Vec<u8>>, table: Seq<ResourceInstance>) -> Result<
    RecordedCommand,
    BridgeError,
> {
    if args.len() != 2 {
        Err(BridgeError::ArgumentCountMismatch)
    } else if args[0]@.len() != IMAGE_VIEW_ARG_SIZE {
        Err(BridgeError::ArgumentSizeMismatch)
    } else if args[1]@.len() != CLEAR_COLOR_ARG_SIZE {
        Err(BridgeError::ArgumentSizeMismatch)
    } else {
        match spec_resolve_view(table, spec_image_view_of(args[0]@).resource_id) {
            Ok(target) => Ok(
                RecordedCommand::Clear { target, color: spec_clear_color_of(args[1]@) },
            ),
            Err(e) => Err(e),
        }
    }
}

/// Recording a triangle node: one image view, resolved as the pass's
/// color attachment.
pub open spec fn spec_record_triangle(args: Seq<Vec<u8>>, table: Seq<ResourceInstance>) -> Result<
    RecordedCommand,
    BridgeError,
> {
    if args.len() != 1 {
        Err(BridgeError::ArgumentCountMismatch)
    } else if args[0]@.len() != IMAGE_VIEW_ARG_SIZE {
        Err(BridgeError::ArgumentSizeMismatch)
    } else {
        match spec_resolve_view(table, spec_image_view_of(args[0]@).resource_id) {
            Ok(target) => Ok(RecordedCommand::Triangle { target }),
            Err(e) => Err(e),
        }
    }
}

/// Recording a geometry-pass node: an image view, two scalar floats
/// (carried as bits), and a viewport.
pub open spec fn spec_record_geometry(args: Seq<Vec<u8>>, table: Seq<ResourceInstance>) -> Result<
    RecordedCommand,
    BridgeError,
> {
    if args.len() != 4 {
        Err(BridgeError::ArgumentCountMismatch)
    } else if args[0]@.len() != IMAGE_VIEW_ARG_SIZE {
        Err(BridgeError::ArgumentSizeMismatch)
    } else if args[1]@.len() != SCALAR_ARG_SIZE {
        Err(BridgeError::ArgumentSizeMismatch)
    } else if args[2]@.len() != SCALAR_ARG_SIZE {
        Err(BridgeError::ArgumentSizeMismatch)
    } else if args[3]@.len() != VIEWPORT_ARG_SIZE {
        Err(BridgeError::ArgumentSizeMismatch)
    } else {
        match spec_resolve_view(table, spec_image_view_of(args[0]@).resource_id) {
            Ok(target) => Ok(
                RecordedCommand::Geometry {
                    target,
                    aspect_ratio_bits: spec_le_u32(args[1]@, 0),
                    time_bits: spec_le_u32(args[2]@, 0),
                    viewport: spec_viewport_of(args[3]@),
                },
            ),
            Err(e) => Err(e),
        }
    }
}

/// Recording an upscale node: destination and source image views, the
/// destination resolved first.
pub open spec fn spec_record_upscale(args: Seq<Vec<u8>>, table: Seq<ResourceInstance>) -> Result<
    RecordedCommand,
    BridgeError,
> {
    if args.len() != 2 {
        Err(BridgeError::ArgumentCountMismatch)
    } else if args[0]@.len() != IMAGE_VIEW_ARG_SIZE {
        Err(BridgeError::ArgumentSizeMismatch)
    } else if args[1]@.len() != IMAGE_VIEW_ARG_SIZE {
        Err(BridgeError::ArgumentSizeMismatch)
    } else {
        match spec_resolve_view(table, spec_image_view_of(args[0]@).resource_id) {
            Ok(target) => {
                match spec_resolve_view(table, spec_image_view_of(args[1]@).resource_id) {
                    Ok(source) => Ok(RecordedCommand::Upscale { target, source }),
                    Err(e) => Err(e),
                }
            },
            Err(e) => Err(e),
        }
    }
}

/// What recording one node call yields: the typed command, or the
/// first argument or resolution error in positional order.
pub open spec fn spec_record_node(inv: NodeInvocation, table: Seq<ResourceInstance>) -> Result<
    RecordedCommand,
    BridgeError,
> {
    match inv.kind {
        NodeKind::ClearColor => spec_record_clear(inv.args@, table),
        NodeKind::DrawTriangle => spec_record_triangle(inv.args@, table),
        NodeKind::GeometryPass => spec_record_geometry(inv.args@, table),
        NodeKind::Upscale => spec_record_upscale(inv.args@, table),
    }
}

/// Records one node call against the current resource table.
pub fn record_node(inv: &NodeInvocation, table: &Vec<ResourceInstance>) -> (r: Result<
    RecordedCommand,
    BridgeError,
>)
    ensures
        r == spec_record_node(*inv, table@),
{
    match inv.kind {
        NodeKind::ClearColor => {
            if inv.args.len() != 2 {
                return Err(BridgeError::ArgumentCountMismatch);
            }
            let view = match decode_image_view(&inv.args[0]) {
                Ok(v) => v,
                Err(e) => { return Err(e) },
            };
            let color = match decode_clear_color(&inv.args[1]) {
                Ok(v) => v,
                Err(e) => { return Err(e) },
            };
            match resolve_view(table, view.resource_id) {
                Ok(target) => Ok(RecordedCommand::Clear { target, color }),
                Err(e) => Err(e),
            }
        },
        NodeKind::DrawTriangle => {
            if inv.args.len() != 1 {
                return Err(BridgeError::ArgumentCountMismatch);
            }
            let view = match decode_image_view(&inv.args[0]) {
                Ok(v) => v,
                Err(e) => { return Err(e) },
            };
            match resolve_view(table, view.resource_id) {
                Ok(target) => Ok(RecordedCommand::Triangle { target }),
                Err(e) => Err(e),
            }
        },
        NodeKind::GeometryPass => {
            if inv.args.len() != 4 {
                return Err(BridgeError::ArgumentCountMismatch);
            }
            let view = match decode_image_view(&inv.args[0]) {
                Ok(v) => v,
                Err(e) => { return Err(e) },
            };
            let aspect_ratio_bits = match decode_scalar_bits(&inv.args[1]) {
                Ok(v) => v,
                Err(e) => { return Err(e) },
            };
            let time_bits = match decode_scalar_bits(&inv.args[2]) {
                Ok(v) => v,
                Err(e) => { return Err(e) },
            };
            let viewport = match decode_viewport(&inv.args[3]) {
                Ok(v) => v,
                Err(e) => { return Err(e) },
            };
            match resolve_view(table, view.resource_id) {
                Ok(target) => Ok(
                    RecordedCommand::Geometry { target, aspect_ratio_bits, time_bits, viewport },
                ),
                Err(e) => Err(e),
            }
        },
        NodeKind::Upscale => {
            if inv.args.len() != 2 {
                return Err(BridgeError::ArgumentCountMismatch);
            }
            let dest = match decode_image_view(&inv.args[0]) {
                Ok(v) => v,
                Err(e) => { return Err(e) },
            };
            let source = match decode_image_view(&inv.args[1]) {
                Ok(v) => v,
                Err(e) => { return Err(e) },
            };
            let target = match resolve_view(table, dest.resource_id) {
                Ok(v) => v,
                Err(e) => { return Err(e) },
            };
            match resolve_view(table, source.resource_id) {
                Ok(source) => Ok(RecordedCommand::Upscale { target, source }),
                Err(e) => Err(e),
            }
        },
    }
}

/// A contiguous run of the scheduler's flat command list that is
/// recorded into one command buffer.  A batch layout is produced fresh
/// by every update and must not be retained across frames.
#[derive(Clone, Copy, Debug, PartialEq, Eq, Structural)]
pub struct CommandBatch {
    pub begin: u32,
    pub count: u32,
}

/// The first recording error among the batch's nodes at position `k`
/// and later, or success when every remaining node records.
pub open spec fn spec_batch_verdict(
    nodes: Seq<NodeInvocation>,
    table: Seq<ResourceInstance>,
    begin: int,
    count: int,
    k: int,
) -> Result<(), BridgeError>
    decreases count - k,
{
    if k < 0 || k >= count {
        Ok(())
    } else if spec_record_node(nodes[begin + k], table) is Err {
        Err(spec_record_node(nodes[begin + k], table)->Err_0)
    } else {
        spec_batch_verdict(nodes, table, begin, count, k + 1)
    }
}

/// Skipping nodes that record cleanly does not change the verdict.
pub proof fn lemma_batch_verdict_skip(
    nodes: Seq<NodeInvocation>,
    table: Seq<ResourceInstance>,
    begin: int,
    count: int,
    i: int,
    j: int,
)
    requires
        0 <= i <= j <= count,
        forall|k: int|
            i <= k < j ==> spec_record_node(#[trigger] nodes[begin + k], table) is Ok,
    ensures
        spec_batch_verdict(nodes, table, begin, count, i) == spec_batch_verdict(
            nodes,
            table,
            begin,
            count,
            j,
        ),
    decreases j - i,
{
    if i < j {
        lemma_batch_verdict_skip(nodes, table, begin, count, i + 1, j);
    }
}

pub proof fn lemma_batch_verdict_ok_iff(
    nodes: Seq<NodeInvocation>,
    table: Seq<ResourceInstance>,
    begin: int,
    count: int,
    k: int,
)
    requires
        0 <= k,
    ensures
        spec_batch_verdict(nodes, table, begin, count, k) is Ok <==> (forall|j: int|
            k <= j < count ==> spec_record_node(#[trigger] nodes[begin + j], table) is Ok),
    decreases count - k,
{
    if k < count {
        lemma_batch_verdict_ok_iff(nodes, table, begin, count, k + 1);
    }
}

/// Records every node of one batch, in node order, into one command
/// buffer's worth of typed commands.
///
/// A batch that reaches outside the command list is a bridge bug and is
/// rejected by an explicit bounds check.  Otherwise the result holds
/// exactly the commands of nodes `begin .. begin + count`, in that
/// order, or the first node's recording error.
pub fn record_batch(
    nodes: &Vec<NodeInvocation>,
    batch: CommandBatch,
    table: &Vec<ResourceInstance>,
) -> (r: Result<Vec<RecordedCommand>, BridgeError>)
    ensures
        batch.begin + batch.count > nodes@.len() ==> r is Err && r->Err_0
            == BridgeError::InvalidBatchRange,
        batch.begin + batch.count <= nodes@.len() ==> {
            let verdict = spec_batch_verdict(
                nodes@,
                table@,
                batch.begin as int,
                batch.count as int,
                0,
            );
            &&& (r is Ok <==> verdict is Ok)
            &&& (r is Err ==> r->Err_0 == verdict->Err_0)
            &&& (r is Ok ==> r->Ok_0@.len() == batch.count)
            &&& (r is Ok ==> forall|k: int|
                0 <= k < batch.count ==> r->Ok_0@[k] == spec_record_node(
                    #[trigger] nodes@[batch.begin + k],
                    table@,
                )->Ok_0)
        },
{
    let begin = batch.begin as usize;
    let count = batch.count as usize;
    let n = nodes.len();
    if begin > n || count > n - begin {
        return Err(BridgeError::InvalidBatchRange);
    }
    let mut out: Vec<RecordedCommand> = Vec::new();
    let mut k: usize = 0;
    while k < count
        invariant
            begin == batch.begin as int,
            count == batch.count as int,
            begin + count <= nodes@.len(),
            k <= count,
            out@.len() == k,
            forall|j: int|
                0 <= j < k ==> spec_record_node(#[trigger] nodes@[begin + j], table@) is Ok,
            forall|j: int|
                0 <= j < k ==> out@[j] == spec_record_node(
                    #[trigger] nodes@[begin + j],
                    table@,
                )->Ok_0,
        decreases count - k,
    {
        proof {
            vstd::std_specs::vec::axiom_spec_len(nodes);
        }
        match record_node(&nodes[begin + k], table) {
            Ok(cmd) => {
                out.push(cmd);
            },
            Err(e) => {
                proof {
                    lemma_batch_verdict_skip(
                        nodes@,
                        table@,
                        begin as int,
                        count as int,
                        0,
                        k as int,
                    );
                }
                return Err(e);
            },
        }
        k += 1;
    }
    proof {
        lemma_batch_verdict_ok_iff(nodes@, table@, begin as int, count as int, 0);
    }
    Ok(out)
}

/// Whether one batch records cleanly against the command list and the
/// table.
pub open spec fn spec_batch_ok(
    nodes: Seq<NodeInvocation>,
    table: Seq<ResourceInstance>,
    batch: CommandBatch,
) -> bool {
    &&& batch.begin + batch.count <= nodes.len()
    &&& spec_batch_verdict(nodes, table, batch.begin as int, batch.count as int, 0) is Ok
}

/// The error one failing batch reports.
pub open spec fn spec_batch_error(
    nodes: Seq<NodeInvocation>,
    table: Seq<ResourceInstance>,
    batch: CommandBatch,
) -> BridgeError {
    if batch.begin + batch.count > nodes.len() {
        BridgeError::InvalidBatchRange
    } else {
        spec_batch_verdict(nodes, table, batch.begin as int, batch.count as int, 0)->Err_0
    }
}

/// The first failing batch's error at position `b` and later, or
/// success when every remaining batch records.
pub open spec fn spec_frame_verdict(
    nodes: Seq<NodeInvocation>,
    table: Seq<ResourceInstance>,
    batches: Seq<CommandBatch>,
    b: int,
) -> Result<(), BridgeError>
    decreases batches.len() - b,
{
    if b < 0 || b >= batches.len() {
        Ok(())
    } else if !spec_batch_ok(nodes, table, batches[b]) {
        Err(spec_batch_error(nodes, table, batches[b]))
    } else {
        spec_frame_verdict(nodes, table, batches, b + 1)
    }
}

pub proof fn lemma_frame_verdict_skip(
    nodes: Seq<NodeInvocation>,
    table: Seq<ResourceInstance>,
    batches: Seq<CommandBatch>,
    i: int,
    j: int,
)
    requires
        0 <= i <= j <= batches.len(),
        forall|b: int| i <= b < j ==> spec_batch_ok(nodes, table, #[trigger] batches[b]),
    ensures
        spec_frame_verdict(nodes, table, batches, i) == spec_frame_verdict(
            nodes,
            table,
            batches,
            j,
        ),
    decreases j - i,
{
    if i < j {
        lemma_frame_verdict_skip(nodes, table, batches, i + 1, j);
    }
}

pub proof fn lemma_frame_verdict_ok_iff(
    nodes: Seq<NodeInvocation>,
    table: Seq<ResourceInstance>,
    batches: Seq<CommandBatch>,
    b: int,
)
    requires
        0 <= b,
    ensures
        spec_frame_verdict(nodes, table, batches, b) is Ok <==> (forall|c: int|
            b <= c < batches.len() ==> spec_batch_ok(nodes, table, #[trigger] batches[c])),
    decreases batches.len() - b,
{
    if b < batches.len() {
        lemma_frame_verdict_ok_iff(nodes, table, batches, b + 1);
    }
}

/// Records a whole frame: one command buffer per batch, batches taken
/// in the order the scheduler returned them — that order encodes the
/// required execution order, so the caller must submit buffer `b`
/// before buffer `b + 1`.
///
/// On success the result has exactly one buffer per batch and buffer
/// `b` holds the commands of nodes `begin .. begin + count` of batch
/// `b` in node order.  A failing batch aborts the frame with that
/// batch's first error.
pub fn record_frame(
    nodes: &Vec<NodeInvocation>,
    batches: &Vec<CommandBatch>,
    table: &Vec<ResourceInstance>,
) -> (r: Result<Vec<Vec<RecordedCommand>>, BridgeError>)
    ensures
        r is Ok <==> spec_frame_verdict(nodes@, table@, batches@, 0) is Ok,
        r is Err ==> r->Err_0 == spec_frame_verdict(nodes@, table@, batches@, 0)->Err_0,
        r is Ok ==> r->Ok_0@.len() == batches@.len(),
        r is Ok ==> forall|b: int|
            0 <= b < batches@.len() ==> #[trigger] r->Ok_0@[b]@.len() == batches@[b].count,
        r is Ok ==> forall|b: int, k: int|
            0 <= b < batches@.len() && 0 <= k < batches@[b].count ==> #[trigger] r->Ok_0@[b]@[k]
                == spec_record_node(nodes@[batches@[b].begin + k], table@)->Ok_0,
{
    let mut out: Vec<Vec<RecordedCommand>> = Vec::new();
    let mut b: usize = 0;
    let m = batches.len();
    while b < m
        invariant
            m == batches@.len(),
            b <= m,
            out@.len() == b,
            forall|c: int| 0 <= c < b ==> spec_batch_ok(nodes@, table@, #[trigger] batches@[c]),
            forall|c: int| 0 <= c < b ==> #[trigger] out@[c]@.len() == batches@[c].count,
            forall|c: int, k: int|
                0 <= c < b && 0 <= k < batches@[c].count ==> #[trigger] out@[c]@[k]
                    == spec_record_node(nodes@[batches@[c].begin + k], table@)->Ok_0,
        decreases m - b,
    {
        let batch = batches[b];
        match record_batch(nodes, batch, table) {
            Ok(buffer) => {
                out.push(buffer);
            },
            Err(e) => {
                proof {
                    lemma_frame_verdict_skip(nodes@, table@, batches@, 0, b as int);
                    assert(!spec_batch_ok(nodes@, table@, batches@[b as int]));
                    assert(e == spec_batch_error(nodes@, table@, batches@[b as int]));
                }
                return Err(e);
            },
        }
        b += 1;
    }
    proof {
        lemma_frame_verdict_ok_iff(nodes@, table@, batches@, 0);
    }
    Ok(out)
}

} // verus!
