//! The bridge's error taxonomy.
//!
//! Errors fall into three classes: configuration errors (the graph asks
//! for something this backend cannot provide; fatal for the run),
//! scheduler-reported failures (fatal for the current frame only), and
//! invariant violations (the bridge and the scheduler disagree about the
//! graph contract; a programming bug, fatal immediately).

use vstd::prelude::*;

verus! {

/// An error surfaced by the bridge.
#[derive(Clone, Copy, Debug, PartialEq, Eq, Structural)]
pub enum BridgeError {
    /// A resource kind this backend has no allocation strategy for.
    UnsupportedResourceKind,
    /// A pixel format outside the supported translation table.
    UnsupportedFormat,
    /// The scheduler reported a failure; the code is its status value.
    SchedulerFailure(i32),
    /// Deferred destruction was requested for an externally owned resource.
    ExternalResourceDestroyed,
    /// A resource id does not index into the current resource table.
    InvalidResourceId,
    /// A command batch reaches outside the scheduler's command list.
    InvalidBatchRange,
    /// A node argument referred to a resource with no backing object.
    NullResourceHandle,
    /// An owned handle pointed at an arena slot that is absent or retired.
    StaleResourceHandle,
    /// A node was invoked with the wrong number of arguments.
    ArgumentCountMismatch,
    /// A raw node argument does not have the size its declared type needs.
    ArgumentSizeMismatch,
}

/// How severe an error is, and what the frame loop should do about it.
#[derive(Clone, Copy, Debug, PartialEq, Eq, Structural)]
pub enum ErrorClass {
    /// The graph and the backend disagree; rendering must not continue.
    Configuration,
    /// The current frame is dropped; the loop continues with the next tick.
    FrameFatal,
    /// The bridge and the scheduler disagree about the graph contract;
    /// no safe recovery is possible.
    InvariantViolation,
}

/// The class a given error belongs to.
pub open spec fn spec_classify(e: BridgeError) -> ErrorClass {
    match e {
        BridgeError::UnsupportedResourceKind => ErrorClass::Configuration,
        BridgeError::UnsupportedFormat => ErrorClass::Configuration,
        BridgeError::SchedulerFailure(_) => ErrorClass::FrameFatal,
        BridgeError::ExternalResourceDestroyed => ErrorClass::InvariantViolation,
        BridgeError::InvalidResourceId => ErrorClass::InvariantViolation,
        BridgeError::InvalidBatchRange => ErrorClass::InvariantViolation,
        BridgeError::NullResourceHandle => ErrorClass::InvariantViolation,
        BridgeError::StaleResourceHandle => ErrorClass::InvariantViolation,
        BridgeError::ArgumentCountMismatch => ErrorClass::InvariantViolation,
        BridgeError::ArgumentSizeMismatch => ErrorClass::InvariantViolation,
    }
}

/// Classifies an error for the frame loop.
pub fn classify(e: BridgeError) -> (c: ErrorClass)
    ensures
        c == spec_classify(e),
{
    match e {
        BridgeError::UnsupportedResourceKind => ErrorClass::Configuration,
        BridgeError::UnsupportedFormat => ErrorClass::Configuration,
        BridgeError::SchedulerFailure(_) => ErrorClass::FrameFatal,
        BridgeError::ExternalResourceDestroyed => ErrorClass::InvariantViolation,
        BridgeError::InvalidResourceId => ErrorClass::InvariantViolation,
        BridgeError::InvalidBatchRange => ErrorClass::InvariantViolation,
        BridgeError::NullResourceHandle => ErrorClass::InvariantViolation,
        BridgeError::StaleResourceHandle => ErrorClass::InvariantViolation,
        BridgeError::ArgumentCountMismatch => ErrorClass::InvariantViolation,
        BridgeError::ArgumentSizeMismatch => ErrorClass::InvariantViolation,
    }
}

} // verus!
