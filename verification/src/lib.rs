//! A typed, resource-safe layer over a handle-based native inference engine.
//!
//! The native engine is reached through an unsafe C-style call surface that
//! hands out opaque pointers and status codes.  This crate holds the verified
//! half of that layer: the ownership model for native handles, the element-kind
//! and dimension model, the tensor value variant with its string decoding
//! path, and the session bookkeeping that orders inputs and outputs.  The
//! unverifiable half -- the raw foreign calls themselves -- stays outside and
//! feeds this crate plain values (pointer words, status codes, byte buffers).

use vstd::prelude::*;

pub mod edge_info;
pub mod error;
pub mod protos;
pub mod session;
pub mod tensor;
pub mod type_info;
pub mod utils;
pub mod value;

verus! {

/// Version of the native call surface this layer is written against.
pub const API_VERSION: u32 = 16;

/// The kind of native resource a handle refers to.
///
/// Every handle is released through a kind-specific destructor, so the kind
/// travels with the handle and with every release action derived from it.
#[derive(Clone, Copy, Debug, PartialEq, Eq, Structural)]
pub enum ResourceKind {
    /// The process-scoped runtime environment.
    Env,
    /// Transient configuration for session construction.
    SessionOptions,
    /// A loaded computation graph ready to execute.
    Session,
    /// Transient configuration for a single run call.
    RunOptions,
    /// A memory-placement descriptor.
    MemoryInfo,
    /// A tensor value owned by the engine.
    Value,
    /// A type/shape description object.
    TypeInfo,
    /// A model metadata object.
    ModelMetadata,
    /// A character buffer owned by the engine's allocator.
    AllocatedChars,
}

impl ResourceKind {
    /// Whether the engine documents this resource kind as safe to share
    /// across threads.  Only the environment and the session (for concurrent
    /// read-only run calls) are documented thread-safe; every other kind must
    /// stay confined to one thread.
    pub open spec fn spec_thread_shareable(&self) -> bool {
        match self {
            ResourceKind::Env => true,
            ResourceKind::Session => true,
            _ => false,
        }
    }

    /// Per-kind capability flag for cross-thread sharing.
    pub fn thread_shareable(&self) -> (r: bool)
        ensures
            r == self.spec_thread_shareable(),
    {
        match self {
            ResourceKind::Env => true,
            ResourceKind::Session => true,
            _ => false,
        }
    }
}

/// An instruction to invoke the destructor for one native resource.
///
/// The verified layer never calls a destructor itself; it emits one
/// `ReleaseAction` per owned handle, and the surrounding code performs them.
#[derive(Clone, Copy, Debug, PartialEq, Eq, Structural)]
pub struct ReleaseAction {
    /// The pointer word of the resource to destroy.
    pub raw: usize,
    /// Which destructor to use.
    pub kind: ResourceKind,
}

/// Exclusive ownership of one opaque native resource.
///
/// A `Wrapper` records the pointer word of a native object together with the
/// kind that selects its destructor.  It is neither `Clone` nor `Copy`, and
/// [`Wrapper::release`] consumes it, so each wrapper yields exactly one
/// release action over its lifetime and the pointer cannot be read afterward.
/// The pointer is never null.
#[derive(Debug)]
pub struct Wrapper {
    raw: usize,
    kind: ResourceKind,
}

impl Wrapper {
    /// The pointer word held by this wrapper.
    pub closed spec fn spec_raw(&self) -> usize {
        self.raw
    }

    /// The resource kind held by this wrapper.
    pub closed spec fn spec_kind(&self) -> ResourceKind {
        self.kind
    }

    /// A wrapper never holds a null pointer.
    pub open spec fn wf(&self) -> bool {
        self.spec_raw() != 0
    }

    /// Takes ownership of a native resource that a successful engine call
    /// just produced.
    pub fn new(raw: usize, kind: ResourceKind) -> (r: Self)
        requires
            raw != 0,
        ensures
            r.spec_raw() == raw,
            r.spec_kind() == kind,
            r.wf(),
    {
        Wrapper { raw, kind }
    }

    /// The pointer word, for handing to an engine call on the live resource.
    pub fn raw(&self) -> (r: usize)
        ensures
            r == self.spec_raw(),
    {
        self.raw
    }

    /// The resource kind.
    pub fn kind(&self) -> (r: ResourceKind)
        ensures
            r == self.spec_kind(),
    {
        self.kind
    }

    /// The release action this wrapper will produce when released.
    pub open spec fn spec_release_action(&self) -> ReleaseAction {
        ReleaseAction { raw: self.spec_raw(), kind: self.spec_kind() }
    }

    /// Gives up ownership, producing the one release action for this
    /// resource.  Consuming `self` is what makes the release exactly-once:
    /// a released wrapper no longer exists, so neither a second release nor
    /// a use of the dangling pointer can be written.
    pub fn release(self) -> (r: ReleaseAction)
        ensures
            r == self.spec_release_action(),
    {
        ReleaseAction { raw: self.raw, kind: self.kind }
    }
}

} // verus!
