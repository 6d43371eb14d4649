//! The engine's error taxonomy.
//!
//! All three kinds are fatal for the run they occur in: there is no retry or
//! degraded mode. A kernel either compiles and runs or the engine cannot
//! proceed.

use vstd::prelude::*;

verus! {

/// An unrecoverable engine failure.
#[derive(Clone, Copy, Debug, PartialEq, Eq, Structural)]
pub enum EngineError {
    /// Invalid grid or tile dimensions, rejected at construction before any
    /// buffer is allocated.
    InvalidConfig,
    /// A kernel failed to compile while the pipeline was still loading.
    /// The host that polled the compiler holds the diagnostic text.
    KernelCompileFailed,
    /// A dispatch failed to submit or execute on the host's backend. The
    /// engine itself never raises this; it is reserved for a host whose
    /// dispatch layer can fail.
    GpuSubmissionFailed,
}

} // verus!
