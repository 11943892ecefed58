//! The primary processing contract of the transport's components.

use vstd::prelude::*;

verus! {

/// A processing unit of the egress transport.
pub trait Processor: Send + Sync {
    /// Identify this processing unit.
    fn describe(&self) -> &'static str;
}

} // verus!
