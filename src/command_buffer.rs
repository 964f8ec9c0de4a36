use vstd::prelude::*;

verus! {

/// A resource that a command buffer keeps alive while its commands run.
pub trait CommandBufferResource {}

} // verus!
