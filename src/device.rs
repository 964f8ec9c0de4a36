use vstd::prelude::*;

verus! {

/// Optional device features to enable; none are selectable yet.
#[derive(Debug, Clone, Copy, Default)]
pub struct DeviceFeatures {}

} // verus!
