use vstd::prelude::*;

use crate::geometry::BufferView;
use crate::instance::TopAccelerationStructure;

verus! {

/// A resource that can be bound through a descriptor.
pub trait Descriptor {}

impl Descriptor for BufferView {}

impl Descriptor for TopAccelerationStructure {}

} // verus!
