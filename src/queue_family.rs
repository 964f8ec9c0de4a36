use vstd::prelude::*;

verus! {

/// What one queue family of a physical device can do.
#[derive(Debug, Clone, Copy, PartialEq, Eq, Structural)]
pub struct QueueFamilyProperties {
    pub index: u32,
    pub support_graphics: bool,
    pub support_compute: bool,
    pub support_transfer: bool,
    pub count: u32,
}

impl QueueFamilyProperties {
    pub fn support_graphics(&self) -> (r: bool)
        ensures
            r == self.support_graphics,
    {
        self.support_graphics
    }

    pub fn support_compute(&self) -> (r: bool)
        ensures
            r == self.support_compute,
    {
        self.support_compute
    }

    pub fn support_transfer(&self) -> (r: bool)
        ensures
            r == self.support_transfer,
    {
        self.support_transfer
    }
}

/// What a queue family is picked for.
#[derive(Debug, Clone, Copy, PartialEq, Eq, Structural)]
pub enum QueueRole {
    /// Any family that supports graphics.
    Graphics,
    /// A family that supports compute but not graphics.
    Compute,
    /// A family dedicated to transfers: neither graphics nor compute.
    Transfer,
}

impl QueueRole {
    pub open spec fn accepts(self, f: QueueFamilyProperties) -> bool {
        match self {
            QueueRole::Graphics => f.support_graphics,
            QueueRole::Compute => f.support_compute && !f.support_graphics,
            QueueRole::Transfer => f.support_transfer && !f.support_graphics && !f.support_compute,
        }
    }
}

/// The first of `families` that fits `role`, if any does.
pub fn find_queue_family(families: &[QueueFamilyProperties], role: QueueRole) -> (r: Option<QueueFamilyProperties>)
    ensures
        r matches Some(f) ==> exists|i: int|
            0 <= i < families@.len() && families@[i] == f && role.accepts(f) && forall|j: int|
                0 <= j < i ==> !role.accepts(#[trigger] families@[j]),
        r is None ==> forall|j: int| 0 <= j < families@.len() ==> !role.accepts(#[trigger] families@[j]),
{
    let mut i: usize = 0;
    while i < families.len()
        invariant
            i <= families@.len(),
            forall|j: int| 0 <= j < i ==> !role.accepts(#[trigger] families@[j]),
        decreases families@.len() - i,
    {
        let f = families[i];
        let fits = match role {
            QueueRole::Graphics => f.support_graphics,
            QueueRole::Compute => f.support_compute && !f.support_graphics,
            QueueRole::Transfer => f.support_transfer && !f.support_graphics && !f.support_compute,
        };
        if fits {
            return Some(f);
        }
        i = i + 1;
    }
    None
}

} // verus!
