use vstd::prelude::*;

use crate::error::{RtError, ValidationError};
use crate::geometry::{AABBGeometry, BuildRangeInfo, GeometryRecord, TriangleGeometry};

verus! {

/// The level of an acceleration structure.
#[derive(Debug, Clone, Copy, PartialEq, Eq, Structural)]
pub enum AccelerationStructureKind {
    BottomLevel,
    TopLevel,
}

/// What the driver reports a build needs.
#[derive(Debug, Clone, Copy, PartialEq, Eq, Structural)]
pub struct BuildSizes {
    pub acceleration_structure_size: u64,
    pub build_scratch_size: u64,
}

/// Where a build stands. The steps run in this order; a failure at any step
/// is final.
#[derive(Debug, Clone, Copy, PartialEq, Eq, Structural)]
pub enum BuildPhase {
    /// The sizes of the structure and of its scratch memory are being queried.
    QueryingSizes,
    /// The result buffer and the empty structure object are being created.
    CreatingStructure,
    /// The scratch buffer is being allocated.
    AllocatingScratch,
    /// The build command was submitted; the caller blocks on its fence.
    AwaitingCompletion,
    /// The build finished on the device; its device address is being queried.
    ResolvingAddress,
    /// The structure is built and its device address is known.
    Built,
    Failed(RtError),
}

/// What the caller observed after performing the last action.
#[derive(Debug, Clone, Copy, PartialEq, Eq, Structural)]
pub enum BuildEvent {
    SizesQueried(BuildSizes),
    StructureCreated { handle: u64 },
    ScratchAllocated { device_address: u64 },
    /// The build's fence signalled.
    Completed,
    AddressResolved { device_address: u64 },
    /// The driver or the allocator failed.
    DeviceFailed,
}

/// What the caller must do next.
#[derive(Debug, Clone, Copy, PartialEq, Eq, Structural)]
pub enum BuildAction {
    /// Allocate a device-local result buffer of `size` bytes and create an
    /// empty structure object bound to it.
    CreateStructure { size: u64 },
    /// Allocate a device-local scratch buffer of `size` bytes.
    AllocateScratch { size: u64 },
    /// Record one build of all geometries into `structure` with scratch
    /// memory at `scratch_address`, submit it on a compute-capable queue and
    /// block until its fence signals.
    SubmitAndWait { structure: u64, scratch_address: u64 },
    /// Query the device address of `structure`.
    ResolveAddress { structure: u64 },
    /// The structure is ready.
    Finished,
    Abort(RtError),
}

/// The values a build has gathered so far.
#[derive(Debug, Clone, Copy, PartialEq, Eq, Structural)]
pub struct BuildState {
    pub phase: BuildPhase,
    pub sizes: BuildSizes,
    pub handle: u64,
    pub scratch_address: u64,
    pub device_address: u64,
}

pub open spec fn initial_state() -> BuildState {
    BuildState {
        phase: BuildPhase::QueryingSizes,
        sizes: BuildSizes { acceleration_structure_size: 0, build_scratch_size: 0 },
        handle: 0,
        scratch_address: 0,
        device_address: 0,
    }
}

pub open spec fn fail(s: BuildState, e: RtError) -> (BuildState, BuildAction) {
    (BuildState { phase: BuildPhase::Failed(e), ..s }, BuildAction::Abort(e))
}

/// One step of the build protocol. A device failure, a zero structure size
/// or a zero device address fails the build with `DeviceError`; an event
/// that does not answer the current step fails it with `InvalidState`. A
/// finished or failed build stays as it is.
pub open spec fn next_state(s: BuildState, e: BuildEvent) -> (BuildState, BuildAction) {
    match s.phase {
        BuildPhase::Built => (s, BuildAction::Finished),
        BuildPhase::Failed(err) => (s, BuildAction::Abort(err)),
        _ => match e {
            BuildEvent::DeviceFailed => fail(s, RtError::DeviceError),
            BuildEvent::SizesQueried(sizes) => if s.phase is QueryingSizes {
                if sizes.acceleration_structure_size == 0 {
                    fail(s, RtError::DeviceError)
                } else {
                    (
                        BuildState { phase: BuildPhase::CreatingStructure, sizes, ..s },
                        BuildAction::CreateStructure { size: sizes.acceleration_structure_size },
                    )
                }
            } else {
                fail(s, RtError::Validation(ValidationError::InvalidState))
            },
            BuildEvent::StructureCreated { handle } => if s.phase is CreatingStructure {
                (
                    BuildState { phase: BuildPhase::AllocatingScratch, handle, ..s },
                    BuildAction::AllocateScratch { size: s.sizes.build_scratch_size },
                )
            } else {
                fail(s, RtError::Validation(ValidationError::InvalidState))
            },
            BuildEvent::ScratchAllocated { device_address } => if s.phase is AllocatingScratch {
                (
                    BuildState { phase: BuildPhase::AwaitingCompletion, scratch_address: device_address, ..s },
                    BuildAction::SubmitAndWait { structure: s.handle, scratch_address: device_address },
                )
            } else {
                fail(s, RtError::Validation(ValidationError::InvalidState))
            },
            BuildEvent::Completed => if s.phase is AwaitingCompletion {
                (BuildState { phase: BuildPhase::ResolvingAddress, ..s }, BuildAction::ResolveAddress { structure: s.handle })
            } else {
                fail(s, RtError::Validation(ValidationError::InvalidState))
            },
            BuildEvent::AddressResolved { device_address } => if s.phase is ResolvingAddress {
                if device_address == 0 {
                    fail(s, RtError::DeviceError)
                } else {
                    (BuildState { phase: BuildPhase::Built, device_address, ..s }, BuildAction::Finished)
                }
            } else {
                fail(s, RtError::Validation(ValidationError::InvalidState))
            },
        },
    }
}

/// The state reached from `s` after the events `events`, in order.
pub open spec fn run(s: BuildState, events: Seq<BuildEvent>) -> BuildState
    decreases events.len(),
{
    if events.len() == 0 {
        s
    } else {
        next_state(run(s, events.drop_last()), events.last()).0
    }
}

/// A built acceleration structure: its native handle, the size of its
/// result buffer and its device address.
#[derive(Debug, Clone, Copy, PartialEq, Eq, Structural)]
pub struct AccelerationStructure {
    pub kind: AccelerationStructureKind,
    pub handle: u64,
    pub structure_size: u64,
    pub device_address: u64,
}

impl AccelerationStructure {
    pub open spec fn wf(&self) -> bool {
        &&& self.structure_size > 0
        &&& self.device_address != 0
    }

    pub fn device_address(&self) -> (r: u64)
        ensures
            r == self.device_address,
    {
        self.device_address
    }
}

/// One acceleration-structure build, from the size query to the resolved
/// device address. The caller performs each action against the device and
/// reports what came of it with `step`.
pub struct AccelerationStructureBuild {
    pub kind: AccelerationStructureKind,
    pub geometries: Vec<GeometryRecord>,
    pub build_range_infos: Vec<BuildRangeInfo>,
    pub state: BuildState,
}

impl AccelerationStructureBuild {
    pub open spec fn wf(&self) -> bool {
        self.geometries@.len() == self.build_range_infos@.len()
    }

    /// A build of `geometries`, each read over the range of the same
    /// position in `build_range_infos`. Its first step is the size query.
    pub fn new(
        kind: AccelerationStructureKind,
        geometries: Vec<GeometryRecord>,
        build_range_infos: Vec<BuildRangeInfo>,
    ) -> (r: Self)
        requires
            geometries@.len() == build_range_infos@.len(),
        ensures
            r.wf(),
            r.kind == kind,
            r.geometries@ == geometries@,
            r.build_range_infos@ == build_range_infos@,
            r.state == initial_state(),
    {
        AccelerationStructureBuild {
            kind,
            geometries,
            build_range_infos,
            state: BuildState {
                phase: BuildPhase::QueryingSizes,
                sizes: BuildSizes { acceleration_structure_size: 0, build_scratch_size: 0 },
                handle: 0,
                scratch_address: 0,
                device_address: 0,
            },
        }
    }

    /// The primitive count of each geometry, as the size query takes them.
    pub fn primitive_counts(&self) -> (r: Vec<u32>)
        ensures
            r@.len() == self.build_range_infos@.len(),
            forall|i: int| 0 <= i < r@.len() ==> #[trigger] r@[i] == self.build_range_infos@[i].primitive_count,
    {
        let mut r: Vec<u32> = Vec::new();
        let mut i: usize = 0;
        while i < self.build_range_infos.len()
            invariant
                i <= self.build_range_infos@.len(),
                r@.len() == i,
                forall|j: int| 0 <= j < i ==> #[trigger] r@[j] == self.build_range_infos@[j].primitive_count,
            decreases self.build_range_infos@.len() - i,
        {
            r.push(self.build_range_infos[i].primitive_count);
            i = i + 1;
        }
        r
    }

    fn fail_with(&mut self, e: RtError) -> (a: BuildAction)
        ensures
            (final(self).state, a) == fail(old(self).state, e),
            final(self).kind == old(self).kind,
            final(self).geometries == old(self).geometries,
            final(self).build_range_infos == old(self).build_range_infos,
    {
        self.state.phase = BuildPhase::Failed(e);
        BuildAction::Abort(e)
    }

    /// Advances the build by what the caller observed, and says what to do
    /// next.
    pub fn step(&mut self, event: BuildEvent) -> (a: BuildAction)
        ensures
            (final(self).state, a) == next_state(old(self).state, event),
            final(self).kind == old(self).kind,
            final(self).geometries == old(self).geometries,
            final(self).build_range_infos == old(self).build_range_infos,
    {
        match self.state.phase {
            BuildPhase::Built => {
                return BuildAction::Finished;
            },
            BuildPhase::Failed(err) => {
                return BuildAction::Abort(err);
            },
            _ => {},
        }
        match event {
            BuildEvent::DeviceFailed => self.fail_with(RtError::DeviceError),
            BuildEvent::SizesQueried(sizes) => {
                if !matches!(self.state.phase, BuildPhase::QueryingSizes) {
                    self.fail_with(RtError::Validation(ValidationError::InvalidState))
                } else if sizes.acceleration_structure_size == 0 {
                    self.fail_with(RtError::DeviceError)
                } else {
                    self.state.phase = BuildPhase::CreatingStructure;
                    self.state.sizes = sizes;
                    BuildAction::CreateStructure { size: sizes.acceleration_structure_size }
                }
            },
            BuildEvent::StructureCreated { handle } => {
                if !matches!(self.state.phase, BuildPhase::CreatingStructure) {
                    self.fail_with(RtError::Validation(ValidationError::InvalidState))
                } else {
                    self.state.phase = BuildPhase::AllocatingScratch;
                    self.state.handle = handle;
                    BuildAction::AllocateScratch { size: self.state.sizes.build_scratch_size }
                }
            },
            BuildEvent::ScratchAllocated { device_address } => {
                if !matches!(self.state.phase, BuildPhase::AllocatingScratch) {
                    self.fail_with(RtError::Validation(ValidationError::InvalidState))
                } else {
                    self.state.phase = BuildPhase::AwaitingCompletion;
                    self.state.scratch_address = device_address;
                    BuildAction::SubmitAndWait { structure: self.state.handle, scratch_address: device_address }
                }
            },
            BuildEvent::Completed => {
                if !matches!(self.state.phase, BuildPhase::AwaitingCompletion) {
                    self.fail_with(RtError::Validation(ValidationError::InvalidState))
                } else {
                    self.state.phase = BuildPhase::ResolvingAddress;
                    BuildAction::ResolveAddress { structure: self.state.handle }
                }
            },
            BuildEvent::AddressResolved { device_address } => {
                if !matches!(self.state.phase, BuildPhase::ResolvingAddress) {
                    self.fail_with(RtError::Validation(ValidationError::InvalidState))
                } else if device_address == 0 {
                    self.fail_with(RtError::DeviceError)
                } else {
                    self.state.phase = BuildPhase::Built;
                    self.state.device_address = device_address;
                    BuildAction::Finished
                }
            },
        }
    }

    /// The built structure, once the build has finished.
    pub fn finish(&self) -> (r: Option<AccelerationStructure>)
        ensures
            (r is Some) <==> self.state.phase is Built,
            r matches Some(a) ==> {
                &&& a.kind == self.kind
                &&& a.handle == self.state.handle
                &&& a.structure_size == self.state.sizes.acceleration_structure_size
                &&& a.device_address == self.state.device_address
            },
    {
        if matches!(self.state.phase, BuildPhase::Built) {
            Some(
                AccelerationStructure {
                    kind: self.kind,
                    handle: self.state.handle,
                    structure_size: self.state.sizes.acceleration_structure_size,
                    device_address: self.state.device_address,
                },
            )
        } else {
            None
        }
    }
}

pub open spec fn past_completion(p: BuildPhase) -> bool {
    p is ResolvingAddress || p is Built
}

pub open spec fn sized(p: BuildPhase) -> bool {
    !(p is QueryingSizes) && !(p is Failed)
}

/// Along any run from the initial state, a build whose fence has not been
/// seen to signal is never past completion: a structure is resolved, and
/// handed out, only after an event `Completed` answered the submitted build.
/// A built structure has a non-zero size and device address.
pub proof fn lemma_built_only_after_completion(events: Seq<BuildEvent>)
    ensures
        past_completion(run(initial_state(), events).phase) ==> exists|i: int|
            0 <= i < events.len() && (#[trigger] run(initial_state(), events.take(i))).phase is AwaitingCompletion
                && events[i] is Completed,
        sized(run(initial_state(), events).phase) ==> run(initial_state(), events).sizes.acceleration_structure_size > 0,
        run(initial_state(), events).phase is Built ==> run(initial_state(), events).device_address != 0,
    decreases events.len(),
{
    if events.len() > 0 {
        let prev = events.drop_last();
        lemma_built_only_after_completion(prev);
        let n = events.len() - 1;
        assert(events.take(n) =~= prev);
        if past_completion(run(initial_state(), events).phase) {
            if past_completion(run(initial_state(), prev).phase) {
                let i = choose|i: int|
                    0 <= i < prev.len() && (#[trigger] run(initial_state(), prev.take(i))).phase is AwaitingCompletion
                        && prev[i] is Completed;
                assert(prev.take(i) =~= events.take(i));
                assert(run(initial_state(), events.take(i)).phase is AwaitingCompletion && events[i] is Completed);
            } else {
                assert(run(initial_state(), events.take(n)).phase is AwaitingCompletion && events[n] is Completed);
            }
        }
    }
}

/// The build's steps come in their order: each non-failing step leaves the
/// phase that answers it, and a submit is asked for exactly when the scratch
/// buffer has been allocated.
pub proof fn lemma_step_order(s: BuildState, e: BuildEvent)
    ensures
        ({
            let (t, a) = next_state(s, e);
            &&& (a is SubmitAndWait) <==> (s.phase is AllocatingScratch && e is ScratchAllocated)
            &&& t.phase is AwaitingCompletion ==> (s.phase is AllocatingScratch && e is ScratchAllocated)
            &&& t.phase is ResolvingAddress ==> (s.phase is AwaitingCompletion && e is Completed)
            &&& t.phase is Built ==> ((s.phase is ResolvingAddress && e is AddressResolved) || s.phase is Built)
        }),
{
}

/// The structure that a build finished with, if it finished as a structure
/// of `kind` with a non-zero size and device address.
pub open spec fn built_structure(b: AccelerationStructureBuild, kind: AccelerationStructureKind) -> Option<
    AccelerationStructure,
> {
    if b.state.phase is Built && b.kind == kind && b.state.sizes.acceleration_structure_size > 0
        && b.state.device_address != 0 {
        Some(
            AccelerationStructure {
                kind,
                handle: b.state.handle,
                structure_size: b.state.sizes.acceleration_structure_size,
                device_address: b.state.device_address,
            },
        )
    } else {
        None
    }
}

fn take_built(build: &AccelerationStructureBuild, kind: AccelerationStructureKind) -> (r: Option<
    AccelerationStructure,
>)
    ensures
        r == built_structure(*build, kind),
{
    match build.finish() {
        Some(a) => {
            if a.kind == kind && a.structure_size > 0 && a.device_address != 0 {
                Some(a)
            } else {
                None
            }
        },
        None => None,
    }
}

/// A built bottom-level acceleration structure over triangle meshes or boxes.
#[derive(Debug, Clone, Copy, PartialEq, Eq, Structural)]
pub struct BottomAccelerationStructure {
    pub structure: AccelerationStructure,
}

impl BottomAccelerationStructure {
    pub open spec fn wf(&self) -> bool {
        &&& self.structure.wf()
        &&& self.structure.kind == AccelerationStructureKind::BottomLevel
    }

    /// A bottom-level build over triangle meshes.
    pub fn triangles_build(geometries: &[TriangleGeometry]) -> (r: AccelerationStructureBuild)
        ensures
            r.wf(),
            r.kind == AccelerationStructureKind::BottomLevel,
            r.state == initial_state(),
            r.geometries@.len() == geometries@.len(),
            forall|i: int| 0 <= i < geometries@.len() ==> {
                &&& #[trigger] r.geometries@[i] == geometries@[i].geometry
                &&& r.build_range_infos@[i] == geometries@[i].build_range_info
            },
    {
        let mut records: Vec<GeometryRecord> = Vec::new();
        let mut ranges: Vec<BuildRangeInfo> = Vec::new();
        let mut i: usize = 0;
        while i < geometries.len()
            invariant
                i <= geometries@.len(),
                records@.len() == i,
                ranges@.len() == i,
                forall|j: int| 0 <= j < i ==> {
                    &&& #[trigger] records@[j] == geometries@[j].geometry
                    &&& ranges@[j] == geometries@[j].build_range_info
                },
            decreases geometries@.len() - i,
        {
            records.push(geometries[i].geometry());
            ranges.push(geometries[i].build_range_info());
            i = i + 1;
        }
        AccelerationStructureBuild::new(AccelerationStructureKind::BottomLevel, records, ranges)
    }

    /// A bottom-level build over sets of boxes.
    pub fn aabbs_build(geometries: &[AABBGeometry]) -> (r: AccelerationStructureBuild)
        ensures
            r.wf(),
            r.kind == AccelerationStructureKind::BottomLevel,
            r.state == initial_state(),
            r.geometries@.len() == geometries@.len(),
            forall|i: int| 0 <= i < geometries@.len() ==> {
                &&& #[trigger] r.geometries@[i] == geometries@[i].geometry
                &&& r.build_range_infos@[i] == geometries@[i].build_range_info
            },
    {
        let mut records: Vec<GeometryRecord> = Vec::new();
        let mut ranges: Vec<BuildRangeInfo> = Vec::new();
        let mut i: usize = 0;
        while i < geometries.len()
            invariant
                i <= geometries@.len(),
                records@.len() == i,
                ranges@.len() == i,
                forall|j: int| 0 <= j < i ==> {
                    &&& #[trigger] records@[j] == geometries@[j].geometry
                    &&& ranges@[j] == geometries@[j].build_range_info
                },
            decreases geometries@.len() - i,
        {
            records.push(geometries[i].geometry());
            ranges.push(geometries[i].build_range_info());
            i = i + 1;
        }
        AccelerationStructureBuild::new(AccelerationStructureKind::BottomLevel, records, ranges)
    }

    /// The structure of a finished bottom-level build.
    pub fn from_build(build: &AccelerationStructureBuild) -> (r: Option<Self>)
        ensures
            r == match built_structure(*build, AccelerationStructureKind::BottomLevel) {
                Some(a) => Some(BottomAccelerationStructure { structure: a }),
                None => None::<Self>,
            },
            r matches Some(b) ==> b.wf(),
    {
        match take_built(build, AccelerationStructureKind::BottomLevel) {
            Some(a) => Some(BottomAccelerationStructure { structure: a }),
            None => None,
        }
    }

    pub fn device_address(&self) -> (r: u64)
        ensures
            r == self.structure.device_address,
    {
        self.structure.device_address
    }
}

} // verus!
