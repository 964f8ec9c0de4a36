use vstd::prelude::*;

use crate::accel::{
    built_structure,
    initial_state,
    AccelerationStructure,
    AccelerationStructureBuild,
    AccelerationStructureKind,
    BottomAccelerationStructure,
};
use crate::error::{RtError, ValidationError};
use crate::geometry::{range_of, BuildRangeInfo, GeometryRecord};

verus! {

/// Visibility mask given to every instance: visible to all rays.
pub const INSTANCE_MASK: u32 = 0xff;

/// Instance flag that turns off back-face culling of triangles.
pub const TRIANGLE_FACING_CULL_DISABLE: u32 = 0x1;

/// Largest shader binding table record offset that an instance can hold.
pub const MAX_SBT_RECORD_OFFSET: u32 = 0xff_ffff;

/// The first three rows of a column-major 4x4 matrix, row by row: entry
/// `4 * r + c` of the result is row `r`, column `c`. The matrix entries are
/// 32-bit float bit patterns and are moved, never read.
pub open spec fn rows_of(columns: Seq<u32>) -> Seq<u32> {
    Seq::new(12, |i: int| columns[4 * (i % 4) + i / 4])
}

/// The 3x4 row-major transform of an instance record, from a column-major
/// 4x4 matrix.
pub fn transform_from_columns(columns: &[u32; 16]) -> (r: [u32; 12])
    ensures
        r@ == rows_of(columns@),
{
    let c = columns;
    let r = [c[0], c[4], c[8], c[12], c[1], c[5], c[9], c[13], c[2], c[6], c[10], c[14]];
    assert(r@ =~= rows_of(columns@));
    r
}

/// The record that the device reads for one instance.
#[derive(Debug, Clone, Copy, PartialEq, Eq)]
pub struct InstanceRecord {
    pub transform: [u32; 12],
    pub instance_custom_index_and_mask: u32,
    pub instance_shader_binding_table_record_offset_and_flags: u32,
    pub acceleration_structure_reference: u64,
}

/// A placement of a bottom-level structure in a scene: a transform, a
/// shader binding table record offset, and once finalized, the device
/// address of the buffer that holds its record.
#[derive(Debug, Clone, Copy)]
pub struct BLASInstance {
    pub blas: BottomAccelerationStructure,
    pub transform: [u32; 16],
    pub sbt_record_offset: u32,
    pub instance_buffer: Option<u64>,
}

impl BLASInstance {
    pub open spec fn wf(&self) -> bool {
        &&& self.blas.wf()
        &&& self.sbt_record_offset <= MAX_SBT_RECORD_OFFSET
    }

    /// Custom index 0 in the low 24 bits, the mask in the high 8.
    pub open spec fn spec_custom_index_and_mask(&self) -> u32 {
        INSTANCE_MASK << 24u32
    }

    /// The record offset in the low 24 bits, the flags in the high 8.
    pub open spec fn spec_offset_and_flags(&self) -> u32 {
        self.sbt_record_offset | (TRIANGLE_FACING_CULL_DISABLE << 24u32)
    }

    pub fn new(blas: &BottomAccelerationStructure, transform: &[u32; 16], sbt_record_offset: u32) -> (r: Self)
        requires
            blas.wf(),
            sbt_record_offset <= MAX_SBT_RECORD_OFFSET,
        ensures
            r.wf(),
            r.blas == *blas,
            r.transform == *transform,
            r.sbt_record_offset == sbt_record_offset,
            r.instance_buffer is None,
    {
        BLASInstance { blas: *blas, transform: *transform, sbt_record_offset, instance_buffer: None }
    }

    /// Replaces the transform. The record changes with it, so an instance
    /// finalized before must be finalized again.
    pub fn set_transform(&mut self, transform: &[u32; 16])
        ensures
            final(self).transform == *transform,
            final(self).blas == old(self).blas,
            final(self).sbt_record_offset == old(self).sbt_record_offset,
            final(self).instance_buffer is None,
    {
        self.transform = *transform;
        self.instance_buffer = None;
    }

    pub fn transform(&self) -> (r: &[u32; 16])
        ensures
            *r == self.transform,
    {
        &self.transform
    }

    pub fn blas(&self) -> (r: &BottomAccelerationStructure)
        ensures
            *r == self.blas,
    {
        &self.blas
    }

    /// The record to place in the instance's buffer.
    pub fn record(&self) -> (r: InstanceRecord)
        requires
            self.wf(),
        ensures
            r.transform@ == rows_of(self.transform@),
            r.instance_custom_index_and_mask == self.spec_custom_index_and_mask(),
            r.instance_shader_binding_table_record_offset_and_flags == self.spec_offset_and_flags(),
            r.acceleration_structure_reference == self.blas.structure.device_address,
            r.instance_custom_index_and_mask & 0xff_ffff == 0,
            r.instance_custom_index_and_mask >> 24u32 == INSTANCE_MASK,
            r.instance_shader_binding_table_record_offset_and_flags & 0xff_ffff == self.sbt_record_offset,
            r.instance_shader_binding_table_record_offset_and_flags >> 24u32 == TRIANGLE_FACING_CULL_DISABLE,
    {
        let offset = self.sbt_record_offset;
        let mask_word = INSTANCE_MASK << 24u32;
        let flags_word = offset | (TRIANGLE_FACING_CULL_DISABLE << 24u32);
        assert(mask_word & 0xff_ffff == 0 && mask_word >> 24u32 == 0xff) by (bit_vector)
            requires
                mask_word == 0xffu32 << 24u32,
        ;
        assert(flags_word & 0xff_ffff == offset && flags_word >> 24u32 == 1) by (bit_vector)
            requires
                flags_word == offset | (1u32 << 24u32),
                offset <= 0xff_ffff,
        ;
        InstanceRecord {
            transform: transform_from_columns(&self.transform),
            instance_custom_index_and_mask: mask_word,
            instance_shader_binding_table_record_offset_and_flags: flags_word,
            acceleration_structure_reference: self.blas.structure.device_address,
        }
    }

    /// Finalizes the instance: its record now lives in the device buffer at
    /// `instance_buffer_address`, and the instance can be referenced.
    pub fn build(&mut self, instance_buffer_address: u64)
        ensures
            final(self).instance_buffer == Some(instance_buffer_address),
            final(self).blas == old(self).blas,
            final(self).transform == old(self).transform,
            final(self).sbt_record_offset == old(self).sbt_record_offset,
    {
        self.instance_buffer = Some(instance_buffer_address);
    }

    pub fn is_finalized(&self) -> (r: bool)
        ensures
            r == self.instance_buffer is Some,
    {
        self.instance_buffer.is_some()
    }
}

pub open spec fn all_finalized(instances: Seq<BLASInstance>) -> bool {
    forall|i: int| 0 <= i < instances.len() ==> (#[trigger] instances[i]).instance_buffer is Some
}

/// Relies on bytemuck::cast_slice: the addresses reinterpreted as their
/// in-memory bytes, eight per address.
#[verifier::external_body]
fn address_bytes(addresses: &[u64]) -> (r: Vec<u8>)
    ensures
        r@.len() == 8 * addresses@.len(),
{
    bytemuck::cast_slice::<u64, u8>(addresses).to_vec()
}

/// The instances of a top-level build, read through an array that holds the
/// device address of each finalized instance's record buffer.
pub struct InstanceGeometry {
    pub geometry: GeometryRecord,
    pub build_range_info: BuildRangeInfo,
    pub blas_instances: Vec<BLASInstance>,
}

impl InstanceGeometry {
    pub open spec fn wf(&self) -> bool {
        &&& all_finalized(self.blas_instances@)
        &&& self.build_range_info == range_of(self.blas_instances@.len() as u32)
        &&& self.blas_instances@.len() <= u32::MAX
        &&& self.geometry is Instances
    }

    /// The record buffer address of each instance, in order. Fails with
    /// `InvalidState` when an instance was never finalized.
    pub fn instance_buffer_addresses(blas_instances: &[BLASInstance]) -> (r: Result<Vec<u64>, RtError>)
        ensures
            (r is Ok) <==> all_finalized(blas_instances@),
            r is Err ==> r == Err::<Vec<u64>, RtError>(RtError::Validation(ValidationError::InvalidState)),
            r matches Ok(v) ==> v@.len() == blas_instances@.len() && forall|i: int|
                0 <= i < v@.len() ==> Some(#[trigger] v@[i]) == blas_instances@[i].instance_buffer,
    {
        let mut v: Vec<u64> = Vec::new();
        let mut i: usize = 0;
        while i < blas_instances.len()
            invariant
                i <= blas_instances@.len(),
                v@.len() == i,
                forall|j: int| 0 <= j < i ==> Some(#[trigger] v@[j]) == blas_instances@[j].instance_buffer,
            decreases blas_instances@.len() - i,
        {
            match blas_instances[i].instance_buffer {
                Some(a) => v.push(a),
                None => {
                    return Err(RtError::Validation(ValidationError::InvalidState));
                },
            }
            i = i + 1;
        }
        assert forall|j: int| 0 <= j < blas_instances@.len() implies (#[trigger] blas_instances@[j]).instance_buffer is Some by {
            assert(Some(v@[j]) == blas_instances@[j].instance_buffer);
        }
        Ok(v)
    }

    /// The bytes of the array of record addresses, to be uploaded before the
    /// geometry is made. Fails with `InvalidState` when an instance was never
    /// finalized.
    pub fn pointer_array_bytes(blas_instances: &[BLASInstance]) -> (r: Result<Vec<u8>, RtError>)
        ensures
            (r is Ok) <==> all_finalized(blas_instances@),
            r is Err ==> r == Err::<Vec<u8>, RtError>(RtError::Validation(ValidationError::InvalidState)),
            r matches Ok(b) ==> b@.len() == 8 * blas_instances@.len(),
    {
        match Self::instance_buffer_addresses(blas_instances) {
            Ok(v) => Ok(address_bytes(v.as_slice())),
            Err(e) => Err(e),
        }
    }

    /// The geometry of `blas_instances`, whose array of record addresses was
    /// uploaded to `array_of_pointers_address`. Fails with `InvalidState` when
    /// an instance was never finalized.
    pub fn new(blas_instances: &[BLASInstance], array_of_pointers_address: u64) -> (r: Result<Self, RtError>)
        requires
            blas_instances@.len() <= u32::MAX,
        ensures
            (r is Ok) <==> all_finalized(blas_instances@),
            r is Err ==> r == Err::<Self, RtError>(RtError::Validation(ValidationError::InvalidState)),
            r matches Ok(g) ==> {
                &&& g.wf()
                &&& g.blas_instances@ == blas_instances@
                &&& g.geometry == (GeometryRecord::Instances { array_of_pointers: true, data_address: array_of_pointers_address })
                &&& g.build_range_info == range_of(blas_instances@.len() as u32)
            },
    {
        let mut kept: Vec<BLASInstance> = Vec::new();
        let mut i: usize = 0;
        while i < blas_instances.len()
            invariant
                i <= blas_instances@.len(),
                kept@ == blas_instances@.subrange(0, i as int),
                all_finalized(kept@),
            decreases blas_instances@.len() - i,
        {
            let inst = blas_instances[i];
            if inst.instance_buffer.is_none() {
                return Err(RtError::Validation(ValidationError::InvalidState));
            }
            kept.push(inst);
            assert(kept@ =~= blas_instances@.subrange(0, i + 1));
            i = i + 1;
        }
        assert(kept@ =~= blas_instances@);
        Ok(InstanceGeometry {
            geometry: GeometryRecord::Instances { array_of_pointers: true, data_address: array_of_pointers_address },
            build_range_info: BuildRangeInfo {
                primitive_count: blas_instances.len() as u32,
                primitive_offset: 0,
                first_vertex: 0,
                transform_offset: 0,
            },
            blas_instances: kept,
        })
    }

    pub fn instance_count(&self) -> (r: u32)
        requires
            self.wf(),
        ensures
            r == self.blas_instances@.len(),
    {
        self.blas_instances.len() as u32
    }

    pub fn blas_instances(&self) -> (r: &[BLASInstance])
        ensures
            r@ == self.blas_instances@,
    {
        self.blas_instances.as_slice()
    }
}

/// A built top-level acceleration structure and the instance geometries it
/// was built from.
pub struct TopAccelerationStructure {
    pub structure: AccelerationStructure,
    pub geometries: Vec<InstanceGeometry>,
}

impl TopAccelerationStructure {
    pub open spec fn wf(&self) -> bool {
        &&& self.structure.wf()
        &&& self.structure.kind == AccelerationStructureKind::TopLevel
    }

    /// A top-level build over instance geometries.
    pub fn instances_build(geometries: &[InstanceGeometry]) -> (r: AccelerationStructureBuild)
        ensures
            r.wf(),
            r.kind == AccelerationStructureKind::TopLevel,
            r.state == initial_state(),
            r.geometries@.len() == geometries@.len(),
            forall|i: int| 0 <= i < geometries@.len() ==> {
                &&& #[trigger] r.geometries@[i] == geometries@[i].geometry
                &&& r.build_range_infos@[i] == geometries@[i].build_range_info
            },
    {
        let mut records: Vec<GeometryRecord> = Vec::new();
        let mut ranges: Vec<BuildRangeInfo> = Vec::new();
        let mut i: usize = 0;
        while i < geometries.len()
            invariant
                i <= geometries@.len(),
                records@.len() == i,
                ranges@.len() == i,
                forall|j: int| 0 <= j < i ==> {
                    &&& #[trigger] records@[j] == geometries@[j].geometry
                    &&& ranges@[j] == geometries@[j].build_range_info
                },
            decreases geometries@.len() - i,
        {
            records.push(geometries[i].geometry);
            ranges.push(geometries[i].build_range_info);
            i = i + 1;
        }
        AccelerationStructureBuild::new(AccelerationStructureKind::TopLevel, records, ranges)
    }

    /// The structure of a finished top-level build of `geometries`.
    pub fn from_build(build: &AccelerationStructureBuild, geometries: Vec<InstanceGeometry>) -> (r: Option<Self>)
        ensures
            (r is Some) <==> built_structure(*build, AccelerationStructureKind::TopLevel) is Some,
            r matches Some(t) ==> {
                &&& t.wf()
                &&& Some(t.structure) == built_structure(*build, AccelerationStructureKind::TopLevel)
                &&& t.geometries@ == geometries@
            },
    {
        match build.finish() {
            Some(a) => {
                if a.kind == AccelerationStructureKind::TopLevel && a.structure_size > 0 && a.device_address != 0 {
                    Some(TopAccelerationStructure { structure: a, geometries })
                } else {
                    None
                }
            },
            None => None,
        }
    }

    pub fn device_address(&self) -> (r: u64)
        ensures
            r == self.structure.device_address,
    {
        self.structure.device_address
    }

    pub fn geometries(&self) -> (r: &Vec<InstanceGeometry>)
        ensures
            r@ == self.geometries@,
    {
        &self.geometries
    }
}

} // verus!
