use vstd::prelude::*;
use vstd::arithmetic::div_mod::{
    lemma_fundamental_div_mod,
    lemma_fundamental_div_mod_converse,
    lemma_mod_multiples_basic,
};

use crate::error::{RtError, ValidationError};
use crate::physical_device::PhysicalDeviceRayTracingPipelineProperties;

verus! {

/// `x` rounded up to the next multiple of `a`.
pub open spec fn align_up(x: nat, a: nat) -> nat {
    if a == 0 {
        x
    } else {
        (((x + a - 1) as int / a as int) * a as int) as nat
    }
}

/// Index in the pipeline's group table of the group that fills `slot` of a
/// packed table: slot 0 is the ray generation group, the next `miss_count`
/// slots the miss groups in order, and each later slot the hit group that the
/// caller requested for it.
pub open spec fn slot_group(miss_count: nat, requested: Seq<u32>, slot: int) -> int {
    if slot == 0 {
        0
    } else if slot <= miss_count {
        slot
    } else {
        1 + miss_count + requested[slot - 1 - miss_count] as int
    }
}

/// `align_up(x, a)` is the least multiple of `a` that is at least `x`.
pub proof fn lemma_align_up(x: nat, a: nat)
    requires
        a > 0,
    ensures
        x <= align_up(x, a) < x + a,
        align_up(x, a) as int % a as int == 0,
{
    let y = (x + a - 1) as int;
    let q = y / a as int;
    lemma_fundamental_div_mod(y, a as int);
    assert(q * a <= y && y < q * a + a) by (nonlinear_arith)
        requires
            y == a * q + y % (a as int),
            0 <= y % (a as int) < a,
    ;
    lemma_mod_multiples_basic(q, a as int);
}

/// A multiple of `a` is its own rounding.
pub proof fn lemma_align_up_exact(x: nat, a: nat)
    requires
        a > 0,
        x as int % a as int == 0,
    ensures
        align_up(x, a) == x,
{
    let q = x as int / a as int;
    lemma_fundamental_div_mod(x as int, a as int);
    assert(x + a - 1 == q * a + (a - 1)) by (nonlinear_arith)
        requires
            x == a * q + 0,
    ;
    lemma_fundamental_div_mod_converse(x + a - 1, a as int, q, a - 1);
}

/// Rounds a shader group handle size up to the device's base alignment.
pub fn aligned_stride(handle_size: u32, base_alignment: u32) -> (r: u64)
    requires
        base_alignment > 0,
    ensures
        r == align_up(handle_size as nat, base_alignment as nat),
{
    proof {
        lemma_align_up(handle_size as nat, base_alignment as nat);
    }
    let h = handle_size as u64;
    let a = base_alignment as u64;
    ((h + a - 1) / a) * a
}

/// Why a table cannot be laid out for these limits, group counts and
/// requested hit groups, if it cannot: the aligned stride exceeds the device
/// maximum, a requested index is not one of the pipeline's hit groups, or the
/// table would be too large to address.
pub open spec fn layout_error(
    props: PhysicalDeviceRayTracingPipelineProperties,
    miss_count: nat,
    hit_group_count: nat,
    requested: Seq<u32>,
) -> Option<RtError> {
    let stride = align_up(props.shader_group_handle_size as nat, props.shader_group_base_alignment as nat);
    if stride > props.max_shader_group_stride {
        Some(RtError::AlignmentViolation)
    } else if exists|i: int| 0 <= i < requested.len() && #[trigger] requested[i] >= hit_group_count {
        Some(RtError::Validation(ValidationError::InvalidHitGroupIndex))
    } else if (1 + miss_count + requested.len()) * stride > usize::MAX {
        Some(RtError::DeviceError)
    } else {
        None
    }
}

/// Where each shader group handle goes in a packed shader binding table.
///
/// The table is a run of `stride`-sized slots: one for ray generation at
/// offset 0, `miss_count` miss slots from offset `stride`, then one slot per
/// requested hit group from offset `(1 + miss_count) * stride`. The stride is
/// a multiple of the base alignment, so each region starts on an aligned
/// boundary; the callable region is always empty.
pub struct ShaderBindingTableLayout {
    pub handle_size: usize,
    pub base_alignment: usize,
    pub stride: usize,
    pub miss_count: usize,
    pub hit_group_count: usize,
    pub hit_groups: Vec<u32>,
}

impl ShaderBindingTableLayout {
    /// Number of groups in the pipeline that the table is built from.
    pub open spec fn group_count(&self) -> nat {
        (1 + self.miss_count + self.hit_group_count) as nat
    }

    pub open spec fn slot_count(&self) -> nat {
        (1 + self.miss_count + self.hit_groups@.len()) as nat
    }

    pub open spec fn total_size(&self) -> nat {
        (self.slot_count() * self.stride) as nat
    }

    /// The miss region starts at the first aligned boundary after the ray
    /// generation slot.
    pub open spec fn miss_offset(&self) -> nat {
        align_up(self.stride as nat, self.base_alignment as nat)
    }

    /// The hit region starts at the first aligned boundary after the miss
    /// slots.
    pub open spec fn hit_offset(&self) -> nat {
        align_up((self.miss_offset() + self.miss_count * self.stride) as nat, self.base_alignment as nat)
    }

    /// The stride is a multiple of the base alignment, so the regions follow
    /// one another with no gap: slot `s` of the table starts at `s * stride`.
    pub proof fn lemma_offsets(&self)
        requires
            self.wf(),
        ensures
            self.stride as int % self.base_alignment as int == 0,
            self.handle_size <= self.stride,
            self.miss_offset() == self.stride,
            self.hit_offset() == (1 + self.miss_count) * self.stride,
    {
        let a = self.base_alignment as int;
        let st = self.stride as int;
        let m = self.miss_count as int;
        lemma_align_up(self.handle_size as nat, self.base_alignment as nat);
        lemma_align_up_exact(self.stride as nat, self.base_alignment as nat);
        let c = st / a;
        lemma_fundamental_div_mod(st, a);
        assert(st + m * st == a * ((1 + m) * c) && st + m * st == (1 + m) * st) by (nonlinear_arith)
            requires
                st == a * c,
        ;
        lemma_mod_multiples_basic((1 + m) * c, a);
        lemma_align_up_exact((st + m * st) as nat, self.base_alignment as nat);
    }

    pub open spec fn wf(&self) -> bool {
        &&& self.handle_size > 0
        &&& self.base_alignment > 0
        &&& self.stride == align_up(self.handle_size as nat, self.base_alignment as nat)
        &&& forall|i: int| 0 <= i < self.hit_groups@.len() ==> #[trigger] self.hit_groups@[i] < self.hit_group_count
        &&& self.total_size() <= usize::MAX
    }

    /// The layout fixed by the device limits, the pipeline's group counts and
    /// the requested hit group order.
    pub open spec fn describes(
        &self,
        props: PhysicalDeviceRayTracingPipelineProperties,
        miss_count: nat,
        hit_group_count: nat,
        requested: Seq<u32>,
    ) -> bool {
        &&& self.handle_size == props.shader_group_handle_size
        &&& self.base_alignment == props.shader_group_base_alignment
        &&& self.stride == align_up(props.shader_group_handle_size as nat, props.shader_group_base_alignment as nat)
        &&& self.miss_count == miss_count
        &&& self.hit_group_count == hit_group_count
        &&& self.hit_groups@ == requested
    }

    /// Byte `p` of the packed table: the first `handle_size` bytes of each
    /// slot are the handle of the slot's group, the rest are zero.
    pub open spec fn packed_byte(&self, handles: Seq<u8>, p: int) -> u8 {
        let s = p / self.stride as int;
        let k = p % self.stride as int;
        if k < self.handle_size {
            handles[slot_group(self.miss_count as nat, self.hit_groups@, s) * self.handle_size + k]
        } else {
            0
        }
    }

    pub open spec fn packed(&self, handles: Seq<u8>) -> Seq<u8> {
        Seq::new(self.total_size(), |p: int| self.packed_byte(handles, p))
    }

    /// Lays out a table for a pipeline with `miss_count` miss groups and
    /// `hit_group_count` hit groups, whose hit region holds the hit groups
    /// `hit_groups` in that order.
    ///
    /// Fails with `AlignmentViolation` when the aligned stride exceeds the
    /// device maximum, with `InvalidHitGroupIndex` when a requested index is
    /// not one of the pipeline's hit groups, and with `DeviceError` when the
    /// table would be too large to address.
    pub fn new(
        props: &PhysicalDeviceRayTracingPipelineProperties,
        miss_count: usize,
        hit_group_count: usize,
        hit_groups: &[u32],
    ) -> (r: Result<Self, RtError>)
        requires
            props.usable_for_binding_tables(),
        ensures
            match layout_error(*props, miss_count as nat, hit_group_count as nat, hit_groups@) {
                Some(e) => r == Err::<Self, RtError>(e),
                None => r matches Ok(l) && l.wf() && l.describes(*props, miss_count as nat, hit_group_count as nat, hit_groups@),
            },
    {
        let stride64 = aligned_stride(props.shader_group_handle_size, props.shader_group_base_alignment);
        proof {
            lemma_align_up(props.shader_group_handle_size as nat, props.shader_group_base_alignment as nat);
        }
        if stride64 > props.max_shader_group_stride as u64 {
            return Err(RtError::AlignmentViolation);
        }
        let stride = stride64 as usize;
        let mut i: usize = 0;
        while i < hit_groups.len()
            invariant
                i <= hit_groups@.len(),
                stride64 == align_up(props.shader_group_handle_size as nat, props.shader_group_base_alignment as nat),
                stride64 <= props.max_shader_group_stride,
                forall|j: int| 0 <= j < i ==> #[trigger] hit_groups@[j] < hit_group_count,
            decreases hit_groups@.len() - i,
        {
            if hit_groups[i] as usize >= hit_group_count {
                assert(hit_groups@[i as int] >= hit_group_count);
                return Err(RtError::Validation(ValidationError::InvalidHitGroupIndex));
            }
            i = i + 1;
        }
        let slots = match miss_count.checked_add(hit_groups.len()) {
            Some(n) => n.checked_add(1),
            None => None,
        };
        let size = match slots {
            Some(n) => n.checked_mul(stride),
            None => None,
        };
        if size.is_none() {
            proof {
                if miss_count + hit_groups@.len() + 1 > usize::MAX {
                    assert((1 + miss_count + hit_groups@.len()) * stride >= 1 + miss_count + hit_groups@.len())
                        by (nonlinear_arith)
                        requires stride >= 1;
                }
            }
            return Err(RtError::DeviceError);
        }
        let mut requested: Vec<u32> = Vec::new();
        let mut j: usize = 0;
        while j < hit_groups.len()
            invariant
                j <= hit_groups@.len(),
                requested@ == hit_groups@.subrange(0, j as int),
            decreases hit_groups@.len() - j,
        {
            requested.push(hit_groups[j]);
            j = j + 1;
        }
        assert(requested@ == hit_groups@);
        Ok(ShaderBindingTableLayout {
            handle_size: props.shader_group_handle_size as usize,
            base_alignment: props.shader_group_base_alignment as usize,
            stride,
            miss_count,
            hit_group_count,
            hit_groups: requested,
        })
    }

    /// Packs the pipeline's group handles, `handle_size` bytes per group in
    /// group order, into the bytes of the table.
    pub fn pack(&self, handles: &[u8]) -> (out: Vec<u8>)
        requires
            self.wf(),
            handles@.len() == self.group_count() * self.handle_size,
        ensures
            out@ == self.packed(handles@),
    {
        let ghost hs = self.handle_size as int;
        let ghost st = self.stride as int;
        let ghost gc = self.group_count() as int;
        proof {
            lemma_align_up(self.handle_size as nat, self.base_alignment as nat);
            assert(self.slot_count() <= self.total_size()) by (nonlinear_arith)
                requires
                    st >= 1,
                    self.total_size() == self.slot_count() * st,
            ;
            assert(gc <= gc * hs) by (nonlinear_arith)
                requires
                    hs >= 1,
                    gc >= 0,
            ;
        }
        let n = handles.len();
        let slots = 1 + self.miss_count + self.hit_groups.len();
        let mut out: Vec<u8> = Vec::new();
        let mut s: usize = 0;
        while s < slots
            invariant
                self.wf(),
                handles@.len() == gc * hs,
                hs == self.handle_size,
                st == self.stride,
                gc == self.group_count(),
                gc <= handles@.len(),
                handles@.len() == n,
                hs <= st,
                slots == self.slot_count(),
                s <= slots,
                out@.len() == s * st,
                forall|p: int| 0 <= p < out@.len() ==> #[trigger] out@[p] == self.packed_byte(handles@, p),
            decreases slots - s,
        {
            let g: usize = if s == 0 {
                0
            } else if s <= self.miss_count {
                s
            } else {
                let h = self.hit_groups[s - 1 - self.miss_count];
                assert(h == self.hit_groups@[s - 1 - self.miss_count]);
                1 + self.miss_count + h as usize
            };
            assert(g == slot_group(self.miss_count as nat, self.hit_groups@, s as int));
            assert(g < gc);
            proof {
                assert((g + 1) * hs <= gc * hs && (g + 1) * hs == g * hs + hs) by (nonlinear_arith)
                    requires
                        g + 1 <= gc,
                        hs >= 0,
                ;
                assert((s + 1) * st <= slots * st) by (nonlinear_arith)
                    requires
                        s + 1 <= slots,
                        st >= 0,
                ;
            }
            let base = g * self.handle_size;
            let mut k: usize = 0;
            while k < self.stride
                invariant
                    self.wf(),
                    handles@.len() == gc * hs,
                    handles@.len() == n,
                    hs == self.handle_size,
                    st == self.stride,
                    hs <= st,
                    s < slots,
                    slots == self.slot_count(),
                    (s + 1) * st <= slots * st,
                    base == g * hs,
                    (g + 1) * hs <= gc * hs,
                    (g + 1) * hs == g * hs + hs,
                    g == slot_group(self.miss_count as nat, self.hit_groups@, s as int),
                    k <= st,
                    out@.len() == s * st + k,
                    forall|p: int| 0 <= p < out@.len() ==> #[trigger] out@[p] == self.packed_byte(handles@, p),
                decreases st - k,
            {
                let b: u8 = if k < self.handle_size {
                    handles[base + k]
                } else {
                    0
                };
                proof {
                    lemma_fundamental_div_mod_converse(s * st + k, st, s as int, k as int);
                    assert(s * st + k == (s as int) * st + (k as int));
                }
                out.push(b);
                k = k + 1;
            }
            assert(out@.len() == (s + 1) * st) by (nonlinear_arith)
                requires
                    out@.len() == s * st + st,
            ;
            s = s + 1;
        }
        assert(out@ =~= self.packed(handles@));
        out
    }
}

/// A `{address, stride, size}` region of device memory, as a trace dispatch
/// takes it for each of its four tables.
#[derive(Debug, Clone, Copy, PartialEq, Eq, Structural)]
pub struct StridedRegion {
    pub device_address: u64,
    pub stride: u64,
    pub size: u64,
}

/// One of the four tables of a packed shader binding table buffer.
#[derive(Debug, Clone, Copy, PartialEq, Eq, Structural)]
pub struct ShaderBindingTable {
    pub region: StridedRegion,
}

/// A packed shader binding table placed in device memory at `buffer_address`.
pub struct PipelineShaderBindingTables {
    pub layout: ShaderBindingTableLayout,
    pub buffer_address: u64,
}

impl PipelineShaderBindingTables {
    pub open spec fn wf(&self) -> bool {
        &&& self.layout.wf()
        &&& self.buffer_address + self.layout.total_size() <= u64::MAX
        &&& self.buffer_address as int % self.layout.base_alignment as int == 0
    }

    pub open spec fn raygen_region(&self) -> StridedRegion {
        StridedRegion {
            device_address: self.buffer_address,
            stride: self.layout.stride as u64,
            size: self.layout.stride as u64,
        }
    }

    pub open spec fn miss_region(&self) -> StridedRegion {
        StridedRegion {
            device_address: (self.buffer_address + self.layout.miss_offset()) as u64,
            stride: self.layout.stride as u64,
            size: (self.layout.miss_count * self.layout.stride) as u64,
        }
    }

    pub open spec fn hit_region(&self) -> StridedRegion {
        StridedRegion {
            device_address: (self.buffer_address + self.layout.hit_offset()) as u64,
            stride: self.layout.stride as u64,
            size: (self.layout.hit_groups@.len() * self.layout.stride) as u64,
        }
    }

    pub open spec fn callable_region(&self) -> StridedRegion {
        StridedRegion { device_address: 0, stride: 0, size: 0 }
    }

    /// Places the table laid out by `layout` at `buffer_address`; fails with
    /// `AlignmentViolation` when the address is not a multiple of the base
    /// alignment.
    pub fn new(layout: ShaderBindingTableLayout, buffer_address: u64) -> (r: Result<Self, RtError>)
        requires
            layout.wf(),
            buffer_address + layout.total_size() <= u64::MAX,
        ensures
            (r is Ok) <==> buffer_address as int % layout.base_alignment as int == 0,
            r is Err ==> r == Err::<Self, RtError>(RtError::AlignmentViolation),
            r matches Ok(t) ==> t.wf() && t.layout == layout && t.buffer_address == buffer_address,
    {
        if buffer_address % layout.base_alignment as u64 != 0 {
            return Err(RtError::AlignmentViolation);
        }
        Ok(PipelineShaderBindingTables { layout, buffer_address })
    }

    proof fn lemma_region_bounds(&self)
        requires
            self.wf(),
        ensures
            self.layout.miss_offset() == self.layout.stride,
            self.layout.hit_offset() == (1 + self.layout.miss_count) * self.layout.stride,
            self.layout.miss_offset() + self.layout.miss_count * self.layout.stride == self.layout.hit_offset(),
            self.layout.hit_offset() + self.layout.hit_groups@.len() * self.layout.stride == self.layout.total_size(),
            self.layout.stride <= self.layout.total_size(),
            self.layout.hit_offset() <= self.layout.total_size(),
            1 + self.layout.miss_count <= self.layout.total_size(),
    {
        self.layout.lemma_offsets();
        lemma_align_up(self.layout.handle_size as nat, self.layout.base_alignment as nat);
        let st = self.layout.stride as int;
        let m = self.layout.miss_count as int;
        let h = self.layout.hit_groups@.len() as int;
        assert(st + m * st == (1 + m) * st && (1 + m) * st + h * st == (1 + m + h) * st && st <= (1 + m + h) * st
            && (1 + m) * st <= (1 + m + h) * st && 1 + m <= (1 + m) * st)
            by (nonlinear_arith)
            requires
                st >= 1,
                m >= 0,
                h >= 0,
        ;
    }

    pub fn ray_gen_table(&self) -> (t: ShaderBindingTable)
        requires
            self.wf(),
        ensures
            t.region == self.raygen_region(),
    {
        ShaderBindingTable {
            region: StridedRegion {
                device_address: self.buffer_address,
                stride: self.layout.stride as u64,
                size: self.layout.stride as u64,
            },
        }
    }

    pub fn miss_table(&self) -> (t: ShaderBindingTable)
        requires
            self.wf(),
        ensures
            t.region == self.miss_region(),
    {
        proof {
            self.lemma_region_bounds();
        }
        let stride = self.layout.stride as u64;
        ShaderBindingTable {
            region: StridedRegion {
                device_address: self.buffer_address + stride,
                stride,
                size: (self.layout.miss_count * self.layout.stride) as u64,
            },
        }
    }

    pub fn hit_table(&self) -> (t: ShaderBindingTable)
        requires
            self.wf(),
        ensures
            t.region == self.hit_region(),
    {
        proof {
            self.lemma_region_bounds();
        }
        let offset = (1 + self.layout.miss_count) * self.layout.stride;
        ShaderBindingTable {
            region: StridedRegion {
                device_address: self.buffer_address + offset as u64,
                stride: self.layout.stride as u64,
                size: (self.layout.hit_groups.len() * self.layout.stride) as u64,
            },
        }
    }

    pub fn callable_table(&self) -> (t: ShaderBindingTable)
        ensures
            t.region == self.callable_region(),
    {
        ShaderBindingTable { region: StridedRegion { device_address: 0, stride: 0, size: 0 } }
    }
}

/// Every region of a placed table starts on a multiple of the base
/// alignment, its stride is such a multiple too, and the three non-empty
/// regions lie one after the other inside the buffer.
pub proof fn lemma_regions_aligned(t: PipelineShaderBindingTables)
    requires
        t.wf(),
    ensures
        t.raygen_region().stride as int % t.layout.base_alignment as int == 0,
        t.raygen_region().device_address as int % t.layout.base_alignment as int == 0,
        t.miss_region().device_address as int % t.layout.base_alignment as int == 0,
        t.hit_region().device_address as int % t.layout.base_alignment as int == 0,
        t.raygen_region().device_address + t.raygen_region().size == t.miss_region().device_address,
        t.miss_region().device_address + t.miss_region().size == t.hit_region().device_address,
        t.hit_region().device_address + t.hit_region().size == t.buffer_address + t.layout.total_size(),
{
    let a = t.layout.base_alignment as int;
    let st = t.layout.stride as int;
    let m = t.layout.miss_count as int;
    let b = t.buffer_address as int;
    lemma_align_up(t.layout.handle_size as nat, t.layout.base_alignment as nat);
    t.lemma_region_bounds();
    let c = st / a;
    lemma_fundamental_div_mod(st, a);
    assert(b + st == a * (b / a + c)) by (nonlinear_arith)
        requires
            st == a * c,
            b % a == 0,
            a > 0,
    {
        lemma_fundamental_div_mod(b, a);
    }
    lemma_mod_multiples_basic(b / a + c, a);
    assert(b + (1 + m) * st == a * (b / a + (1 + m) * c)) by (nonlinear_arith)
        requires
            st == a * c,
            b % a == 0,
            a > 0,
    {
        lemma_fundamental_div_mod(b, a);
    }
    lemma_mod_multiples_basic(b / a + (1 + m) * c, a);
}

/// The bytes of each slot read back as the handle of the slot's group for
/// the first `handle_size` bytes, and as zero for the rest of the stride.
pub proof fn lemma_slot_round_trip(layout: ShaderBindingTableLayout, handles: Seq<u8>, slot: int, k: int)
    requires
        layout.wf(),
        handles.len() == layout.group_count() * layout.handle_size,
        0 <= slot < layout.slot_count(),
        0 <= k < layout.stride,
    ensures
        k < layout.handle_size ==> layout.packed(handles)[slot * layout.stride + k]
            == handles[slot_group(layout.miss_count as nat, layout.hit_groups@, slot) * layout.handle_size + k],
        k >= layout.handle_size ==> layout.packed(handles)[slot * layout.stride + k] == 0,
{
    let st = layout.stride as int;
    lemma_fundamental_div_mod_converse(slot * st + k, st, slot, k);
    assert(slot * st + k < layout.slot_count() * st) by (nonlinear_arith)
        requires
            slot + 1 <= layout.slot_count(),
            0 <= k < st,
    ;
}

/// Two tables built from the same device limits, group counts and requested
/// hit group order agree on every region's stride and size and on their
/// bytes, wherever their buffers were placed.
pub proof fn lemma_tables_idempotent(
    t1: PipelineShaderBindingTables,
    t2: PipelineShaderBindingTables,
    props: PhysicalDeviceRayTracingPipelineProperties,
    miss_count: nat,
    hit_group_count: nat,
    requested: Seq<u32>,
    handles: Seq<u8>,
)
    requires
        t1.layout.describes(props, miss_count, hit_group_count, requested),
        t2.layout.describes(props, miss_count, hit_group_count, requested),
    ensures
        t1.raygen_region().stride == t2.raygen_region().stride,
        t1.raygen_region().size == t2.raygen_region().size,
        t1.miss_region().stride == t2.miss_region().stride,
        t1.miss_region().size == t2.miss_region().size,
        t1.hit_region().stride == t2.hit_region().stride,
        t1.hit_region().size == t2.hit_region().size,
        t1.callable_region() == t2.callable_region(),
        t1.layout.packed(handles) == t2.layout.packed(handles),
{
    assert(t1.layout.packed(handles) =~= t2.layout.packed(handles));
}

} // verus!
