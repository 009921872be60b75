//! Resource tables: the statically laid-out descriptor block a host parses
//! to load the firmware, allocate its memory, and find the trace buffer
//! and the ring pair. At runtime the table doubles as the translator
//! between host-physical and device addresses.

use crate::string32::String32;
use vstd::prelude::*;

verus! {

/// The types of entry a resource table can hold.
#[derive(Debug, Clone, Copy, PartialEq, Eq, Structural)]
pub enum ResourceType {
    /// Ask the host to allocate some memory.
    CARVEOUT,
    /// A preset mapping of MMIO registers.
    DEVMEM,
    /// A buffer the firmware writes text into.
    TRACE,
    /// A virtio device.
    VDEV,
}

impl ResourceType {
    /// The tag value that marks this entry type on the wire.
    pub open spec fn spec_tag(self) -> u32 {
        match self {
            ResourceType::CARVEOUT => 0,
            ResourceType::DEVMEM => 1,
            ResourceType::TRACE => 2,
            ResourceType::VDEV => 3,
        }
    }

    pub fn tag(self) -> (r: u32)
        returns
            self.spec_tag(),
    {
        match self {
            ResourceType::CARVEOUT => 0,
            ResourceType::DEVMEM => 1,
            ResourceType::TRACE => 2,
            ResourceType::VDEV => 3,
        }
    }
}

/// Every resource table starts with this header, followed by the offset
/// array.
#[derive(Debug, Clone, Copy, PartialEq, Eq)]
pub struct Header {
    /// Table format version.
    pub ver: u32,
    /// Number of entries that follow.
    pub num: usize,
    /// Reserved, must be zero.
    pub reserved: [u32; 2],
}

/// A `CARVEOUT` entry: host-allocated RAM. The host fills in `pa` when it
/// loads the firmware.
#[derive(Debug, PartialEq, Eq)]
pub struct Carveout {
    /// Entry tag.
    pub rtype: ResourceType,
    /// Device address of the region.
    pub da: usize,
    /// Host-physical address, filled by the host.
    pub pa: usize,
    /// Length in bytes.
    pub len: usize,
    /// Region flags.
    pub flags: u32,
    /// Reserved, must be zero.
    pub reserved: u32,
    /// Human-readable region name.
    pub name: String32,
}

/// A `DEVMEM` entry: a preset host-physical to device-address mapping.
#[derive(Debug, PartialEq, Eq)]
pub struct Devmem {
    /// Entry tag.
    pub rtype: ResourceType,
    /// Device address of the region.
    pub da: usize,
    /// Host-physical address of the region.
    pub pa: usize,
    /// Length in bytes.
    pub len: usize,
    /// Region flags.
    pub flags: u32,
    /// Reserved, must be zero.
    pub reserved: u32,
    /// Human-readable region name.
    pub name: String32,
}

/// A `TRACE` entry: where the firmware's text ring lives.
#[derive(Debug, PartialEq, Eq)]
pub struct Trace {
    /// Entry tag.
    pub rtype: ResourceType,
    /// Device address of the buffer.
    pub da: usize,
    /// Length in bytes.
    pub len: usize,
    /// Reserved, must be zero.
    pub reserved: u32,
    /// Human-readable buffer name.
    pub name: String32,
}

/// A `VDEV` entry: one virtio device, followed on the wire by
/// `num_of_vrings` [`VdevVring`] records.
#[derive(Debug, Clone, Copy, PartialEq, Eq)]
pub struct Vdev {
    /// Entry tag.
    pub rtype: ResourceType,
    /// Virtio device id.
    pub id: u32,
    /// Notification id.
    pub notifyid: u32,
    /// Device feature bits.
    pub dfeatures: u32,
    /// Guest feature bits.
    pub gfeatures: u32,
    /// Length of the device config space.
    pub config_len: u32,
    /// Device status byte, written by the host during the handshake.
    pub status: u8,
    /// Number of vrings that follow.
    pub num_of_vrings: u8,
    /// Reserved, must be zero.
    pub reserved: [u8; 2],
}

/// Description of one vring of a [`Vdev`].
#[derive(Debug, Clone, Copy, PartialEq, Eq, Structural)]
pub struct VdevVring {
    /// Device address of the ring memory.
    pub da: usize,
    /// Alignment between the available and used rings.
    pub align: usize,
    /// Number of descriptors.
    pub num: usize,
    /// Notification id of this ring.
    pub notifyid: u32,
    /// Reserved, must be zero.
    pub reserved: u32,
}

/// 64 KiB, matching the size constants the host uses.
pub const SZ_64K: usize = 0x00010000;

/// 128 KiB.
pub const SZ_128K: usize = 0x00020000;

/// 256 KiB.
pub const SZ_256K: usize = 0x00040000;

/// 512 KiB.
pub const SZ_512K: usize = 0x00080000;

/// 1 MiB.
pub const SZ_1M: usize = 0x00100000;

/// 2 MiB.
pub const SZ_2M: usize = 0x00200000;

/// 4 MiB.
pub const SZ_4M: usize = 0x00400000;

/// 8 MiB.
pub const SZ_8M: usize = 0x00800000;

/// 16 MiB.
pub const SZ_16M: usize = 0x01000000;

/// 32 MiB.
pub const SZ_32M: usize = 0x02000000;

/// 64 MiB.
pub const SZ_64M: usize = 0x04000000;

/// 128 MiB.
pub const SZ_128M: usize = 0x08000000;

/// 256 MiB.
pub const SZ_256M: usize = 0x10000000;

/// 512 MiB.
pub const SZ_512M: usize = 0x20000000;

/// Anything that can translate between host-physical and device
/// addresses.
pub trait AddressMapper {
    /// The mapper's regions are sane enough to translate through.
    spec fn spec_mapper_wf(&self) -> bool;

    /// What `pa_to_da` returns.
    spec fn spec_pa_to_da(&self, pa: usize) -> Option<usize>;

    /// What `da_to_pa` returns.
    spec fn spec_da_to_pa(&self, da: usize) -> Option<usize>;

    /// Convert a host-physical address to a device address.
    fn pa_to_da(&self, pa: usize) -> (r: Option<usize>)
        requires
            self.spec_mapper_wf(),
        ensures
            r == self.spec_pa_to_da(pa);

    /// Convert a device address to a host-physical address.
    fn da_to_pa(&self, da: usize) -> (r: Option<usize>)
        requires
            self.spec_mapper_wf(),
        ensures
            r == self.spec_da_to_pa(da);
}

/// A contiguous region mapped between the host-physical and device address
/// spaces.
pub trait Region {
    /// The region's host-physical base in specifications.
    spec fn spec_pa(&self) -> usize;

    /// The region's device base in specifications.
    spec fn spec_da(&self) -> usize;

    /// The region's length in specifications.
    spec fn spec_len(&self) -> usize;

    /// The region's host-physical base.
    fn get_pa(&self) -> (r: usize)
        ensures
            r == self.spec_pa();

    /// The region's device base.
    fn get_da(&self) -> (r: usize)
        ensures
            r == self.spec_da();

    /// The region's length.
    fn get_len(&self) -> (r: usize)
        ensures
            r == self.spec_len();

    /// Translate a host-physical address inside this region to the device
    /// address at the same offset; addresses outside give `None`.
    fn pa_to_da(&self, given_pa: usize) -> (r: Option<usize>)
        requires
            self.spec_pa() + self.spec_len() <= usize::MAX,
            self.spec_da() + self.spec_len() <= usize::MAX,
        ensures
            r is Some <==> self.spec_pa() <= given_pa < self.spec_pa() + self.spec_len(),
            r is Some ==> r == Some((self.spec_da() + (given_pa - self.spec_pa())) as usize),
    {
        if (given_pa >= self.get_pa()) && (given_pa < (self.get_pa() + self.get_len())) {
            let offset = given_pa - self.get_pa();
            Some(self.get_da() + offset)
        } else {
            None
        }
    }

    /// Translate a device address inside this region to the host-physical
    /// address at the same offset; addresses outside give `None`.
    fn da_to_pa(&self, given_da: usize) -> (r: Option<usize>)
        requires
            self.spec_pa() + self.spec_len() <= usize::MAX,
            self.spec_da() + self.spec_len() <= usize::MAX,
        ensures
            r is Some <==> self.spec_da() <= given_da < self.spec_da() + self.spec_len(),
            r is Some ==> r == Some((self.spec_pa() + (given_da - self.spec_da())) as usize),
    {
        if (given_da >= self.get_da()) && (given_da < (self.get_da() + self.get_len())) {
            let offset = given_da - self.get_da();
            Some(self.get_pa() + offset)
        } else {
            None
        }
    }
}

impl Region for Carveout {
    open spec fn spec_pa(&self) -> usize {
        self.pa
    }

    open spec fn spec_da(&self) -> usize {
        self.da
    }

    open spec fn spec_len(&self) -> usize {
        self.len
    }

    fn get_pa(&self) -> usize {
        self.pa
    }

    fn get_da(&self) -> usize {
        self.da
    }

    fn get_len(&self) -> usize {
        self.len
    }
}

impl Region for Devmem {
    open spec fn spec_pa(&self) -> usize {
        self.pa
    }

    open spec fn spec_da(&self) -> usize {
        self.da
    }

    open spec fn spec_len(&self) -> usize {
        self.len
    }

    fn get_pa(&self) -> usize {
        self.pa
    }

    fn get_da(&self) -> usize {
        self.da
    }

    fn get_len(&self) -> usize {
        self.len
    }
}

/// A region reduced to its two bases and length, `(pa, da, len)`, for
/// first-match lookup over a whole table.
pub type RegionDesc = (usize, usize, usize);

/// The region's bounds do not wrap either address space.
pub open spec fn spec_region_wf(r: RegionDesc) -> bool {
    &&& r.0 + r.2 <= usize::MAX
    &&& r.1 + r.2 <= usize::MAX
}

/// First-match translation of a host-physical address over a region list.
pub open spec fn spec_lookup_pa(regions: Seq<RegionDesc>, pa: usize) -> Option<usize>
    decreases regions.len(),
{
    if regions.len() == 0 {
        None
    } else if regions[0].0 <= pa < regions[0].0 + regions[0].2 {
        Some((regions[0].1 + (pa - regions[0].0)) as usize)
    } else {
        spec_lookup_pa(regions.drop_first(), pa)
    }
}

/// First-match translation of a device address over a region list.
pub open spec fn spec_lookup_da(regions: Seq<RegionDesc>, da: usize) -> Option<usize>
    decreases regions.len(),
{
    if regions.len() == 0 {
        None
    } else if regions[0].1 <= da < regions[0].1 + regions[0].2 {
        Some((regions[0].0 + (da - regions[0].1)) as usize)
    } else {
        spec_lookup_da(regions.drop_first(), da)
    }
}

/// Translate a host-physical address through a region list, first match
/// winning.
pub fn lookup_pa(regions: &Vec<RegionDesc>, pa: usize) -> (r: Option<usize>)
    requires
        forall|i: int| 0 <= i < regions@.len() ==> spec_region_wf(#[trigger] regions@[i]),
    ensures
        r == spec_lookup_pa(regions@, pa),
{
    let n = regions.len();
    proof {
        assert(regions@.skip(0) =~= regions@);
    }
    let mut i: usize = 0;
    while i < n
        invariant
            i <= n,
            n == regions@.len(),
            forall|j: int| 0 <= j < regions@.len() ==> spec_region_wf(#[trigger] regions@[j]),
            spec_lookup_pa(regions@, pa) == spec_lookup_pa(regions@.skip(i as int), pa),
        decreases n - i,
    {
        let (rpa, rda, rlen) = regions[i];
        proof {
            assert(regions@.skip(i as int)[0] == regions@[i as int]);
            assert(regions@.skip(i as int).drop_first() =~= regions@.skip(i as int + 1));
        }
        if pa >= rpa && pa < rpa + rlen {
            return Some(rda + (pa - rpa));
        }
        i = i + 1;
    }
    proof {
        assert(regions@.skip(n as int).len() == 0);
    }
    None
}

/// Translate a device address through a region list, first match winning.
pub fn lookup_da(regions: &Vec<RegionDesc>, da: usize) -> (r: Option<usize>)
    requires
        forall|i: int| 0 <= i < regions@.len() ==> spec_region_wf(#[trigger] regions@[i]),
    ensures
        r == spec_lookup_da(regions@, da),
{
    let n = regions.len();
    proof {
        assert(regions@.skip(0) =~= regions@);
    }
    let mut i: usize = 0;
    while i < n
        invariant
            i <= n,
            n == regions@.len(),
            forall|j: int| 0 <= j < regions@.len() ==> spec_region_wf(#[trigger] regions@[j]),
            spec_lookup_da(regions@, da) == spec_lookup_da(regions@.skip(i as int), da),
        decreases n - i,
    {
        let (rpa, rda, rlen) = regions[i];
        proof {
            assert(regions@.skip(i as int)[0] == regions@[i as int]);
            assert(regions@.skip(i as int).drop_first() =~= regions@.skip(i as int + 1));
        }
        if da >= rda && da < rda + rlen {
            return Some(rpa + (da - rda));
        }
        i = i + 1;
    }
    proof {
        assert(regions@.skip(n as int).len() == 0);
    }
    None
}

/// The host-physical ranges of two regions do not overlap.
pub open spec fn spec_pa_disjoint(a: RegionDesc, b: RegionDesc) -> bool {
    a.0 + a.2 <= b.0 || b.0 + b.2 <= a.0
}

/// The device ranges of two regions do not overlap.
pub open spec fn spec_da_disjoint(a: RegionDesc, b: RegionDesc) -> bool {
    a.1 + a.2 <= b.1 || b.1 + b.2 <= a.1
}

/// All regions of a list are pairwise disjoint in both address spaces.
pub open spec fn spec_regions_disjoint(regions: Seq<RegionDesc>) -> bool {
    forall|i: int, j: int|
        0 <= i < regions.len() && 0 <= j < regions.len() && i != j ==> spec_pa_disjoint(
            #[trigger] regions[i],
            #[trigger] regions[j],
        ) && spec_da_disjoint(regions[i], regions[j])
}

/// Address-map round-trip, host-physical first: over disjoint regions,
/// any host-physical address inside some region translates to a device
/// address, and translating that device address back gives the original.
pub proof fn lemma_pa_round_trip(regions: Seq<RegionDesc>, k: int, pa: usize)
    requires
        forall|i: int| 0 <= i < regions.len() ==> spec_region_wf(#[trigger] regions[i]),
        spec_regions_disjoint(regions),
        0 <= k < regions.len(),
        regions[k].0 <= pa < regions[k].0 + regions[k].2,
    ensures
        spec_lookup_pa(regions, pa) == Some(
            (regions[k].1 + (pa - regions[k].0)) as usize,
        ),
        spec_lookup_da(regions, (regions[k].1 + (pa - regions[k].0)) as usize) == Some(pa),
    decreases regions.len(),
{
    let da = (regions[k].1 + (pa - regions[k].0)) as usize;
    if regions[0].0 <= pa < regions[0].0 + regions[0].2 {
        // Disjointness forces the matching region to be the first.
        assert(k == 0) by {
            if k != 0 {
                assert(spec_pa_disjoint(regions[0], regions[k]));
            }
        }
        assert(regions[0].1 <= da < regions[0].1 + regions[0].2);
    } else {
        assert(k != 0);
        assert(!(regions[0].1 <= da < regions[0].1 + regions[0].2)) by {
            assert(spec_da_disjoint(regions[0], regions[k]));
        }
        let rest = regions.drop_first();
        assert(forall|i: int|
            0 <= i < rest.len() ==> #[trigger] rest[i] == regions[i + 1]);
        assert(spec_regions_disjoint(rest)) by {
            assert(forall|i: int, j: int|
                0 <= i < rest.len() && 0 <= j < rest.len() && i != j ==> spec_pa_disjoint(
                    #[trigger] rest[i],
                    #[trigger] rest[j],
                ) && spec_da_disjoint(rest[i], rest[j])) by {
                assert forall|i: int, j: int|
                    0 <= i < rest.len() && 0 <= j < rest.len() && i != j implies spec_pa_disjoint(
                    #[trigger] rest[i],
                    #[trigger] rest[j],
                ) && spec_da_disjoint(rest[i], rest[j]) by {
                    assert(rest[i] == regions[i + 1] && rest[j] == regions[j + 1]);
                }
            }
        }
        lemma_pa_round_trip(rest, k - 1, pa);
    }
}

/// Address-map round-trip, device side: the mirror image of
/// [`lemma_pa_round_trip`].
pub proof fn lemma_da_round_trip(regions: Seq<RegionDesc>, k: int, da: usize)
    requires
        forall|i: int| 0 <= i < regions.len() ==> spec_region_wf(#[trigger] regions[i]),
        spec_regions_disjoint(regions),
        0 <= k < regions.len(),
        regions[k].1 <= da < regions[k].1 + regions[k].2,
    ensures
        spec_lookup_da(regions, da) == Some(
            (regions[k].0 + (da - regions[k].1)) as usize,
        ),
        spec_lookup_pa(regions, (regions[k].0 + (da - regions[k].1)) as usize) == Some(da),
    decreases regions.len(),
{
    let pa = (regions[k].0 + (da - regions[k].1)) as usize;
    if regions[0].1 <= da < regions[0].1 + regions[0].2 {
        assert(k == 0) by {
            if k != 0 {
                assert(spec_da_disjoint(regions[0], regions[k]));
            }
        }
        assert(regions[0].0 <= pa < regions[0].0 + regions[0].2);
    } else {
        assert(k != 0);
        assert(!(regions[0].0 <= pa < regions[0].0 + regions[0].2)) by {
            assert(spec_pa_disjoint(regions[0], regions[k]));
        }
        let rest = regions.drop_first();
        assert(forall|i: int|
            0 <= i < rest.len() ==> #[trigger] rest[i] == regions[i + 1]);
        assert(spec_regions_disjoint(rest)) by {
            assert forall|i: int, j: int|
                0 <= i < rest.len() && 0 <= j < rest.len() && i != j implies spec_pa_disjoint(
                #[trigger] rest[i],
                #[trigger] rest[j],
            ) && spec_da_disjoint(rest[i], rest[j]) by {
                assert(rest[i] == regions[i + 1] && rest[j] == regions[j + 1]);
            }
        }
        lemma_da_round_trip(rest, k - 1, da);
    }
}

} // verus!
