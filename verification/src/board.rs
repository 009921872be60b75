//! The resource table of this firmware: the entries the host parses at
//! load time, closely following the vendor example layout for this part.
//! The table also implements [`AddressMapper`] over its carveout and
//! device-memory regions, first match winning.

use crate::resource_table as rt;
use crate::resource_table::{
    lookup_da, lookup_pa, spec_lookup_da, spec_lookup_pa, spec_region_wf, AddressMapper,
    RegionDesc,
};
use crate::string32::String32;
use crate::vring;
use vstd::prelude::*;

verus! {

/// Number of entries in this table.
pub const NUM_ENTRIES: usize = 21;

/// Bytes taken by the table header and the offset array on the device,
/// where the header occupies 16 bytes and each offset 4.
pub const SZ_RT_HEADER: usize = 16 + NUM_ENTRIES * 4;

/// L3 address of on-chip RAM.
pub const L3_OCMC_RAM: usize = 0x4030_0000;

/// L4 peripheral block 1.
pub const L4_PERIPHERAL_L4PER1: usize = 0x4800_0000;

/// L4 peripheral block 2.
pub const L4_PERIPHERAL_L4PER2: usize = 0x4840_0000;

/// L4 peripheral block 3, which holds most mailboxes.
pub const L4_PERIPHERAL_L4PER3: usize = 0x4880_0000;

/// L4 configuration block.
pub const L4_PERIPHERAL_L4CFG: usize = 0x4A00_0000;

/// L3 PRU subsystem.
pub const L3_PERIPHERAL_PRUSS: usize = 0x4B20_0000;

/// L3 dynamic memory manager.
pub const L3_PERIPHERAL_DMM: usize = 0x4E00_0000;

/// L4 emulation block.
pub const L4_PERIPHERAL_L4EMU: usize = 0x5400_0000;

/// L3 video accelerator configuration.
pub const L3_IVAHD_CONFIG: usize = 0x5A00_0000;

/// L3 video accelerator level-2 RAM.
pub const L3_IVAHD_SL2: usize = 0x5B00_0000;

/// L3 tiler modes 0 and 1.
pub const L3_TILER_MODE_0_1: usize = 0x6000_0000;

/// L3 tiler mode 2.
pub const L3_TILER_MODE_2: usize = 0x7000_0000;

/// L3 tiler mode 3.
pub const L3_TILER_MODE_3: usize = 0x7800_0000;

/// L3 external SDRAM.
pub const L3_EMIF_SDRAM: usize = 0xA000_0000;

/// This resource table structure is what the host kernel processes. The
/// offsets array must match the layout of the entries that follow.
#[derive(Debug)]
pub struct ResourceTable {
    /// The table header.
    pub base: rt::Header,
    /// Byte offset of each entry from the start of the table.
    pub offsets: [usize; 21],
    /// The rpmsg virtio device.
    pub rpmsg_vdev: rt::Vdev,
    /// Ring for firmware-to-host messages.
    pub rpmsg_vring0: rt::VdevVring,
    /// Ring for host-to-firmware messages.
    pub rpmsg_vring1: rt::VdevVring,
    /// Code carveout.
    pub text_cout: rt::Carveout,
    /// Data carveout.
    pub data_cout: rt::Carveout,
    /// IPC data carveout.
    pub ipcdata_cout: rt::Carveout,
    /// The trace buffer entry.
    pub trace: rt::Trace,
    /// Mapped device memory.
    pub devmem0: rt::Devmem,
    /// Mapped device memory.
    pub devmem1: rt::Devmem,
    /// Mapped device memory.
    pub devmem2: rt::Devmem,
    /// Mapped device memory.
    pub devmem3: rt::Devmem,
    /// Mapped device memory.
    pub devmem4: rt::Devmem,
    /// Mapped device memory.
    pub devmem5: rt::Devmem,
    /// Mapped device memory.
    pub devmem6: rt::Devmem,
    /// Mapped device memory.
    pub devmem7: rt::Devmem,
    /// Mapped device memory.
    pub devmem8: rt::Devmem,
    /// Mapped device memory.
    pub devmem9: rt::Devmem,
    /// Mapped device memory.
    pub devmem10: rt::Devmem,
    /// Mapped device memory.
    pub devmem11: rt::Devmem,
    /// Mapped device memory.
    pub devmem12: rt::Devmem,
    /// Mapped device memory.
    pub devmem13: rt::Devmem,
    /// Mapped device memory.
    pub devmem14: rt::Devmem,
    /// Mapped device memory.
    pub devmem15: rt::Devmem,
}

impl ResourceTable {
    /// The `(pa, da, len)` triples of the table's address-mapped regions,
    /// in lookup order: the two RAM carveouts first, then the sixteen
    /// device-memory windows.
    pub open spec fn spec_regions(self) -> Seq<RegionDesc> {
        seq![
            (self.text_cout.pa, self.text_cout.da, self.text_cout.len),
            (self.data_cout.pa, self.data_cout.da, self.data_cout.len),
            (self.devmem0.pa, self.devmem0.da, self.devmem0.len),
            (self.devmem1.pa, self.devmem1.da, self.devmem1.len),
            (self.devmem2.pa, self.devmem2.da, self.devmem2.len),
            (self.devmem3.pa, self.devmem3.da, self.devmem3.len),
            (self.devmem4.pa, self.devmem4.da, self.devmem4.len),
            (self.devmem5.pa, self.devmem5.da, self.devmem5.len),
            (self.devmem6.pa, self.devmem6.da, self.devmem6.len),
            (self.devmem7.pa, self.devmem7.da, self.devmem7.len),
            (self.devmem8.pa, self.devmem8.da, self.devmem8.len),
            (self.devmem9.pa, self.devmem9.da, self.devmem9.len),
            (self.devmem10.pa, self.devmem10.da, self.devmem10.len),
            (self.devmem11.pa, self.devmem11.da, self.devmem11.len),
            (self.devmem12.pa, self.devmem12.da, self.devmem12.len),
            (self.devmem13.pa, self.devmem13.da, self.devmem13.len),
            (self.devmem14.pa, self.devmem14.da, self.devmem14.len),
            (self.devmem15.pa, self.devmem15.da, self.devmem15.len),
        ]
    }

    /// Every mapped region stays within the address space.
    pub open spec fn spec_regions_wf(self) -> bool {
        forall|i: int|
            0 <= i < self.spec_regions().len() ==> spec_region_wf(#[trigger] self.spec_regions()[i])
    }

    /// The region triples as a vector, for the lookup loops.
    pub fn regions(&self) -> (r: Vec<RegionDesc>)
        ensures
            r@ == self.spec_regions(),
    {
        let mut r: Vec<RegionDesc> = Vec::new();
        r.push((self.text_cout.pa, self.text_cout.da, self.text_cout.len));
        r.push((self.data_cout.pa, self.data_cout.da, self.data_cout.len));
        r.push((self.devmem0.pa, self.devmem0.da, self.devmem0.len));
        r.push((self.devmem1.pa, self.devmem1.da, self.devmem1.len));
        r.push((self.devmem2.pa, self.devmem2.da, self.devmem2.len));
        r.push((self.devmem3.pa, self.devmem3.da, self.devmem3.len));
        r.push((self.devmem4.pa, self.devmem4.da, self.devmem4.len));
        r.push((self.devmem5.pa, self.devmem5.da, self.devmem5.len));
        r.push((self.devmem6.pa, self.devmem6.da, self.devmem6.len));
        r.push((self.devmem7.pa, self.devmem7.da, self.devmem7.len));
        r.push((self.devmem8.pa, self.devmem8.da, self.devmem8.len));
        r.push((self.devmem9.pa, self.devmem9.da, self.devmem9.len));
        r.push((self.devmem10.pa, self.devmem10.da, self.devmem10.len));
        r.push((self.devmem11.pa, self.devmem11.da, self.devmem11.len));
        r.push((self.devmem12.pa, self.devmem12.da, self.devmem12.len));
        r.push((self.devmem13.pa, self.devmem13.da, self.devmem13.len));
        r.push((self.devmem14.pa, self.devmem14.da, self.devmem14.len));
        r.push((self.devmem15.pa, self.devmem15.da, self.devmem15.len));
        proof {
            assert(r@ =~= self.spec_regions());
        }
        r
    }

    /// The table as this firmware links it, before the host has filled in
    /// the carveout addresses and the device status.
    #[verifier::rlimit(100)]
    pub fn new() -> (r: ResourceTable)
        ensures
            r.base.ver == 1,
            r.base.num == NUM_ENTRIES,
            r.rpmsg_vdev.rtype == rt::ResourceType::VDEV,
            r.rpmsg_vdev.id == vring::VIRTIO_ID_RPMSG,
            r.rpmsg_vdev.status == 0,
            r.rpmsg_vdev.num_of_vrings == 2,
            r.rpmsg_vring0 == (rt::VdevVring {
                da: 0x60000000,
                align: 4096,
                num: 256,
                notifyid: 1,
                reserved: 0,
            }),
            r.rpmsg_vring1 == (rt::VdevVring {
                da: 0x60004000,
                align: 4096,
                num: 256,
                notifyid: 2,
                reserved: 0,
            }),
            r.trace.da == 0x9F000000,
            r.trace.len == 16384,
            r.spec_regions_wf(),
    {
        let r = ResourceTable {
            base: rt::Header { ver: 1, num: NUM_ENTRIES, reserved: [0, 0] },
            // There is no offset-of operator here, so these are calculated
            // by hand, exactly as the host will walk the table.
            offsets: [
                SZ_RT_HEADER,
                SZ_RT_HEADER + 68,
                SZ_RT_HEADER + 124,
                SZ_RT_HEADER + 180,
                SZ_RT_HEADER + 236,
                SZ_RT_HEADER + 284,
                SZ_RT_HEADER + 340,
                SZ_RT_HEADER + 396,
                SZ_RT_HEADER + 452,
                SZ_RT_HEADER + 508,
                SZ_RT_HEADER + 564,
                SZ_RT_HEADER + 620,
                SZ_RT_HEADER + 676,
                SZ_RT_HEADER + 732,
                SZ_RT_HEADER + 788,
                SZ_RT_HEADER + 844,
                SZ_RT_HEADER + 900,
                SZ_RT_HEADER + 956,
                SZ_RT_HEADER + 1012,
                SZ_RT_HEADER + 1068,
                SZ_RT_HEADER + 1124,
            ],
            rpmsg_vdev: rt::Vdev {
                rtype: rt::ResourceType::VDEV,
                id: vring::VIRTIO_ID_RPMSG,
                notifyid: 0,
                dfeatures: 1,
                gfeatures: 0,
                config_len: 0,
                status: 0,
                num_of_vrings: 2,
                reserved: [0, 0],
            },
            // vring0 carries firmware-to-host traffic.
            rpmsg_vring0: rt::VdevVring {
                da: 0x60000000,
                align: 4096,
                num: 256,
                notifyid: 1,
                reserved: 0,
            },
            // vring1 carries host-to-firmware traffic.
            rpmsg_vring1: rt::VdevVring {
                da: 0x60004000,
                align: 4096,
                num: 256,
                notifyid: 2,
                reserved: 0,
            },
            text_cout: rt::Carveout {
                rtype: rt::ResourceType::CARVEOUT,
                da: 0x00000000,
                pa: 0,  // Allocated by the host at load time.
                len: rt::SZ_1M,
                flags: 0,
                reserved: 0,
                name: String32::from_str("IPU_MEM_TEXT"),
            },
            data_cout: rt::Carveout {
                rtype: rt::ResourceType::CARVEOUT,
                da: 0x80000000,
                pa: 0,  // Allocated by the host at load time.
                len: 5 * rt::SZ_1M,
                flags: 0,
                reserved: 0,
                name: String32::from_str("IPU_MEM_DATA"),
            },
            ipcdata_cout: rt::Carveout {
                rtype: rt::ResourceType::CARVEOUT,
                da: 0x9F000000,
                pa: 0,  // Allocated by the host at load time.
                len: rt::SZ_1M,
                flags: 0,
                reserved: 0,
                name: String32::from_str("IPU_MEM_IPC_DATA"),
            },
            // The trace buffer must be linked at this device address, with
            // the same size as stated here.
            trace: rt::Trace {
                rtype: rt::ResourceType::TRACE,
                da: 0x9F000000,
                len: 16384,
                reserved: 0,
                name: String32::from_str("trace:sysm3"),
            },
            devmem0: rt::Devmem {
                rtype: rt::ResourceType::DEVMEM,
                da: 0x60000000,
                // Must match the host's reserved memory for this core.
                pa: 0x9D000000,
                len: rt::SZ_1M,
                flags: 0,
                reserved: 0,
                name: String32::from_str("IPU_MEM_IPC_VRING"),
            },
            devmem1: rt::Devmem {
                rtype: rt::ResourceType::DEVMEM,
                da: 0x90000000,
                pa: 0xBA300000,
                len: 90 * rt::SZ_1M,
                flags: 0,
                reserved: 0,
                name: String32::from_str("IPU_MEM_IOBUFS"),
            },
            devmem2: rt::Devmem {
                rtype: rt::ResourceType::DEVMEM,
                da: 0xA0000000,
                pa: L3_TILER_MODE_0_1,
                len: rt::SZ_256M,
                flags: 0,
                reserved: 0,
                name: String32::from_str("IPU_TILER_MODE_0_1"),
            },
            devmem3: rt::Devmem {
                rtype: rt::ResourceType::DEVMEM,
                da: 0xB0000000,
                pa: L3_TILER_MODE_2,
                len: rt::SZ_128M,
                flags: 0,
                reserved: 0,
                name: String32::from_str("IPU_TILER_MODE_2"),
            },
            devmem4: rt::Devmem {
                rtype: rt::ResourceType::DEVMEM,
                da: 0xB8000000,
                pa: L3_TILER_MODE_3,
                len: rt::SZ_128M,
                flags: 0,
                reserved: 0,
                name: String32::from_str("IPU_TILER_MODE_3"),
            },
            devmem5: rt::Devmem {
                rtype: rt::ResourceType::DEVMEM,
                da: 0x6A000000,
                pa: L4_PERIPHERAL_L4CFG,
                len: rt::SZ_16M,
                flags: 0,
                reserved: 0,
                name: String32::from_str("IPU_PERIPHERAL_L4CFG"),
            },
            devmem6: rt::Devmem {
                rtype: rt::ResourceType::DEVMEM,
                da: 0x68000000,
                pa: L4_PERIPHERAL_L4PER1,
                len: rt::SZ_2M,
                flags: 0,
                reserved: 0,
                name: String32::from_str("IPU_PERIPHERAL_L4PER1"),
            },
            devmem7: rt::Devmem {
                rtype: rt::ResourceType::DEVMEM,
                da: 0x68400000,
                pa: L4_PERIPHERAL_L4PER2,
                len: rt::SZ_4M,
                flags: 0,
                reserved: 0,
                name: String32::from_str("IPU_PERIPHERAL_L4PER2"),
            },
            devmem8: rt::Devmem {
                rtype: rt::ResourceType::DEVMEM,
                da: 0x68800000,
                pa: L4_PERIPHERAL_L4PER3,
                len: rt::SZ_8M,
                flags: 0,
                reserved: 0,
                name: String32::from_str("IPU_PERIPHERAL_L4PER3"),
            },
            devmem9: rt::Devmem {
                rtype: rt::ResourceType::DEVMEM,
                da: 0x74000000,
                pa: L4_PERIPHERAL_L4EMU,
                len: rt::SZ_16M,
                flags: 0,
                reserved: 0,
                name: String32::from_str("IPU_PERIPHERAL_L4EMU"),
            },
            devmem10: rt::Devmem {
                rtype: rt::ResourceType::DEVMEM,
                da: 0x6B200000,
                pa: L3_PERIPHERAL_PRUSS,
                len: rt::SZ_1M,
                flags: 0,
                reserved: 0,
                name: String32::from_str("IPU_PERIPHERAL_PRUSS"),
            },
            devmem11: rt::Devmem {
                rtype: rt::ResourceType::DEVMEM,
                da: 0x7A000000,
                pa: L3_IVAHD_CONFIG,
                len: rt::SZ_16M,
                flags: 0,
                reserved: 0,
                name: String32::from_str("IPU_IVAHD_CONFIG"),
            },
            devmem12: rt::Devmem {
                rtype: rt::ResourceType::DEVMEM,
                da: 0x7B000000,
                pa: L3_IVAHD_SL2,
                len: rt::SZ_16M,
                flags: 0,
                reserved: 0,
                name: String32::from_str("IPU_IVAHD_SL2"),
            },
            devmem13: rt::Devmem {
                rtype: rt::ResourceType::DEVMEM,
                da: 0x6E000000,
                pa: L3_PERIPHERAL_DMM,
                len: rt::SZ_1M,
                flags: 0,
                reserved: 0,
                name: String32::from_str("IPU_PERIPHERAL_DMM"),
            },
            devmem14: rt::Devmem {
                rtype: rt::ResourceType::DEVMEM,
                da: 0x60300000,
                pa: L3_OCMC_RAM,
                len: rt::SZ_4M,
                flags: 0,
                reserved: 0,
                name: String32::from_str("IPU_OCMC_RAM"),
            },
            devmem15: rt::Devmem {
                rtype: rt::ResourceType::DEVMEM,
                da: 0x10000000,
                pa: L3_EMIF_SDRAM,
                len: rt::SZ_256M,
                flags: 0,
                reserved: 0,
                name: String32::from_str("IPU_EMIF_SDRAM"),
            },
        };
        r
    }
}

impl AddressMapper for ResourceTable {
    open spec fn spec_mapper_wf(&self) -> bool {
        self.spec_regions_wf()
    }

    open spec fn spec_pa_to_da(&self, pa: usize) -> Option<usize> {
        spec_lookup_pa(self.spec_regions(), pa)
    }

    open spec fn spec_da_to_pa(&self, da: usize) -> Option<usize> {
        spec_lookup_da(self.spec_regions(), da)
    }

    fn pa_to_da(&self, pa: usize) -> Option<usize> {
        let regions = self.regions();
        lookup_pa(&regions, pa)
    }

    fn da_to_pa(&self, da: usize) -> Option<usize> {
        let regions = self.regions();
        lookup_da(&regions, da)
    }
}

/// Translate a host-physical address from a descriptor into one the
/// firmware can dereference. The table must map the address: this is the
/// boot-time lookup the firmware cannot proceed without.
pub fn address_map(table: &ResourceTable, physical_address: u64) -> (r: u64)
    requires
        table.spec_regions_wf(),
        physical_address <= usize::MAX,
        spec_lookup_pa(table.spec_regions(), physical_address as usize) is Some,
    ensures
        Some(r as usize) == spec_lookup_pa(table.spec_regions(), physical_address as usize),
{
    let regions = table.regions();
    let r = lookup_pa(&regions, physical_address as usize);
    match r {
        Some(da) => da as u64,
        None => 0,
    }
}

} // verus!
