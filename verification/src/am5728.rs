//! Chip-specific knowledge for the co-processor: mailbox geometry and
//! addresses, interrupt numbering, and the values written to the L1 cache
//! ("Unicache") controller and its address-mapping unit ("AMMU"). Only
//! the pure computations live here — which registers get which values;
//! performing the writes is left to the code that owns the hardware.

use vstd::prelude::*;

verus! {

/// One of the four user interrupt domains of a mailbox.
#[derive(Debug, Clone, Copy, PartialEq, Eq, Structural)]
pub enum MailboxUser {
    /// User domain 0.
    User0,
    /// User domain 1.
    User1,
    /// User domain 2.
    User2,
    /// User domain 3.
    User3,
}

impl MailboxUser {
    /// Index of this user domain.
    pub open spec fn spec_index(self) -> u32 {
        match self {
            MailboxUser::User0 => 0,
            MailboxUser::User1 => 1,
            MailboxUser::User2 => 2,
            MailboxUser::User3 => 3,
        }
    }

    pub fn index(self) -> (r: u32)
        returns
            self.spec_index(),
    {
        match self {
            MailboxUser::User0 => 0,
            MailboxUser::User1 => 1,
            MailboxUser::User2 => 2,
            MailboxUser::User3 => 3,
        }
    }
}

/// One of the twelve 32-bit message slots of a mailbox.
#[derive(Debug, Clone, Copy, PartialEq, Eq, Structural)]
pub enum MailboxSlot {
    /// Message slot 0.
    Slot0,
    /// Message slot 1.
    Slot1,
    /// Message slot 2.
    Slot2,
    /// Message slot 3.
    Slot3,
    /// Message slot 4.
    Slot4,
    /// Message slot 5.
    Slot5,
    /// Message slot 6.
    Slot6,
    /// Message slot 7.
    Slot7,
    /// Message slot 8.
    Slot8,
    /// Message slot 9.
    Slot9,
    /// Message slot 10.
    Slot10,
    /// Message slot 11.
    Slot11,
}

impl MailboxSlot {
    /// Index of this slot.
    pub open spec fn spec_index(self) -> u32 {
        match self {
            MailboxSlot::Slot0 => 0,
            MailboxSlot::Slot1 => 1,
            MailboxSlot::Slot2 => 2,
            MailboxSlot::Slot3 => 3,
            MailboxSlot::Slot4 => 4,
            MailboxSlot::Slot5 => 5,
            MailboxSlot::Slot6 => 6,
            MailboxSlot::Slot7 => 7,
            MailboxSlot::Slot8 => 8,
            MailboxSlot::Slot9 => 9,
            MailboxSlot::Slot10 => 10,
            MailboxSlot::Slot11 => 11,
        }
    }

    pub fn index(self) -> (r: u32)
        returns
            self.spec_index(),
    {
        match self {
            MailboxSlot::Slot0 => 0,
            MailboxSlot::Slot1 => 1,
            MailboxSlot::Slot2 => 2,
            MailboxSlot::Slot3 => 3,
            MailboxSlot::Slot4 => 4,
            MailboxSlot::Slot5 => 5,
            MailboxSlot::Slot6 => 6,
            MailboxSlot::Slot7 => 7,
            MailboxSlot::Slot8 => 8,
            MailboxSlot::Slot9 => 9,
            MailboxSlot::Slot10 => 10,
            MailboxSlot::Slot11 => 11,
        }
    }

    /// Bit of this slot in an interrupt register that fires when the slot
    /// receives data.
    pub fn get_data_bit(&self) -> (r: u32)
        ensures
            r == 1u32 << (self.spec_index() * 2),
    {
        1 << (self.index() * 2)
    }

    /// Bit of this slot in an interrupt register that fires when the slot
    /// gains space.
    pub fn get_space_bit(&self) -> (r: u32)
        ensures
            r == 1u32 << ((self.spec_index() + 1) * 2),
    {
        1 << ((self.index() + 1) * 2)
    }
}

/// One of the thirteen mailbox instances of the chip.
#[derive(Debug, Clone, Copy, PartialEq, Eq, Structural)]
pub enum MailboxId {
    /// Mailbox instance 1.
    Mailbox1,
    /// Mailbox instance 2.
    Mailbox2,
    /// Mailbox instance 3.
    Mailbox3,
    /// Mailbox instance 4.
    Mailbox4,
    /// Mailbox instance 5.
    Mailbox5,
    /// Mailbox instance 6.
    Mailbox6,
    /// Mailbox instance 7.
    Mailbox7,
    /// Mailbox instance 8.
    Mailbox8,
    /// Mailbox instance 9.
    Mailbox9,
    /// Mailbox instance 10.
    Mailbox10,
    /// Mailbox instance 11.
    Mailbox11,
    /// Mailbox instance 12.
    Mailbox12,
    /// Mailbox instance 13.
    Mailbox13,
}

impl MailboxId {
    /// Host-physical base address of this mailbox instance, from the
    /// chip's mailbox instance summary.
    pub open spec fn spec_base_pa(self) -> usize {
        match self {
            MailboxId::Mailbox1 => 0x4a0f4000,
            MailboxId::Mailbox2 => 0x4883a000,
            MailboxId::Mailbox3 => 0x4883c000,
            MailboxId::Mailbox4 => 0x4883e000,
            MailboxId::Mailbox5 => 0x48840000,
            MailboxId::Mailbox6 => 0x48842000,
            MailboxId::Mailbox7 => 0x48844000,
            MailboxId::Mailbox8 => 0x48846000,
            MailboxId::Mailbox9 => 0x4885e000,
            MailboxId::Mailbox10 => 0x48860000,
            MailboxId::Mailbox11 => 0x48862000,
            MailboxId::Mailbox12 => 0x48864000,
            MailboxId::Mailbox13 => 0x48802000,
        }
    }
}

/// Host-physical base address of a mailbox instance. The address must
/// still be translated through the resource table before the core can
/// dereference it.
pub fn mailbox_base_pa(id: MailboxId) -> (r: usize)
    returns
        id.spec_base_pa(),
{
    match id {
            MailboxId::Mailbox1 => 0x4a0f4000,
            MailboxId::Mailbox2 => 0x4883a000,
            MailboxId::Mailbox3 => 0x4883c000,
            MailboxId::Mailbox4 => 0x4883e000,
            MailboxId::Mailbox5 => 0x48840000,
            MailboxId::Mailbox6 => 0x48842000,
            MailboxId::Mailbox7 => 0x48844000,
            MailboxId::Mailbox8 => 0x48846000,
            MailboxId::Mailbox9 => 0x4885e000,
            MailboxId::Mailbox10 => 0x48860000,
            MailboxId::Mailbox11 => 0x48862000,
            MailboxId::Mailbox12 => 0x48864000,
            MailboxId::Mailbox13 => 0x48802000,
    }
}

/// A (mailbox, user, slot) triple naming one notification channel.
#[derive(Debug, Clone, Copy, PartialEq, Eq, Structural)]
pub struct MailboxLocation {
    /// Which mailbox instance.
    pub id: MailboxId,
    /// Which user interrupt domain.
    pub user: MailboxUser,
    /// Which message slot.
    pub slot: MailboxSlot,
}

/// Unlock bit of the Unicache config register.
pub const CFG_CONFIG_UNLOCK_MAIN: u32 = 1 << 4;

/// Port-unlock bit of the Unicache config register.
pub const CFG_CONFIG_UNLOCK_PORT: u32 = 1 << 3;

/// Interrupt-unlock bit of the Unicache config register.
pub const CFG_CONFIG_UNLOCK_INT: u32 = 1 << 2;

/// Cache-enable bit of the Unicache config register.
pub const CFG_CONFIG_DISABLE_BYPASS: u32 = 1 << 1;

/// Lock bit of the Unicache config register.
pub const CFG_CONFIG_CACHE_LOCK: u32 = 1 << 0;

/// Maintenance-interrupt bit of the Unicache maintenance register.
pub const CFG_MAINT_INTERRUPT: u32 = 1 << 5;

/// Invalidate bit of the Unicache maintenance register.
pub const CFG_MAINT_INVALIDATE: u32 = 1 << 4;

/// Write-back bit of the Unicache maintenance register.
pub const CFG_MAINT_CLEAN: u32 = 1 << 3;

/// Unlock bit of the Unicache maintenance register.
pub const CFG_MAINT_UNLOCK: u32 = 1 << 2;

/// Lock bit of the Unicache maintenance register.
pub const CFG_MAINT_LOCK: u32 = 1 << 1;

/// Preload bit of the Unicache maintenance register.
pub const CFG_MAINT_PRELOAD: u32 = 1 << 0;

/// Page-enable bit of an AMMU policy register.
pub const MMU_POLICY_ENABLED: u32 = 1 << 0;

/// Large-size bit of an AMMU policy register.
pub const MMU_POLICY_LARGE: u32 = 1 << 1;

/// Cacheability bit of an AMMU policy register.
pub const MMU_POLICY_CACHEABLE: u32 = 1 << 16;

/// Posted-writes bit of an AMMU policy register.
pub const MMU_POLICY_POSTED: u32 = 1 << 17;

/// Write-allocate bit of an AMMU policy register.
pub const MMU_POLICY_ALLOCATE: u32 = 1 << 18;

/// Write-back bit of an AMMU policy register.
pub const MMU_POLICY_WRITE_BACK: u32 = 1 << 19;

/// Global-flush bit of the AMMU maintenance register.
pub const MMU_MAINT_G_FLUSH: u32 = 1 << 10;

/// Invalidate bit of the AMMU maintenance register.
pub const MMU_MAINT_INVALIDATE: u32 = 1 << 4;

/// Write-back bit of the AMMU maintenance register.
pub const MMU_MAINT_CLEAN: u32 = 1 << 3;

/// Device address of the Unicache config registers, mapped by the
/// hardware; a core-local address that needs no translation.
pub const UNICACHE_CFG_ADDR: usize = 0x4000_0000;

/// Device address of the AMMU registers; core-local.
pub const UNICACHE_MMU_ADDR: usize = 0x4000_0800;

/// Device address of the wake-up generator; core-local.
pub const WUGEN_ADDR: usize = 0x4000_1000;

/// How a range is maintained in the L1 cache.
#[derive(Debug, Clone, Copy, PartialEq, Eq, Structural)]
pub enum CacheFlushMode {
    /// Write dirty lines back to memory.
    WriteBack,
    /// Drop cached lines without writing them back.
    Invalidate,
    /// Write dirty lines back, then drop them.
    InvalidateWriteBack,
}

impl CacheFlushMode {
    /// The bits this mode sets in the Unicache maintenance register.
    pub open spec fn spec_bits(self) -> u32 {
        match self {
            CacheFlushMode::WriteBack => CFG_MAINT_CLEAN,
            CacheFlushMode::Invalidate => CFG_MAINT_INVALIDATE,
            CacheFlushMode::InvalidateWriteBack => CFG_MAINT_CLEAN | CFG_MAINT_INVALIDATE,
        }
    }

    pub fn bits(self) -> (r: u32)
        returns
            self.spec_bits(),
    {
        match self {
            CacheFlushMode::WriteBack => CFG_MAINT_CLEAN,
            CacheFlushMode::Invalidate => CFG_MAINT_INVALIDATE,
            CacheFlushMode::InvalidateWriteBack => CFG_MAINT_CLEAN | CFG_MAINT_INVALIDATE,
        }
    }
}

/// How the whole address space is maintained through the AMMU.
#[derive(Debug, Clone, Copy, PartialEq, Eq, Structural)]
pub enum CacheFlushAllMode {
    /// Flush everything.
    Flush,
    /// Write dirty lines back to memory.
    WriteBack,
    /// Drop cached lines without writing them back.
    Invalidate,
    /// Write dirty lines back, then drop them.
    InvalidateWriteBack,
}

impl CacheFlushAllMode {
    /// The bits this mode sets in the AMMU maintenance register.
    pub open spec fn spec_bits(self) -> u32 {
        match self {
            CacheFlushAllMode::Flush => MMU_MAINT_G_FLUSH,
            CacheFlushAllMode::WriteBack => MMU_MAINT_CLEAN,
            CacheFlushAllMode::Invalidate => MMU_MAINT_INVALIDATE,
            CacheFlushAllMode::InvalidateWriteBack => MMU_MAINT_INVALIDATE | MMU_MAINT_CLEAN,
        }
    }

    pub fn bits(self) -> (r: u32)
        returns
            self.spec_bits(),
    {
        match self {
            CacheFlushAllMode::Flush => MMU_MAINT_G_FLUSH,
            CacheFlushAllMode::WriteBack => MMU_MAINT_CLEAN,
            CacheFlushAllMode::Invalidate => MMU_MAINT_INVALIDATE,
            CacheFlushAllMode::InvalidateWriteBack => MMU_MAINT_INVALIDATE | MMU_MAINT_CLEAN,
        }
    }
}

/// A maintenance command for the Unicache: the start and end addresses to
/// write to the maintenance range registers, and the mode bits to set.
/// The issuer then spins until the low five bits of the maintenance
/// register clear.
pub fn flush_range_command(address: usize, len: usize, mode: CacheFlushMode) -> (r: (
    usize,
    usize,
    u32,
))
    requires
        1 <= len,
        address + len - 1 <= usize::MAX,
    ensures
        r.0 == address,
        r.1 == address + len - 1,
        r.2 == mode.spec_bits(),
{
    (address, address + (len - 1), mode.bits())
}

/// A maintenance command for the AMMU covering the whole address space:
/// the range register values and the mode bits to set.
pub fn flush_all_command(mode: CacheFlushAllMode) -> (r: (usize, usize, u32))
    ensures
        r.0 == 0,
        r.1 == 0xffffffffusize,
        r.2 == mode.spec_bits(),
{
    (0, 0xffffffff, mode.bits())
}

/// The two page sizes of the AMMU that this firmware programs.
#[derive(Debug, Clone, Copy, PartialEq, Eq, Structural)]
pub enum AmmuPageSize {
    /// One of the large (512 MiB) pages.
    Large,
    /// One of the small (4 or 16 KiB) pages.
    Small,
}

/// One AMMU page configuration: which page register set, which entry in
/// it, the address the page matches, the address it translates to, and
/// the policy bits.
#[derive(Debug, Clone, Copy, PartialEq, Eq, Structural)]
pub struct AmmuPage {
    /// Large or small page.
    pub size: AmmuPageSize,
    /// Index within the page register set.
    pub index: usize,
    /// Address the page matches.
    pub addr: usize,
    /// Address the page translates to.
    pub translated: usize,
    /// Policy register value.
    pub policy: u32,
}

/// The nine AMMU pages the boot path programs, in order: a cacheable
/// large page over code and data at zero, a non-cacheable large page over
/// the peripherals, cacheable large pages over the shared RAM and the
/// tiler, a small page enlarging the core-local peripheral window so it
/// reaches the inter-core interrupt block, and four write-back small
/// pages mapping 64 KiB of L2 RAM.
pub open spec fn spec_ammu_setup() -> Seq<AmmuPage> {
    seq![
        AmmuPage {
            size: AmmuPageSize::Large,
            index: 0,
            addr: 0x00000000,
            translated: 0xFFFFFFFF,
            policy: MMU_POLICY_POSTED | MMU_POLICY_CACHEABLE | MMU_POLICY_LARGE
                | MMU_POLICY_ENABLED,
        },
        AmmuPage {
            size: AmmuPageSize::Large,
            index: 1,
            addr: 0x60000000,
            translated: 0xFFFFFFFF,
            policy: MMU_POLICY_POSTED | MMU_POLICY_LARGE | MMU_POLICY_ENABLED,
        },
        AmmuPage {
            size: AmmuPageSize::Large,
            index: 2,
            addr: 0x80000000,
            translated: 0xFFFFFFFF,
            policy: MMU_POLICY_POSTED | MMU_POLICY_CACHEABLE | MMU_POLICY_LARGE
                | MMU_POLICY_ENABLED,
        },
        AmmuPage {
            size: AmmuPageSize::Large,
            index: 3,
            addr: 0xa0000000,
            translated: 0xFFFFFFFF,
            policy: MMU_POLICY_POSTED | MMU_POLICY_CACHEABLE | MMU_POLICY_LARGE
                | MMU_POLICY_ENABLED,
        },
        AmmuPage {
            size: AmmuPageSize::Small,
            index: 1,
            addr: 0x40000000,
            translated: 0x55080000,
            policy: MMU_POLICY_LARGE | MMU_POLICY_ENABLED,
        },
        AmmuPage {
            size: AmmuPageSize::Small,
            index: 2,
            addr: 0x20000000,
            translated: 0x55020000,
            policy: MMU_POLICY_POSTED | MMU_POLICY_CACHEABLE | MMU_POLICY_LARGE
                | MMU_POLICY_ALLOCATE | MMU_POLICY_WRITE_BACK | MMU_POLICY_ENABLED,
        },
        AmmuPage {
            size: AmmuPageSize::Small,
            index: 3,
            addr: 0x20004000,
            translated: 0x55024000,
            policy: MMU_POLICY_POSTED | MMU_POLICY_CACHEABLE | MMU_POLICY_LARGE
                | MMU_POLICY_ALLOCATE | MMU_POLICY_WRITE_BACK | MMU_POLICY_ENABLED,
        },
        AmmuPage {
            size: AmmuPageSize::Small,
            index: 4,
            addr: 0x20008000,
            translated: 0x55028000,
            policy: MMU_POLICY_POSTED | MMU_POLICY_CACHEABLE | MMU_POLICY_LARGE
                | MMU_POLICY_ALLOCATE | MMU_POLICY_WRITE_BACK | MMU_POLICY_ENABLED,
        },
        AmmuPage {
            size: AmmuPageSize::Small,
            index: 5,
            addr: 0x2000C000,
            translated: 0x5502C000,
            policy: MMU_POLICY_POSTED | MMU_POLICY_CACHEABLE | MMU_POLICY_LARGE
                | MMU_POLICY_ALLOCATE | MMU_POLICY_WRITE_BACK | MMU_POLICY_ENABLED,
        },
    ]
}

/// The AMMU page table of the boot path: the paging is made essentially
/// transparent, with cache policy chosen per region. The caller writes
/// each entry to the AMMU's address, translation and policy registers.
pub fn unicache_mmu_setup() -> (r: Vec<AmmuPage>)
    ensures
        r@ == spec_ammu_setup(),
{
    let mut r: Vec<AmmuPage> = Vec::new();
    // This maps 512 MiB from zero with no translation: machine code and
    // data, cacheable.
    r.push(
        AmmuPage {
            size: AmmuPageSize::Large,
            index: 0,
            addr: 0x00000000,
            translated: 0xFFFFFFFF,
            policy: MMU_POLICY_POSTED | MMU_POLICY_CACHEABLE | MMU_POLICY_LARGE
                | MMU_POLICY_ENABLED,
        },
    );
    // Peripherals from 0x6000_0000: non-cacheable.
    r.push(
        AmmuPage {
            size: AmmuPageSize::Large,
            index: 1,
            addr: 0x60000000,
            translated: 0xFFFFFFFF,
            policy: MMU_POLICY_POSTED | MMU_POLICY_LARGE | MMU_POLICY_ENABLED,
        },
    );
    // Shared memory and IPC data: cacheable.
    r.push(
        AmmuPage {
            size: AmmuPageSize::Large,
            index: 2,
            addr: 0x80000000,
            translated: 0xFFFFFFFF,
            policy: MMU_POLICY_POSTED | MMU_POLICY_CACHEABLE | MMU_POLICY_LARGE
                | MMU_POLICY_ENABLED,
        },
    );
    // DMM and tiler: cacheable.
    r.push(
        AmmuPage {
            size: AmmuPageSize::Large,
            index: 3,
            addr: 0xa0000000,
            translated: 0xFFFFFFFF,
            policy: MMU_POLICY_POSTED | MMU_POLICY_CACHEABLE | MMU_POLICY_LARGE
                | MMU_POLICY_ENABLED,
        },
    );
    // The hardware maps 0x4000_0000 to 0x5508_0000 with a 4 KiB page by
    // default; enlarge it so it covers the inter-core interrupt
    // peripheral.
    r.push(
        AmmuPage {
            size: AmmuPageSize::Small,
            index: 1,
            addr: 0x40000000,
            translated: 0x55080000,
            policy: MMU_POLICY_LARGE | MMU_POLICY_ENABLED,
        },
    );
    // Map 64 KiB of L2 RAM to 0x2000_0000 using four 16 KiB pages.
    r.push(
        AmmuPage {
            size: AmmuPageSize::Small,
            index: 2,
            addr: 0x20000000,
            translated: 0x55020000,
            policy: MMU_POLICY_POSTED | MMU_POLICY_CACHEABLE | MMU_POLICY_LARGE
                | MMU_POLICY_ALLOCATE | MMU_POLICY_WRITE_BACK | MMU_POLICY_ENABLED,
        },
    );
    r.push(
        AmmuPage {
            size: AmmuPageSize::Small,
            index: 3,
            addr: 0x20004000,
            translated: 0x55024000,
            policy: MMU_POLICY_POSTED | MMU_POLICY_CACHEABLE | MMU_POLICY_LARGE
                | MMU_POLICY_ALLOCATE | MMU_POLICY_WRITE_BACK | MMU_POLICY_ENABLED,
        },
    );
    r.push(
        AmmuPage {
            size: AmmuPageSize::Small,
            index: 4,
            addr: 0x20008000,
            translated: 0x55028000,
            policy: MMU_POLICY_POSTED | MMU_POLICY_CACHEABLE | MMU_POLICY_LARGE
                | MMU_POLICY_ALLOCATE | MMU_POLICY_WRITE_BACK | MMU_POLICY_ENABLED,
        },
    );
    r.push(
        AmmuPage {
            size: AmmuPageSize::Small,
            index: 5,
            addr: 0x2000C000,
            translated: 0x5502C000,
            policy: MMU_POLICY_POSTED | MMU_POLICY_CACHEABLE | MMU_POLICY_LARGE
                | MMU_POLICY_ALLOCATE | MMU_POLICY_WRITE_BACK | MMU_POLICY_ENABLED,
        },
    );
    proof {
        assert(r@ =~= spec_ammu_setup());
    }
    r
}

/// The interrupt lines of the core, numbered as the chip documents them.
/// Line 16 is the first line beyond the architectural exceptions.
#[derive(Debug, Clone, Copy, PartialEq, Eq, Structural)]
pub enum Interrupt {
    /// xlate MMU fault (from the L2 MMU).
    Ipu1Irq16,
    /// Unicache or MMU maintenance complete.
    Ipu1Irq17,
    /// CTM timer event (timer 1).
    Ipu1Irq18,
    /// Semaphore interrupt (one to each core).
    Ipu1Irq19,
    /// ICECrusher (one to each core).
    Ipu1Irq20,
    /// Imprecise fault from the interconnect.
    Ipu1Irq21,
    /// CTM timer event (timer 2).
    Ipu1Irq22,
    /// Display controller interrupt.
    Ipu1Irq23,
    /// Reserved by default; can be remapped.
    Ipu1Irq24,
    /// Reserved by default; can be remapped.
    Ipu1Irq25,
    /// HDMI interrupt.
    Ipu1Irq26,
    /// Reserved by default; can be remapped.
    Ipu1Irq27,
    /// Reserved by default; can be remapped.
    Ipu1Irq28,
    /// Reserved by default; can be remapped.
    Ipu1Irq29,
    /// Reserved by default; can be remapped.
    Ipu1Irq30,
    /// Reserved by default; can be remapped.
    Ipu1Irq31,
    /// Reserved by default; can be remapped.
    Ipu1Irq32,
    /// Reserved by default; can be remapped.
    Ipu1Irq33,
    /// System DMA interrupt 0.
    Ipu1Irq34,
    /// System DMA interrupt 1.
    Ipu1Irq35,
    /// System DMA interrupt 2.
    Ipu1Irq36,
    /// System DMA interrupt 3.
    Ipu1Irq37,
    /// IVA mailbox user 2 interrupt.
    Ipu1Irq38,
    /// IVA ICONT2 sync interrupt.
    Ipu1Irq39,
    /// IVA ICONT1 sync interrupt.
    Ipu1Irq40,
    /// I2C1 interrupt.
    Ipu1Irq41,
    /// I2C2 interrupt.
    Ipu1Irq42,
    /// I2C3 interrupt.
    Ipu1Irq43,
    /// I2C4 interrupt.
    Ipu1Irq44,
    /// UART3 interrupt.
    Ipu1Irq45,
    /// L3 main application or non-attributable error.
    Ipu1Irq46,
    /// PRCM interrupt.
    Ipu1Irq47,
    /// Reserved by default; can be remapped.
    Ipu1Irq48,
    /// Reserved by default; can be remapped.
    Ipu1Irq49,
    /// Mailbox 1 user 2 interrupt.
    Ipu1Irq50,
    /// GPIO1 interrupt 1.
    Ipu1Irq51,
    /// GPIO2 interrupt 1.
    Ipu1Irq52,
    /// TIMER3 interrupt.
    Ipu1Irq53,
    /// TIMER4 interrupt.
    Ipu1Irq54,
    /// TIMER9 interrupt.
    Ipu1Irq55,
    /// TIMER11 interrupt.
    Ipu1Irq56,
    /// McSPI1 interrupt.
    Ipu1Irq57,
    /// McSPI2 interrupt.
    Ipu1Irq58,
    /// Reserved by default; can be remapped.
    Ipu1Irq59,
    /// Reserved by default; can be remapped.
    Ipu1Irq60,
    /// Reserved by default; can be remapped.
    Ipu1Irq61,
    /// Reserved by default; can be remapped.
    Ipu1Irq62,
    /// Reserved by default; can be remapped.
    Ipu1Irq63,
    /// DMM interrupt.
    Ipu1Irq64,
    /// BB2D interrupt.
    Ipu1Irq65,
    /// MMC1 interrupt.
    Ipu1Irq66,
    /// MMC2 interrupt.
    Ipu1Irq67,
    /// MMC3 interrupt.
    Ipu1Irq68,
    /// Reserved by default; can be remapped.
    Ipu1Irq69,
    /// Reserved by default; can be remapped.
    Ipu1Irq70,
    /// Reserved by default; can be remapped.
    Ipu1Irq71,
    /// Reserved by default; can be remapped.
    Ipu1Irq72,
    /// USB1 interrupt 1.
    Ipu1Irq73,
    /// USB2 interrupt 0.
    Ipu1Irq74,
    /// Reserved by default; can be remapped.
    Ipu1Irq75,
    /// USB2 interrupt 1.
    Ipu1Irq76,
    /// USB3 interrupt 0.
    Ipu1Irq77,
    /// Reserved by default; can be remapped.
    Ipu1Irq78,
    /// Reserved by default; can be remapped.
    Ipu1Irq79,
}

impl Interrupt {
    /// Number of this interrupt for the core's interrupt controller,
    /// which counts user interrupts from zero: the chip's line number
    /// less the sixteen architectural exceptions.
    pub open spec fn spec_nr(self) -> u8 {
        match self {
            Interrupt::Ipu1Irq16 => 0,
            Interrupt::Ipu1Irq17 => 1,
            Interrupt::Ipu1Irq18 => 2,
            Interrupt::Ipu1Irq19 => 3,
            Interrupt::Ipu1Irq20 => 4,
            Interrupt::Ipu1Irq21 => 5,
            Interrupt::Ipu1Irq22 => 6,
            Interrupt::Ipu1Irq23 => 7,
            Interrupt::Ipu1Irq24 => 8,
            Interrupt::Ipu1Irq25 => 9,
            Interrupt::Ipu1Irq26 => 10,
            Interrupt::Ipu1Irq27 => 11,
            Interrupt::Ipu1Irq28 => 12,
            Interrupt::Ipu1Irq29 => 13,
            Interrupt::Ipu1Irq30 => 14,
            Interrupt::Ipu1Irq31 => 15,
            Interrupt::Ipu1Irq32 => 16,
            Interrupt::Ipu1Irq33 => 17,
            Interrupt::Ipu1Irq34 => 18,
            Interrupt::Ipu1Irq35 => 19,
            Interrupt::Ipu1Irq36 => 20,
            Interrupt::Ipu1Irq37 => 21,
            Interrupt::Ipu1Irq38 => 22,
            Interrupt::Ipu1Irq39 => 23,
            Interrupt::Ipu1Irq40 => 24,
            Interrupt::Ipu1Irq41 => 25,
            Interrupt::Ipu1Irq42 => 26,
            Interrupt::Ipu1Irq43 => 27,
            Interrupt::Ipu1Irq44 => 28,
            Interrupt::Ipu1Irq45 => 29,
            Interrupt::Ipu1Irq46 => 30,
            Interrupt::Ipu1Irq47 => 31,
            Interrupt::Ipu1Irq48 => 32,
            Interrupt::Ipu1Irq49 => 33,
            Interrupt::Ipu1Irq50 => 34,
            Interrupt::Ipu1Irq51 => 35,
            Interrupt::Ipu1Irq52 => 36,
            Interrupt::Ipu1Irq53 => 37,
            Interrupt::Ipu1Irq54 => 38,
            Interrupt::Ipu1Irq55 => 39,
            Interrupt::Ipu1Irq56 => 40,
            Interrupt::Ipu1Irq57 => 41,
            Interrupt::Ipu1Irq58 => 42,
            Interrupt::Ipu1Irq59 => 43,
            Interrupt::Ipu1Irq60 => 44,
            Interrupt::Ipu1Irq61 => 45,
            Interrupt::Ipu1Irq62 => 46,
            Interrupt::Ipu1Irq63 => 47,
            Interrupt::Ipu1Irq64 => 48,
            Interrupt::Ipu1Irq65 => 49,
            Interrupt::Ipu1Irq66 => 50,
            Interrupt::Ipu1Irq67 => 51,
            Interrupt::Ipu1Irq68 => 52,
            Interrupt::Ipu1Irq69 => 53,
            Interrupt::Ipu1Irq70 => 54,
            Interrupt::Ipu1Irq71 => 55,
            Interrupt::Ipu1Irq72 => 56,
            Interrupt::Ipu1Irq73 => 57,
            Interrupt::Ipu1Irq74 => 58,
            Interrupt::Ipu1Irq75 => 59,
            Interrupt::Ipu1Irq76 => 60,
            Interrupt::Ipu1Irq77 => 61,
            Interrupt::Ipu1Irq78 => 62,
            Interrupt::Ipu1Irq79 => 63,
        }
    }

    pub fn nr(&self) -> (r: u8)
        returns
            self.spec_nr(),
    {
        match *self {
            Interrupt::Ipu1Irq16 => 0,
            Interrupt::Ipu1Irq17 => 1,
            Interrupt::Ipu1Irq18 => 2,
            Interrupt::Ipu1Irq19 => 3,
            Interrupt::Ipu1Irq20 => 4,
            Interrupt::Ipu1Irq21 => 5,
            Interrupt::Ipu1Irq22 => 6,
            Interrupt::Ipu1Irq23 => 7,
            Interrupt::Ipu1Irq24 => 8,
            Interrupt::Ipu1Irq25 => 9,
            Interrupt::Ipu1Irq26 => 10,
            Interrupt::Ipu1Irq27 => 11,
            Interrupt::Ipu1Irq28 => 12,
            Interrupt::Ipu1Irq29 => 13,
            Interrupt::Ipu1Irq30 => 14,
            Interrupt::Ipu1Irq31 => 15,
            Interrupt::Ipu1Irq32 => 16,
            Interrupt::Ipu1Irq33 => 17,
            Interrupt::Ipu1Irq34 => 18,
            Interrupt::Ipu1Irq35 => 19,
            Interrupt::Ipu1Irq36 => 20,
            Interrupt::Ipu1Irq37 => 21,
            Interrupt::Ipu1Irq38 => 22,
            Interrupt::Ipu1Irq39 => 23,
            Interrupt::Ipu1Irq40 => 24,
            Interrupt::Ipu1Irq41 => 25,
            Interrupt::Ipu1Irq42 => 26,
            Interrupt::Ipu1Irq43 => 27,
            Interrupt::Ipu1Irq44 => 28,
            Interrupt::Ipu1Irq45 => 29,
            Interrupt::Ipu1Irq46 => 30,
            Interrupt::Ipu1Irq47 => 31,
            Interrupt::Ipu1Irq48 => 32,
            Interrupt::Ipu1Irq49 => 33,
            Interrupt::Ipu1Irq50 => 34,
            Interrupt::Ipu1Irq51 => 35,
            Interrupt::Ipu1Irq52 => 36,
            Interrupt::Ipu1Irq53 => 37,
            Interrupt::Ipu1Irq54 => 38,
            Interrupt::Ipu1Irq55 => 39,
            Interrupt::Ipu1Irq56 => 40,
            Interrupt::Ipu1Irq57 => 41,
            Interrupt::Ipu1Irq58 => 42,
            Interrupt::Ipu1Irq59 => 43,
            Interrupt::Ipu1Irq60 => 44,
            Interrupt::Ipu1Irq61 => 45,
            Interrupt::Ipu1Irq62 => 46,
            Interrupt::Ipu1Irq63 => 47,
            Interrupt::Ipu1Irq64 => 48,
            Interrupt::Ipu1Irq65 => 49,
            Interrupt::Ipu1Irq66 => 50,
            Interrupt::Ipu1Irq67 => 51,
            Interrupt::Ipu1Irq68 => 52,
            Interrupt::Ipu1Irq69 => 53,
            Interrupt::Ipu1Irq70 => 54,
            Interrupt::Ipu1Irq71 => 55,
            Interrupt::Ipu1Irq72 => 56,
            Interrupt::Ipu1Irq73 => 57,
            Interrupt::Ipu1Irq74 => 58,
            Interrupt::Ipu1Irq75 => 59,
            Interrupt::Ipu1Irq76 => 60,
            Interrupt::Ipu1Irq77 => 61,
            Interrupt::Ipu1Irq78 => 62,
            Interrupt::Ipu1Irq79 => 63,
        }
    }
}

/// Interrupt priority levels. Lower numeric values have higher urgency:
/// they preempt interrupts with higher numeric values. The bottom four
/// bits of the eight-bit priority registers are ignored on this chip, so
/// sixteen levels exist.
#[derive(Debug, Clone, Copy, PartialEq, Eq, Structural)]
pub enum InterruptPriority {
    /// Priority level 0.
    Prio00,
    /// Priority level 1.
    Prio01,
    /// Priority level 2.
    Prio02,
    /// Priority level 3.
    Prio03,
    /// Priority level 4.
    Prio04,
    /// Priority level 5.
    Prio05,
    /// Priority level 6.
    Prio06,
    /// Priority level 7.
    Prio07,
    /// Priority level 8.
    Prio08,
    /// Priority level 9.
    Prio09,
    /// Priority level 10.
    Prio10,
    /// Priority level 11.
    Prio11,
    /// Priority level 12.
    Prio12,
    /// Priority level 13.
    Prio13,
    /// Priority level 14.
    Prio14,
    /// Priority level 15.
    Prio15,
}

impl InterruptPriority {
    /// The register value of this priority: the level in the top four
    /// bits.
    pub open spec fn spec_bits(self) -> u8 {
        match self {
            InterruptPriority::Prio00 => 0,
            InterruptPriority::Prio01 => 16,
            InterruptPriority::Prio02 => 32,
            InterruptPriority::Prio03 => 48,
            InterruptPriority::Prio04 => 64,
            InterruptPriority::Prio05 => 80,
            InterruptPriority::Prio06 => 96,
            InterruptPriority::Prio07 => 112,
            InterruptPriority::Prio08 => 128,
            InterruptPriority::Prio09 => 144,
            InterruptPriority::Prio10 => 160,
            InterruptPriority::Prio11 => 176,
            InterruptPriority::Prio12 => 192,
            InterruptPriority::Prio13 => 208,
            InterruptPriority::Prio14 => 224,
            InterruptPriority::Prio15 => 240,
        }
    }

    pub fn bits(self) -> (r: u8)
        returns
            self.spec_bits(),
    {
        match self {
            InterruptPriority::Prio00 => 0,
            InterruptPriority::Prio01 => 16,
            InterruptPriority::Prio02 => 32,
            InterruptPriority::Prio03 => 48,
            InterruptPriority::Prio04 => 64,
            InterruptPriority::Prio05 => 80,
            InterruptPriority::Prio06 => 96,
            InterruptPriority::Prio07 => 112,
            InterruptPriority::Prio08 => 128,
            InterruptPriority::Prio09 => 144,
            InterruptPriority::Prio10 => 160,
            InterruptPriority::Prio11 => 176,
            InterruptPriority::Prio12 => 192,
            InterruptPriority::Prio13 => 208,
            InterruptPriority::Prio14 => 224,
            InterruptPriority::Prio15 => 240,
        }
    }
}

/// Crossbar input 250 is mailbox 5, user 1: the line routed to interrupt
/// 44 for the host-to-firmware kick.
pub const MAILBOX5_USER1_CROSSBAR: u16 = 250;

/// An IRQ route register holds two 9-bit crossbar routes in 16-bit
/// fields; this sets the lower one.
pub fn irq_route_set_lower(field: u32, crossbar_irq: u16) -> (r: u32)
    ensures
        r == (field & 0xFFFF_0000u32) | (crossbar_irq as u32),
{
    (field & 0xFFFF_0000) | (crossbar_irq as u32)
}

/// Set the upper route of an IRQ route register.
pub fn irq_route_set_higher(field: u32, crossbar_irq: u16) -> (r: u32)
    ensures
        r == (field & 0x0000_FFFFu32) | ((crossbar_irq as u32) << 16),
{
    (field & 0x0000_FFFF) | ((crossbar_irq as u32) << 16)
}

/// The lower route of an IRQ route register.
pub fn irq_route_get_lower(field: u32) -> (r: u16)
    ensures
        r == (field & 0xFFFFu32) as u16,
{
    proof {
        assert((field & 0xFFFFu32) <= 0xFFFF) by (bit_vector);
    }
    (field & 0xFFFF) as u16
}

/// The upper route of an IRQ route register.
pub fn irq_route_get_higher(field: u32) -> (r: u16)
    ensures
        r == (field >> 16u32) as u16,
{
    proof {
        assert((field >> 16u32) <= 0xFFFF) by (bit_vector);
    }
    (field >> 16) as u16
}

/// The boot-time crossbar routing of this core: one `(lower, higher)`
/// route pair per register, covering interrupts 23 through 80. Every
/// route is cleared except the one that sends crossbar input 250
/// (mailbox 5, user 1) into interrupt 44, which is the upper field of
/// the register covering interrupts 43 and 44.
pub fn crossbar_config() -> (r: Vec<(u16, u16)>)
    ensures
        r@.len() == 29,
        forall|i: int| 0 <= i < 29 && i != 10 ==> r@[i] == (0u16, 0u16),
        r@[10] == (0u16, MAILBOX5_USER1_CROSSBAR),
{
    let mut r: Vec<(u16, u16)> = Vec::new();
    let mut i: usize = 0;
    while i < 29
        invariant
            i <= 29,
            r@.len() == i,
            forall|j: int| 0 <= j < i as int && j != 10 ==> r@[j] == (0u16, 0u16),
            10 < i as int ==> r@[10] == (0u16, MAILBOX5_USER1_CROSSBAR),
        decreases 29 - i,
    {
        if i == 10 {
            r.push((0, MAILBOX5_USER1_CROSSBAR));
        } else {
            r.push((0, 0));
        }
        i = i + 1;
    }
    r
}

} // verus!
