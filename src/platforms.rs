//! The boot snapshot and the closed set of platform variants, one per boot
//! context, with what each variant decides.

use vstd::prelude::*;
use crate::context::RuntimeContext;

verus! {

/// Size of the boot heap.
pub const BOOT_HEAP_SIZE: usize = 512 * 1024;
/// Stack that the boot code may use below the stack top.
pub const BOOT_STACK_CAPACITY: usize = 65536;
/// Page size of the EFI allocation services.
pub const EFI_PAGE_SIZE: u64 = 4096;
/// The flattened device tree's entry in the EFI configuration table, as the
/// 16 bytes of its GUID read as a little-endian 128-bit value.
pub const FDT_TABLE_GUID: u128 = 0xe0aa692c_15d90b83_41a5f19c_b1b621d5;
/// UART that EL1/EL2 and EL3 fall back to when no device tree is given.
pub const DEFAULT_UART_BASE: u64 = 0xf051_2000;
/// Function identifier that tells the secure monitor that Secure-EL1 entry
/// is done.
pub const SECURE_ENTRY_DONE: u64 = 0xB200_0003;

/// `v` rounded up to a multiple of `align`, a power of two.
pub open spec fn round_up(v: u64, align: u64) -> u64 {
    ((v + (align - 1)) as u64) & !((align - 1) as u64)
}

pub open spec fn is_pow2_u64(align: u64) -> bool {
    align != 0 && align & ((align - 1) as u64) == 0
}

/// Rounds `v` up to a multiple of `align`.
pub fn align_up_u64(v: u64, align: u64) -> (r: u64)
    requires
        is_pow2_u64(align),
        v + align - 1 <= u64::MAX,
    ensures
        r == round_up(v, align),
        r >= v,
        r & ((align - 1) as u64) == 0,
{
    let m = align - 1;
    let x = v + m;
    let r = x & !m;
    assert((x & !m) >= x - m && (x & !m) & m == 0u64) by (bit_vector)
        requires
            x >= m,
            align & m == 0u64,
            m == align - 1u64,
            align != 0u64,
    ;
    r
}

/// The immutable snapshot that the entry sequence assembles.
#[derive(Clone, Copy, Debug)]
pub struct PlatformInfo {
    pub image_base: u64,
    pub image_end: u64,
    pub boot_stack_top: u64,
    pub boot_stack_capacity: usize,
    pub boot_heap_base: u64,
    pub boot_heap_capacity: usize,
    pub runtime_context: RuntimeContext,
    pub x0_at_startup: u64,
    pub x1_at_startup: u64,
    pub x2_at_startup: u64,
    pub x3_at_startup: u64,
}

impl PlatformInfo {
    /// Bare-metal entry: the image bounds come from the fifth and sixth entry
    /// registers, the stack pointer rounded up to the image's section
    /// alignment is both the stack top and the heap base.
    pub fn bare_metal(
        context: RuntimeContext,
        x0: u64,
        x1: u64,
        x2: u64,
        x3: u64,
        x4: u64,
        x5: u64,
        sp: u64,
        section_alignment: u32,
    ) -> (r: PlatformInfo)
        requires
            is_pow2_u64(section_alignment as u64),
            sp + section_alignment - 1 <= u64::MAX,
        ensures
            r.image_base == x4,
            r.image_end == x5,
            r.boot_stack_top == round_up(sp, section_alignment as u64),
            r.boot_heap_base == r.boot_stack_top,
            r.boot_stack_capacity == BOOT_STACK_CAPACITY,
            r.boot_heap_capacity == BOOT_HEAP_SIZE,
            r.runtime_context == context,
            r.x0_at_startup == x0,
            r.x1_at_startup == x1,
            r.x2_at_startup == x2,
            r.x3_at_startup == x3,
    {
        let top = align_up_u64(sp, section_alignment as u64);
        PlatformInfo {
            image_base: x4,
            image_end: x5,
            boot_stack_top: top,
            boot_stack_capacity: BOOT_STACK_CAPACITY,
            boot_heap_base: top,
            boot_heap_capacity: BOOT_HEAP_SIZE,
            runtime_context: context,
            x0_at_startup: x0,
            x1_at_startup: x1,
            x2_at_startup: x2,
            x3_at_startup: x3,
        }
    }

    /// EFI entry: the image bounds come from the loaded-image query, its end
    /// rounded up to a page; the heap is the pages that EFI allocated; the
    /// stack pointer rounded up to a page is the stack top.
    pub fn efi(
        x0: u64,
        x1: u64,
        x2: u64,
        x3: u64,
        image_base: u64,
        image_size: u64,
        heap_base: u64,
        sp: u64,
    ) -> (r: PlatformInfo)
        requires
            image_base + image_size + EFI_PAGE_SIZE - 1 <= u64::MAX,
            sp + EFI_PAGE_SIZE - 1 <= u64::MAX,
        ensures
            r.image_base == image_base,
            r.image_end == round_up((image_base + image_size) as u64, EFI_PAGE_SIZE),
            r.boot_stack_top == round_up(sp, EFI_PAGE_SIZE),
            r.boot_heap_base == heap_base,
            r.boot_stack_capacity == BOOT_STACK_CAPACITY,
            r.boot_heap_capacity == BOOT_HEAP_SIZE,
            r.runtime_context == RuntimeContext::EFI,
            r.x0_at_startup == x0,
            r.x1_at_startup == x1,
            r.x2_at_startup == x2,
            r.x3_at_startup == x3,
    {
        assert(is_pow2_u64(EFI_PAGE_SIZE)) by (bit_vector);
        PlatformInfo {
            image_base,
            image_end: align_up_u64(image_base + image_size, EFI_PAGE_SIZE),
            boot_stack_top: align_up_u64(sp, EFI_PAGE_SIZE),
            boot_stack_capacity: BOOT_STACK_CAPACITY,
            boot_heap_base: heap_base,
            boot_heap_capacity: BOOT_HEAP_SIZE,
            runtime_context: RuntimeContext::EFI,
            x0_at_startup: x0,
            x1_at_startup: x1,
            x2_at_startup: x2,
            x3_at_startup: x3,
        }
    }
}

/// One entry of the EFI configuration table: its GUID and table address.
#[derive(PartialEq, Eq, Structural, Clone, Copy, Debug)]
pub struct ConfigTableEntry {
    pub guid: u128,
    pub table: u64,
}

/// Index of the first device-tree entry from `i` on.
pub open spec fn first_fdt_entry(entries: Seq<ConfigTableEntry>, i: int) -> Option<u64>
    decreases entries.len() - i,
{
    if i < 0 || i >= entries.len() {
        None
    } else if entries[i].guid == FDT_TABLE_GUID {
        Some(entries[i].table)
    } else {
        first_fdt_entry(entries, i + 1)
    }
}

/// The table address of the first device-tree entry of the configuration
/// table.
pub fn find_fdt_table(entries: &Vec<ConfigTableEntry>) -> (r: Option<u64>)
    ensures
        r == first_fdt_entry(entries@, 0),
{
    let mut i: usize = 0;
    while i < entries.len()
        invariant
            i <= entries.len(),
            first_fdt_entry(entries@, 0) == first_fdt_entry(entries@, i as int),
        decreases entries.len() - i,
    {
        if entries[i].guid == FDT_TABLE_GUID {
            return Some(entries[i].table);
        }
        i += 1;
    }
    None
}

/// The console a platform can bring up before any device tree is read.
#[derive(PartialEq, Eq, Structural, Clone, Copy, Debug)]
pub enum BootConsole {
    /// Keep the buffered sink.
    Buffered,
    /// The firmware's text output.
    Efi,
    /// A DesignWare 16550 UART with 8-bit registers four bytes apart.
    DesignWareUart { base: u64, reg_io_width: u32, reg_shift: u32 },
}

/// What the platform does to stop.
#[derive(PartialEq, Eq, Structural, Clone, Copy, Debug)]
pub enum StopAction {
    /// Nothing: return to the caller, or park.
    Nothing,
    /// A cold reset through the EFI runtime services.
    EfiColdReset,
    /// A secure monitor call that reports the end of Secure-EL1 entry.
    SecureMonitorCall(u64),
}

/// The platform variant of a boot context.
pub struct Platform {
    pub information: PlatformInfo,
    /// The EFI configuration table; empty outside EFI.
    pub config_tables: Vec<ConfigTableEntry>,
}

/// Where each variant finds its device tree: EL1/EL2 in the first entry
/// register (zero included), EL3 in the first and Secure-EL1 in the third
/// when not zero, EFI in its configuration table.
pub open spec fn fdt_address_spec(info: PlatformInfo, tables: Seq<ConfigTableEntry>) -> Option<u64> {
    match info.runtime_context {
        RuntimeContext::BareMetalEL1 | RuntimeContext::BaremetalEL2 => Some(info.x0_at_startup),
        RuntimeContext::BareMetalEL3 => if info.x0_at_startup == 0 {
            None
        } else {
            Some(info.x0_at_startup)
        },
        RuntimeContext::BaremetalSEL1 => if info.x2_at_startup == 0 {
            None
        } else {
            Some(info.x2_at_startup)
        },
        RuntimeContext::EFI => first_fdt_entry(tables, 0),
    }
}

impl Platform {
    /// Builds the variant for the snapshot's boot context.
    pub fn new_from(information: PlatformInfo, config_tables: Vec<ConfigTableEntry>) -> (r: Platform)
        ensures
            r.information == information,
            r.config_tables@ == config_tables@,
    {
        Platform { information, config_tables }
    }

    pub fn get_info(&self) -> (r: &PlatformInfo)
        ensures
            *r == self.information,
    {
        &self.information
    }

    /// Address of the device tree blob, if the variant knows one.
    pub fn get_fdt_address(&self) -> (r: Option<u64>)
        ensures
            r == fdt_address_spec(self.information, self.config_tables@),
    {
        match self.information.runtime_context {
            RuntimeContext::BareMetalEL1 | RuntimeContext::BaremetalEL2 => Some(
                self.information.x0_at_startup,
            ),
            RuntimeContext::BareMetalEL3 => if self.information.x0_at_startup == 0 {
                None
            } else {
                Some(self.information.x0_at_startup)
            },
            RuntimeContext::BaremetalSEL1 => if self.information.x2_at_startup == 0 {
                None
            } else {
                Some(self.information.x2_at_startup)
            },
            RuntimeContext::EFI => find_fdt_table(&self.config_tables),
        }
    }

    /// Only under EFI may control go back to the caller.
    pub fn can_return(&self) -> (r: bool)
        ensures
            r == (self.information.runtime_context == RuntimeContext::EFI),
    {
        match self.information.runtime_context {
            RuntimeContext::EFI => true,
            _ => false,
        }
    }

    /// EL3 and Secure-EL1 run in the secure world.
    pub fn is_secure(&self) -> (r: bool)
        ensures
            r == (self.information.runtime_context == RuntimeContext::BareMetalEL3
                || self.information.runtime_context == RuntimeContext::BaremetalSEL1),
    {
        match self.information.runtime_context {
            RuntimeContext::BareMetalEL3 | RuntimeContext::BaremetalSEL1 => true,
            _ => false,
        }
    }

    /// The earliest console: the firmware's under EFI; under EL1/EL2 and EL3
    /// without a device tree, the default UART; otherwise the buffered sink
    /// stays until the device tree names a console.
    pub fn boot_console(&self) -> (r: BootConsole)
        ensures
            self.information.runtime_context == RuntimeContext::EFI ==> r == BootConsole::Efi,
            self.information.runtime_context == RuntimeContext::BaremetalSEL1 ==> r
                == BootConsole::Buffered,
            (self.information.runtime_context == RuntimeContext::BareMetalEL1
                || self.information.runtime_context == RuntimeContext::BaremetalEL2
                || self.information.runtime_context == RuntimeContext::BareMetalEL3) ==> r == (if self.information.x0_at_startup == 0 {
                BootConsole::DesignWareUart { base: DEFAULT_UART_BASE, reg_io_width: 1, reg_shift: 2 }
            } else {
                BootConsole::Buffered
            }),
    {
        match self.information.runtime_context {
            RuntimeContext::EFI => BootConsole::Efi,
            RuntimeContext::BaremetalSEL1 => BootConsole::Buffered,
            _ => if self.information.x0_at_startup == 0 {
                BootConsole::DesignWareUart { base: DEFAULT_UART_BASE, reg_io_width: 1, reg_shift: 2 }
            } else {
                BootConsole::Buffered
            },
        }
    }

    /// How the variant stops.
    pub fn stop(&self) -> (r: StopAction)
        ensures
            r == (match self.information.runtime_context {
                RuntimeContext::EFI => StopAction::EfiColdReset,
                RuntimeContext::BaremetalSEL1 => StopAction::SecureMonitorCall(SECURE_ENTRY_DONE),
                _ => StopAction::Nothing,
            }),
    {
        match self.information.runtime_context {
            RuntimeContext::EFI => StopAction::EfiColdReset,
            RuntimeContext::BaremetalSEL1 => StopAction::SecureMonitorCall(SECURE_ENTRY_DONE),
            _ => StopAction::Nothing,
        }
    }
}

} // verus!
