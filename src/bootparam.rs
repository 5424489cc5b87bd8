//! The x86 zero page: the real-mode kernel header and the boot parameters,
//! with the E820 memory map handed to the guest kernel.

use vstd::prelude::*;

verus! {

/// E820 type of usable RAM.
pub const E820_RAM: u32 = 1;
/// E820 type of reserved memory.
pub const E820_RESERVED: u32 = 2;
/// Oldest boot protocol version that is accepted at all.
pub const BOOT_VERSION: u16 = 0x0200;
/// Oldest boot protocol version that is loaded.
pub const BOOT_VERSION_MIN_LOADABLE: u16 = 0x0202;
/// Boot sector signature.
pub const BOOT_FLAG: u16 = 0xAA55;
/// Magic of the setup header ("HdrS").
pub const HDRS: u32 = 0x5372_6448;
/// Loader type of an unregistered boot loader.
pub const UNDEFINED_ID: u8 = 0xFF;
/// Loader type of the OVMF UEFI virtualization stack.
pub const UEFI_OVMF_ID: u8 = 0xB;
/// Number of slots of the E820 table.
pub const E820_MAX_ENTRIES: usize = 0x80;

/// Start of the real-mode interrupt vector table.
pub const REAL_MODE_IVT_BEGIN: u64 = 0x0000_0000;
/// Start of the extended BIOS data area.
pub const EBDA_START: u64 = 0x0009_fc00;
/// Start of the VGA memory.
pub const VGA_RAM_BEGIN: u64 = 0x000a_0000;
/// Start of the motherboard BIOS.
pub const MB_BIOS_BEGIN: u64 = 0x000f_0000;
/// Start of high memory, where the kernel is loaded.
pub const VMLINUX_RAM_START: u64 = 0x0010_0000;

/// Why a kernel image cannot be booted through its real-mode header.
#[derive(Clone, Copy, PartialEq, Eq, Structural, Debug)]
pub enum BootLoaderError {
    /// The header magic is missing: the image is not a bzImage (it may be an ELF kernel).
    ElfKernel,
    /// The protocol version is too old, or the kernel does not load high.
    InvalidBzImage,
    /// The protocol version predates 2.02.
    OldVersionKernel,
}

/// The real-mode kernel header (setup header) of the x86 boot protocol.
#[derive(Debug, Copy, Clone)]
pub struct RealModeKernelHeader {
    pub setup_sects: u8,
    pub root_flags: u16,
    pub syssize: u32,
    pub ram_size: u16,
    pub video_mode: u16,
    pub root_dev: u16,
    pub boot_flag: u16,
    pub jump: u16,
    pub header: u32,
    pub version: u16,
    pub realmode_swtch: u32,
    pub start_sys_seg: u16,
    pub kernel_version: u16,
    pub type_of_loader: u8,
    pub loadflags: u8,
    pub setup_move_size: u16,
    pub code32_start: u32,
    pub ramdisk_image: u32,
    pub ramdisk_size: u32,
    pub bootsect_kludge: u32,
    pub heap_end_ptr: u16,
    pub ext_loader_ver: u8,
    pub ext_loader_type: u8,
    pub cmdline_ptr: u32,
    pub initrd_addr_max: u32,
    pub kernel_alignment: u32,
    pub relocatable_kernel: u8,
    pub min_alignment: u8,
    pub xloadflags: u16,
    pub cmdline_size: u32,
    pub hardware_subarch: u32,
    pub hardware_subarch_data: u64,
    pub payload_offset: u32,
    pub payload_length: u32,
    pub setup_data: u64,
    pub pref_address: u64,
    pub init_size: u32,
    pub handover_offset: u32,
    pub kernel_info_offset: u32,
}

impl RealModeKernelHeader {
    /// Every field is 0.
    pub open spec fn is_zero(self) -> bool {
        &&& self.setup_sects == 0
        &&& self.root_flags == 0
        &&& self.syssize == 0
        &&& self.ram_size == 0
        &&& self.video_mode == 0
        &&& self.root_dev == 0
        &&& self.boot_flag == 0
        &&& self.jump == 0
        &&& self.header == 0
        &&& self.version == 0
        &&& self.realmode_swtch == 0
        &&& self.start_sys_seg == 0
        &&& self.kernel_version == 0
        &&& self.type_of_loader == 0
        &&& self.loadflags == 0
        &&& self.setup_move_size == 0
        &&& self.code32_start == 0
        &&& self.ramdisk_image == 0
        &&& self.ramdisk_size == 0
        &&& self.bootsect_kludge == 0
        &&& self.heap_end_ptr == 0
        &&& self.ext_loader_ver == 0
        &&& self.ext_loader_type == 0
        &&& self.cmdline_ptr == 0
        &&& self.initrd_addr_max == 0
        &&& self.kernel_alignment == 0
        &&& self.relocatable_kernel == 0
        &&& self.min_alignment == 0
        &&& self.xloadflags == 0
        &&& self.cmdline_size == 0
        &&& self.hardware_subarch == 0
        &&& self.hardware_subarch_data == 0
        &&& self.payload_offset == 0
        &&& self.payload_length == 0
        &&& self.setup_data == 0
        &&& self.pref_address == 0
        &&& self.init_size == 0
        &&& self.handover_offset == 0
        &&& self.kernel_info_offset == 0
    }

    /// What loading the kernel requires of the header.
    pub open spec fn check_result(self) -> Result<(), BootLoaderError> {
        if self.header != HDRS {
            Err(BootLoaderError::ElfKernel)
        } else if self.version < BOOT_VERSION || (self.loadflags & 0x1) == 0x0 {
            Err(BootLoaderError::InvalidBzImage)
        } else if self.version < BOOT_VERSION_MIN_LOADABLE {
            Err(BootLoaderError::OldVersionKernel)
        } else {
            Ok(())
        }
    }

    /// A header written by this loader: the boot flag, the magic and an
    /// unregistered loader type; every other field 0.
    pub fn new() -> (r: RealModeKernelHeader)
        ensures
            r.boot_flag == BOOT_FLAG,
            r.header == HDRS,
            r.type_of_loader == UNDEFINED_ID,
            (RealModeKernelHeader { boot_flag: 0, header: 0, type_of_loader: 0, ..r }).is_zero(),
    {
        RealModeKernelHeader {
            setup_sects: 0,
            root_flags: 0,
            syssize: 0,
            ram_size: 0,
            video_mode: 0,
            root_dev: 0,
            boot_flag: BOOT_FLAG,
            jump: 0,
            header: HDRS,
            version: 0,
            realmode_swtch: 0,
            start_sys_seg: 0,
            kernel_version: 0,
            type_of_loader: UNDEFINED_ID,
            loadflags: 0,
            setup_move_size: 0,
            code32_start: 0,
            ramdisk_image: 0,
            ramdisk_size: 0,
            bootsect_kludge: 0,
            heap_end_ptr: 0,
            ext_loader_ver: 0,
            ext_loader_type: 0,
            cmdline_ptr: 0,
            initrd_addr_max: 0,
            kernel_alignment: 0,
            relocatable_kernel: 0,
            min_alignment: 0,
            xloadflags: 0,
            cmdline_size: 0,
            hardware_subarch: 0,
            hardware_subarch_data: 0,
            payload_offset: 0,
            payload_length: 0,
            setup_data: 0,
            pref_address: 0,
            init_size: 0,
            handover_offset: 0,
            kernel_info_offset: 0,
        }
    }

    /// Checks that the header describes a bzImage that can be loaded.
    pub fn check_valid_kernel(&self) -> (r: Result<(), BootLoaderError>)
        ensures
            r == self.check_result(),
    {
        if self.header != HDRS {
            return Err(BootLoaderError::ElfKernel);
        }
        if (self.version < BOOT_VERSION) || ((self.loadflags & 0x1) == 0x0) {
            return Err(BootLoaderError::InvalidBzImage);
        }
        if self.version < BOOT_VERSION_MIN_LOADABLE {
            return Err(BootLoaderError::OldVersionKernel);
        }
        Ok(())
    }

    /// Records where the kernel command line is, and its size.
    pub fn set_cmdline(&mut self, cmdline_addr: u32, cmdline_size: u32)
        ensures
            *final(self) == (RealModeKernelHeader {
                cmdline_ptr: cmdline_addr,
                cmdline_size,
                ..*old(self)
            }),
    {
        self.cmdline_ptr = cmdline_addr;
        self.cmdline_size = cmdline_size;
    }

    /// Records where the initial ramdisk is, and its size.
    pub fn set_ramdisk(&mut self, addr: u32, size: u32)
        ensures
            *final(self) == (RealModeKernelHeader { ramdisk_image: addr, ramdisk_size: size, ..*old(self) }),
    {
        self.ramdisk_image = addr;
        self.ramdisk_size = size;
    }
}

impl Default for RealModeKernelHeader {
    fn default() -> (r: RealModeKernelHeader)
        ensures
            r.is_zero(),
    {
        RealModeKernelHeader {
            setup_sects: 0,
            root_flags: 0,
            syssize: 0,
            ram_size: 0,
            video_mode: 0,
            root_dev: 0,
            boot_flag: 0,
            jump: 0,
            header: 0,
            version: 0,
            realmode_swtch: 0,
            start_sys_seg: 0,
            kernel_version: 0,
            type_of_loader: 0,
            loadflags: 0,
            setup_move_size: 0,
            code32_start: 0,
            ramdisk_image: 0,
            ramdisk_size: 0,
            bootsect_kludge: 0,
            heap_end_ptr: 0,
            ext_loader_ver: 0,
            ext_loader_type: 0,
            cmdline_ptr: 0,
            initrd_addr_max: 0,
            kernel_alignment: 0,
            relocatable_kernel: 0,
            min_alignment: 0,
            xloadflags: 0,
            cmdline_size: 0,
            hardware_subarch: 0,
            hardware_subarch_data: 0,
            payload_offset: 0,
            payload_length: 0,
            setup_data: 0,
            pref_address: 0,
            init_size: 0,
            handover_offset: 0,
            kernel_info_offset: 0,
        }
    }
}

/// One range of the E820 memory map.
#[derive(Debug, Copy, Clone, PartialEq, Eq, Structural)]
pub struct E820Entry {
    pub addr: u64,
    pub size: u64,
    pub type_: u32,
}

impl E820Entry {
    /// The range of `size` bytes at `addr`, of type `type_`.
    pub open spec fn spec_new(addr: u64, size: u64, type_: u32) -> E820Entry {
        E820Entry { addr, size, type_ }
    }

    /// The range of `size` bytes at `addr`, of type `type_`.
    pub fn new(addr: u64, size: u64, type_: u32) -> (r: E820Entry)
        ensures
            r == E820Entry::spec_new(addr, size, type_),
    {
        E820Entry { addr, size, type_ }
    }
}

/// std's `PathBuf`, carried opaquely: the loader configuration holds the
/// image paths, and nothing here reads them.
#[verifier::external_type_specification]
#[verifier::external_body]
pub struct ExPathBuf(std::path::PathBuf);

/// Boot loader configuration of an x86_64 guest.
pub struct X86BootLoaderConfig {
    /// Path of the kernel image.
    pub kernel: Option<std::path::PathBuf>,
    /// Path of the initrd image.
    pub initrd: Option<std::path::PathBuf>,
    /// Kernel command line.
    pub kernel_cmdline: String,
    /// Number of vCPUs.
    pub cpu_count: u8,
    /// The 32-bit memory gap below 4 GiB: (start, size).
    pub gap_range: (u64, u64),
    /// Base address of the I/O APIC.
    pub ioapic_addr: u32,
    /// Base address of the local APIC.
    pub lapic_addr: u32,
    /// Range of the identity map and TSS.
    pub ident_tss_range: Option<(u64, u64)>,
    /// Whether to boot straight into 64-bit protected mode.
    pub prot64_mode: bool,
}

/// The E820 map of a guest whose memory ends at `mem_end`, with the 32-bit
/// gap at `gap_start` of `gap_size` bytes: the interrupt vector table up to
/// the EBDA as RAM, the EBDA and the BIOS area as reserved, then high memory
/// as RAM, split around the gap when memory reaches past it.
pub open spec fn e820_layout(gap_start: u64, gap_size: u64, mem_end: u64) -> Seq<E820Entry> {
    let low = seq![
        E820Entry::spec_new(REAL_MODE_IVT_BEGIN, (EBDA_START - REAL_MODE_IVT_BEGIN) as u64, E820_RAM),
        E820Entry::spec_new(EBDA_START, (VGA_RAM_BEGIN - EBDA_START) as u64, E820_RESERVED),
        E820Entry::spec_new(MB_BIOS_BEGIN, 0, E820_RESERVED),
    ];
    let gap_end = gap_start + gap_size;
    if mem_end < gap_end {
        low.push(
            E820Entry::spec_new(VMLINUX_RAM_START, (mem_end - VMLINUX_RAM_START) as u64, E820_RAM),
        )
    } else {
        low.push(
            E820Entry::spec_new(
                VMLINUX_RAM_START,
                (gap_start - VMLINUX_RAM_START) as u64,
                E820_RAM,
            ),
        ).push(E820Entry::spec_new(gap_end as u64, (mem_end - gap_end) as u64, E820_RAM))
    }
}

/// The sizes in the E820 map of such a guest can be computed: the gap ends
/// within the address space, and high memory (below the gap, and past it
/// when memory reaches there) starts at the kernel load address.
pub open spec fn e820_layout_fits(gap_start: u64, gap_size: u64, mem_end: u64) -> bool {
    &&& gap_start + gap_size <= u64::MAX
    &&& if mem_end < gap_start + gap_size {
        mem_end >= VMLINUX_RAM_START
    } else {
        gap_start >= VMLINUX_RAM_START
    }
}

/// The zero page handed to the guest kernel.
#[derive(Copy, Clone)]
pub struct BootParams {
    pub screen_info: [u8; 0x40],
    pub apm_bios_info: [u8; 0x14],
    pub pad1: u32,
    pub tboot_addr: [u8; 0x8],
    pub ist_info: [u8; 0x10],
    pub pad2: [u8; 0x10],
    pub hd0_info: [u8; 0x10],
    pub hd1_info: [u8; 0x10],
    pub sys_desc_table: [u8; 0x10],
    pub olpc_ofw_header: [u8; 0x10],
    pub ext_ramdisk_image: u32,
    pub ext_ramdisk_size: u32,
    pub ext_cmd_line_ptr: u32,
    pub pad3: [u8; 0x74],
    pub edid_info: [u8; 0x80],
    pub efi_info: [u8; 0x20],
    pub alt_mem_k: u32,
    pub scratch: u32,
    pub e820_entries: u8,
    pub eddbuf_entries: u8,
    pub edd_mbr_sig_buf_entries: u8,
    pub kbd_status: u8,
    pub secure_boot: u8,
    pub pad4: u16,
    pub sentinel: u8,
    pub pad5: u8,
    pub kernel_header: RealModeKernelHeader,
    pub pad6: [u8; 0x24],
    pub edd_mbr_sig_buffer: [u8; 0x40],
    pub e820_table: [E820Entry; 0x80],
    pub pad8: [u8; 0x30],
    pub eddbuf: [u8; 0x1ec],
}

impl BootParams {
    /// Every field but the kernel header is 0.
    pub open spec fn is_blank(self) -> bool {
        &&& forall|i: int| 0 <= i < self.screen_info@.len() ==> self.screen_info@[i] == 0
        &&& forall|i: int| 0 <= i < self.apm_bios_info@.len() ==> self.apm_bios_info@[i] == 0
        &&& self.pad1 == 0
        &&& forall|i: int| 0 <= i < self.tboot_addr@.len() ==> self.tboot_addr@[i] == 0
        &&& forall|i: int| 0 <= i < self.ist_info@.len() ==> self.ist_info@[i] == 0
        &&& forall|i: int| 0 <= i < self.pad2@.len() ==> self.pad2@[i] == 0
        &&& forall|i: int| 0 <= i < self.hd0_info@.len() ==> self.hd0_info@[i] == 0
        &&& forall|i: int| 0 <= i < self.hd1_info@.len() ==> self.hd1_info@[i] == 0
        &&& forall|i: int| 0 <= i < self.sys_desc_table@.len() ==> self.sys_desc_table@[i] == 0
        &&& forall|i: int| 0 <= i < self.olpc_ofw_header@.len() ==> self.olpc_ofw_header@[i] == 0
        &&& self.ext_ramdisk_image == 0
        &&& self.ext_ramdisk_size == 0
        &&& self.ext_cmd_line_ptr == 0
        &&& forall|i: int| 0 <= i < self.pad3@.len() ==> self.pad3@[i] == 0
        &&& forall|i: int| 0 <= i < self.edid_info@.len() ==> self.edid_info@[i] == 0
        &&& forall|i: int| 0 <= i < self.efi_info@.len() ==> self.efi_info@[i] == 0
        &&& self.alt_mem_k == 0
        &&& self.scratch == 0
        &&& self.e820_entries == 0
        &&& self.eddbuf_entries == 0
        &&& self.edd_mbr_sig_buf_entries == 0
        &&& self.kbd_status == 0
        &&& self.secure_boot == 0
        &&& self.pad4 == 0
        &&& self.sentinel == 0
        &&& self.pad5 == 0
        &&& forall|i: int| 0 <= i < self.pad6@.len() ==> self.pad6@[i] == 0
        &&& forall|i: int| 0 <= i < self.edd_mbr_sig_buffer@.len() ==> self.edd_mbr_sig_buffer@[i] == 0
        &&& forall|i: int| 0 <= i < self.e820_table@.len() ==> self.e820_table@[i] == E820Entry::spec_new(0, 0, 0)
        &&& forall|i: int| 0 <= i < self.pad8@.len() ==> self.pad8@[i] == 0
        &&& forall|i: int| 0 <= i < self.eddbuf@.len() ==> self.eddbuf@[i] == 0
    }

    /// Zero page around `kernel_header`.
    pub fn new(kernel_header: RealModeKernelHeader) -> (r: BootParams)
        ensures
            r.kernel_header == kernel_header,
            r.is_blank(),
    {
        BootParams {
            screen_info: [0u8; 0x40],
            apm_bios_info: [0u8; 0x14],
            pad1: 0,
            tboot_addr: [0u8; 0x8],
            ist_info: [0u8; 0x10],
            pad2: [0u8; 0x10],
            hd0_info: [0u8; 0x10],
            hd1_info: [0u8; 0x10],
            sys_desc_table: [0u8; 0x10],
            olpc_ofw_header: [0u8; 0x10],
            ext_ramdisk_image: 0,
            ext_ramdisk_size: 0,
            ext_cmd_line_ptr: 0,
            pad3: [0u8; 0x74],
            edid_info: [0u8; 0x80],
            efi_info: [0u8; 0x20],
            alt_mem_k: 0,
            scratch: 0,
            e820_entries: 0,
            eddbuf_entries: 0,
            edd_mbr_sig_buf_entries: 0,
            kbd_status: 0,
            secure_boot: 0,
            pad4: 0,
            sentinel: 0,
            pad5: 0,
            kernel_header,
            pad6: [0u8; 0x24],
            edd_mbr_sig_buffer: [0u8; 0x40],
            e820_table: [E820Entry::new(0, 0, 0); 0x80],
            pad8: [0u8; 0x30],
            eddbuf: [0u8; 0x1ec],
        }
    }

    /// Writes the E820 map of a guest whose memory ends at `mem_end` (the end
    /// address of its system memory) into the table.
    pub fn setup_e820_entries(&mut self, config: &X86BootLoaderConfig, mem_end: u64)
        requires
            old(self).e820_entries as usize + 5 <= E820_MAX_ENTRIES,
            e820_layout_fits(config.gap_range.0, config.gap_range.1, mem_end),
        ensures
            ({
                let layout = e820_layout(config.gap_range.0, config.gap_range.1, mem_end);
                let n = old(self).e820_entries as int;
                &&& final(self).e820_entries == n + layout.len()
                &&& final(self).e820_table@ == old(self).e820_table@.subrange(0, n) + layout
                    + old(self).e820_table@.subrange(n + layout.len(), E820_MAX_ENTRIES as int)
                &&& *final(self) == (BootParams {
                    e820_entries: final(self).e820_entries,
                    e820_table: final(self).e820_table,
                    ..*old(self)
                })
            }),
    {
        let ghost n = self.e820_entries as int;
        self.add_e820_entry(REAL_MODE_IVT_BEGIN, EBDA_START - REAL_MODE_IVT_BEGIN, E820_RAM);
        self.add_e820_entry(EBDA_START, VGA_RAM_BEGIN - EBDA_START, E820_RESERVED);
        self.add_e820_entry(MB_BIOS_BEGIN, 0, E820_RESERVED);

        let high_memory_start = VMLINUX_RAM_START;
        let layout_32bit_gap_end = config.gap_range.0 + config.gap_range.1;
        if mem_end < layout_32bit_gap_end {
            self.add_e820_entry(high_memory_start, mem_end - high_memory_start, E820_RAM);
        } else {
            self.add_e820_entry(high_memory_start, config.gap_range.0 - high_memory_start, E820_RAM);
            self.add_e820_entry(layout_32bit_gap_end, mem_end - layout_32bit_gap_end, E820_RAM);
        }
        let ghost layout = e820_layout(config.gap_range.0, config.gap_range.1, mem_end);
        assert(self.e820_table@ =~= old(self).e820_table@.subrange(0, n) + layout
            + old(self).e820_table@.subrange(n + layout.len(), E820_MAX_ENTRIES as int));
    }

    /// Appends a range to the E820 table.
    pub fn add_e820_entry(&mut self, addr: u64, size: u64, type_: u32)
        requires
            (old(self).e820_entries as usize) < E820_MAX_ENTRIES,
        ensures
            final(self).e820_entries == old(self).e820_entries + 1,
            final(self).e820_table@ == old(self).e820_table@.update(
                old(self).e820_entries as int,
                E820Entry::spec_new(addr, size, type_),
            ),
            *final(self) == (BootParams {
                e820_entries: final(self).e820_entries,
                e820_table: final(self).e820_table,
                ..*old(self)
            }),
    {
        self.e820_table[self.e820_entries as usize] = E820Entry::new(addr, size, type_);
        self.e820_entries += 1;
    }
}

} // verus!
