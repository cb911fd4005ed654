//! Higher-half kernel address arithmetic.
//!
//! Addresses are `u64`: the kernel runs on x86_64 only, where `usize` is 64 bits wide.

use vstd::prelude::*;

verus! {

/// The virtual base at which the kernel image is linked: the upper 2 GiB of the
/// 64-bit address space. A physical address `p` of the image is seen at `p + KERNEL_OFFSET`.
pub const KERNEL_OFFSET: u64 = 0xFFFF_FFFF_8000_0000;

/// The largest physical address that has a higher-half alias: beyond it
/// `p + KERNEL_OFFSET` no longer fits in 64 bits.
pub const MAX_KERNEL_PHYSICAL_ADDRESS: u64 = 0x7FFF_FFFF;

/// The slot of the top-level (P4) page table that maps the kernel's higher half.
pub const KERNEL_P4_INDEX: u64 = 511;

/// The higher-half virtual address of a physical address of the kernel image.
pub open spec fn kernel_virtual(phys: u64) -> int {
    phys + KERNEL_OFFSET
}

/// The index of the P4 entry through which a virtual address is translated:
/// bits 39 to 47 of the address.
pub open spec fn p4_index(vaddr: u64) -> u64 {
    (vaddr >> 39u64) & 0x1FFu64
}

/// Returns the virtual address at which the kernel sees the start of the
/// real-mode trampoline that application processors boot from, given the
/// physical address that the linker gave the `ap_start_realmode` symbol.
pub fn get_ap_start_realmode(symbol_addr: u64) -> (virt: u64)
    requires
        symbol_addr <= MAX_KERNEL_PHYSICAL_ADDRESS,
    ensures
        virt == kernel_virtual(symbol_addr),
{
    symbol_addr + KERNEL_OFFSET
}

/// Returns the virtual address at which the kernel sees the end of the
/// real-mode trampoline, given the physical address of the
/// `ap_start_realmode_end` symbol.
pub fn get_ap_start_realmode_end(symbol_addr: u64) -> (virt: u64)
    requires
        symbol_addr <= MAX_KERNEL_PHYSICAL_ADDRESS,
    ensures
        virt == kernel_virtual(symbol_addr),
{
    symbol_addr + KERNEL_OFFSET
}

/// Every address of the kernel's higher-half window is translated through the
/// single P4 slot `KERNEL_P4_INDEX`.
pub proof fn lemma_kernel_window_uses_top_p4_slot(phys: u64)
    requires
        phys <= MAX_KERNEL_PHYSICAL_ADDRESS,
    ensures
        kernel_virtual(phys) <= u64::MAX,
        p4_index(kernel_virtual(phys) as u64) == KERNEL_P4_INDEX,
{
    assert(((phys + 0xFFFF_FFFF_8000_0000u64) as u64 >> 39u64) & 0x1FFu64 == 0x1FFu64)
        by (bit_vector)
        requires
            phys <= 0x7FFF_FFFFu64,
    ;
}

/// Moving the real-mode trampoline's bounds into the higher half keeps their
/// order and the trampoline's length.
pub proof fn lemma_trampoline_bounds_keep_length(start: u64, end: u64)
    requires
        start <= end <= MAX_KERNEL_PHYSICAL_ADDRESS,
    ensures
        kernel_virtual(start) <= kernel_virtual(end),
        kernel_virtual(end) - kernel_virtual(start) == end - start,
{
}

} // verus!
