//! The top-level (P4) page table as the boot code sees it, and the teardown of
//! the identity mapping that the boot assembly set up.

use vstd::prelude::*;
use crate::layout::{kernel_virtual, p4_index, MAX_KERNEL_PHYSICAL_ADDRESS, KERNEL_P4_INDEX};
use crate::layout::lemma_kernel_window_uses_top_p4_slot;

verus! {

/// Number of entries of a page table on x86_64.
pub const ENTRIES_PER_PAGE_TABLE: usize = 512;

/// The P4 entries below this index are the identity-mapped low half that is
/// torn down once all cores are up; the ones from it upwards belong to the kernel
/// and are kept.
pub const IDENTITY_MAPPED_P4_ENTRIES: usize = 500;

/// The raw value of an entry that maps nothing.
pub const UNUSED_ENTRY: u64 = 0;

/// The entries of a P4 table: always exactly `ENTRIES_PER_PAGE_TABLE` raw values.
pub struct P4Table {
    entries: Vec<u64>,
}

/// What the table holds after its identity-mapped entries are cleared: the low
/// `IDENTITY_MAPPED_P4_ENTRIES` entries are unused, the rest are as they were.
pub open spec fn identity_unmapped(entries: Seq<u64>) -> Seq<u64> {
    Seq::new(
        entries.len(),
        |i: int| if i < IDENTITY_MAPPED_P4_ENTRIES { UNUSED_ENTRY } else { entries[i] },
    )
}

impl View for P4Table {
    type V = Seq<u64>;

    closed spec fn view(&self) -> Seq<u64> {
        self.entries@
    }
}

impl P4Table {
    /// A table is well formed when it holds exactly `ENTRIES_PER_PAGE_TABLE` entries.
    pub open spec fn wf(&self) -> bool {
        self@.len() == ENTRIES_PER_PAGE_TABLE
    }

    /// Takes the raw entries of a P4 table; `None` unless there are exactly
    /// `ENTRIES_PER_PAGE_TABLE` of them.
    pub fn from_entries(entries: Vec<u64>) -> (table: Option<P4Table>)
        ensures
            entries@.len() == ENTRIES_PER_PAGE_TABLE <==> table is Some,
            table matches Some(t) ==> t@ == entries@ && t.wf(),
    {
        if entries.len() == ENTRIES_PER_PAGE_TABLE {
            Some(P4Table { entries })
        } else {
            None
        }
    }

    /// The raw entries, in slot order.
    pub fn into_entries(self) -> (entries: Vec<u64>)
        requires
            self.wf(),
        ensures
            entries@ == self@,
            entries@.len() == ENTRIES_PER_PAGE_TABLE,
    {
        self.entries
    }

    /// The raw value of entry `index`.
    pub fn entry(&self, index: usize) -> (value: u64)
        requires
            self.wf(),
            index < ENTRIES_PER_PAGE_TABLE,
        ensures
            value == self@[index as int],
    {
        self.entries[index]
    }

    /// Marks entry `index` unused, leaving every other entry as it was.
    pub fn clear_entry(&mut self, index: usize)
        requires
            old(self).wf(),
            index < ENTRIES_PER_PAGE_TABLE,
        ensures
            final(self).wf(),
            final(self)@ == old(self)@.update(index as int, UNUSED_ENTRY),
    {
        self.entries.set(index, UNUSED_ENTRY);
    }

    /// Removes the identity mapping of the low half: clears the entries below
    /// `IDENTITY_MAPPED_P4_ENTRIES` one by one and keeps the kernel's upper ones.
    pub fn unmap_identity_region(&mut self)
        requires
            old(self).wf(),
        ensures
            final(self).wf(),
            final(self)@ == identity_unmapped(old(self)@),
            forall|i: int| 0 <= i < 500 ==> final(self)@[i] == 0,
            forall|i: int| 500 <= i < 512 ==> final(self)@[i] == old(self)@[i],
    {
        let ghost original = self@;
        let mut i: usize = 0;
        while i < IDENTITY_MAPPED_P4_ENTRIES
            invariant
                i <= IDENTITY_MAPPED_P4_ENTRIES,
                original.len() == ENTRIES_PER_PAGE_TABLE,
                self@.len() == ENTRIES_PER_PAGE_TABLE,
                forall|j: int| 0 <= j < i ==> self@[j] == UNUSED_ENTRY,
                forall|j: int| i <= j < ENTRIES_PER_PAGE_TABLE ==> self@[j] == original[j],
            decreases IDENTITY_MAPPED_P4_ENTRIES - i,
        {
            self.clear_entry(i);
            i = i + 1;
        }
        assert(self@ =~= identity_unmapped(original));
        proof {
            lemma_unmap_changes_only_low_entries(original);
        }
    }
}

/// Tearing down the identity mapping never touches the P4 slot that maps the
/// kernel's higher half: every kernel address is translated as before.
pub proof fn lemma_unmap_keeps_kernel_window(entries: Seq<u64>, phys: u64)
    requires
        entries.len() == ENTRIES_PER_PAGE_TABLE,
        phys <= MAX_KERNEL_PHYSICAL_ADDRESS,
    ensures
        identity_unmapped(entries)[p4_index(kernel_virtual(phys) as u64) as int]
            == entries[p4_index(kernel_virtual(phys) as u64) as int],
{
    lemma_kernel_window_uses_top_p4_slot(phys);
    assert(KERNEL_P4_INDEX >= IDENTITY_MAPPED_P4_ENTRIES);
}

/// The teardown changes exactly the entries below 500: each of them becomes
/// unused (zero), and every entry from 500 to 511, whatever its value, is kept
/// as it was. The table keeps its 512 entries.
pub proof fn lemma_unmap_changes_only_low_entries(entries: Seq<u64>)
    requires
        entries.len() == 512,
    ensures
        identity_unmapped(entries).len() == 512,
        forall|i: int| 0 <= i < 500 ==> identity_unmapped(entries)[i] == 0,
        forall|i: int| 500 <= i < 512 ==> identity_unmapped(entries)[i] == entries[i],
        forall|i: int| 0 <= i < 512 && identity_unmapped(entries)[i] != entries[i] ==> i < 500,
{
}

/// Tearing down the identity mapping twice is the same as doing it once.
pub proof fn lemma_unmap_idempotent(entries: Seq<u64>)
    ensures
        identity_unmapped(identity_unmapped(entries)) == identity_unmapped(entries),
{
    assert(identity_unmapped(identity_unmapped(entries)) =~= identity_unmapped(entries));
}

/// After the teardown no entry of the low half maps anything, and the table
/// keeps its size.
pub proof fn lemma_unmap_clears_low_half(entries: Seq<u64>, index: int)
    requires
        0 <= index < IDENTITY_MAPPED_P4_ENTRIES,
        index < entries.len(),
    ensures
        identity_unmapped(entries).len() == entries.len(),
        identity_unmapped(entries)[index] == UNUSED_ENTRY,
{
}

} // verus!
