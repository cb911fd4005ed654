use nano_core::layout::{get_ap_start_realmode, get_ap_start_realmode_end, KERNEL_OFFSET};
use nano_core::page_table::{P4Table, ENTRIES_PER_PAGE_TABLE, IDENTITY_MAPPED_P4_ENTRIES};

#[test]
fn trampoline_addresses_move_to_the_higher_half() {
    assert_eq!(get_ap_start_realmode(0x1000), 0xFFFF_FFFF_8000_1000);
    assert_eq!(get_ap_start_realmode_end(0x1F00), 0xFFFF_FFFF_8000_1F00);
    assert_eq!(get_ap_start_realmode(0), KERNEL_OFFSET);
    assert_eq!(get_ap_start_realmode_end(0x7FFF_FFFF), u64::MAX);
    let start = get_ap_start_realmode(0x8000);
    let end = get_ap_start_realmode_end(0x8200);
    assert_eq!(end - start, 0x200);
}

#[test]
fn kernel_window_is_in_the_top_p4_slot() {
    for phys in [0u64, 0x1000, 0x10_0000, 0x7FFF_FFFF] {
        let virt = get_ap_start_realmode(phys);
        assert_eq!((virt >> 39) & 0x1FF, 511);
    }
}

fn sample_entries() -> Vec<u64> {
    (0..ENTRIES_PER_PAGE_TABLE as u64).map(|i| (i << 12) | 0x3).collect()
}

#[test]
fn unmapping_clears_only_the_identity_region() {
    let original = sample_entries();
    let mut table = P4Table::from_entries(original.clone()).unwrap();
    table.unmap_identity_region();
    let entries = table.into_entries();
    assert_eq!(entries.len(), 512);
    for i in 0..IDENTITY_MAPPED_P4_ENTRIES {
        assert_eq!(entries[i], 0);
    }
    for i in IDENTITY_MAPPED_P4_ENTRIES..ENTRIES_PER_PAGE_TABLE {
        assert_eq!(entries[i], original[i]);
    }
    assert_eq!(entries[511], original[511]);
}

#[test]
fn unmapping_twice_changes_nothing_more() {
    let mut table = P4Table::from_entries(sample_entries()).unwrap();
    table.unmap_identity_region();
    let once = table.into_entries();
    let mut table = P4Table::from_entries(once.clone()).unwrap();
    table.unmap_identity_region();
    assert_eq!(table.into_entries(), once);
}

#[test]
fn clear_single_entry() {
    let original = sample_entries();
    let mut table = P4Table::from_entries(original.clone()).unwrap();
    assert_eq!(table.entry(7), original[7]);
    table.clear_entry(7);
    assert_eq!(table.entry(7), 0);
    assert_eq!(table.entry(8), original[8]);
    assert_eq!(table.entry(6), original[6]);
}

#[test]
fn tables_must_have_512_entries() {
    assert!(P4Table::from_entries(vec![0; 511]).is_none());
    assert!(P4Table::from_entries(vec![0; 513]).is_none());
    assert!(P4Table::from_entries(Vec::new()).is_none());
    assert!(P4Table::from_entries(vec![0; 512]).is_some());
}
