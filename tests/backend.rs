use axdaemon::cache::{allocate_cache, cache_self_test, check_cache_address, HUGE_TLB_MAX};
use axdaemon::error::DaemonError;
use axdaemon::pagetable::{
    find_region, get_physical_addr, locate_page, resolve_in_region, translate_page_entry, PFN_MASK,
};
use axdaemon::vdev::{BlockRequest, EmulatedBlockBackends, BLOCK_REQ_READ};

const PRESENT: u64 = 1 << 63;

#[test]
fn self_test_accepts_identical_bytes() {
    assert_eq!(cache_self_test(b"abcdef", b"abcdef"), Ok(()));
    assert_eq!(cache_self_test(&[], &[]), Ok(()));
}

#[test]
fn self_test_rejects_mismatch() {
    assert_eq!(cache_self_test(b"abcdef", b"abcdeX"), Err(DaemonError::BadState));
}

#[test]
fn self_test_rejects_short_read_back() {
    assert_eq!(cache_self_test(b"abcdef", b"abc"), Err(DaemonError::BadState));
}

#[test]
fn zero_length_cache_is_refused() {
    assert!(matches!(allocate_cache(0), Err(DaemonError::BadState)));
}

#[test]
fn full_size_cache_passes_self_test() {
    let mut cache = allocate_cache(HUGE_TLB_MAX).expect("anonymous mapping");
    assert_eq!(cache.len(), 2 * 1024 * 1024);
    assert_eq!(check_cache_address(&mut cache), Ok(()));
    assert!(cache.iter().all(|b| b.is_ascii_alphanumeric()));
}

#[test]
fn absent_page_is_bad_state() {
    assert_eq!(translate_page_entry(0x1234, 4096, 5), Err(DaemonError::BadState));
}

#[test]
fn zero_frame_is_permission_denied() {
    assert_eq!(translate_page_entry(0x1234, 4096, PRESENT), Err(DaemonError::PermissionDenied));
}

#[test]
fn present_page_translates() {
    assert_eq!(translate_page_entry(0x7f00_1234, 4096, PRESENT | 5), Ok(5 * 4096 + 0x234));
}

#[test]
fn flag_bits_are_not_part_of_frame() {
    let raw = PRESENT | (1 << 55) | (1 << 61) | 9;
    assert_eq!(translate_page_entry(0x10, 4096, raw), Ok(9 * 4096 + 0x10));
    assert_eq!(PFN_MASK, (1u64 << 55) - 1);
}

#[test]
fn oversized_physical_address_is_bad_state() {
    assert_eq!(translate_page_entry(0x10, 1 << 20, PRESENT | PFN_MASK), Err(DaemonError::BadState));
}

#[test]
fn first_holding_region_is_found() {
    let regions = vec![(0x1000, 0x1000), (0x4000, 0x2000), (0x5000, 0x1000)];
    assert_eq!(find_region(&regions, 0x5800), Some(1));
    assert_eq!(find_region(&regions, 0x1000), Some(0));
    assert_eq!(find_region(&regions, 0x2000), None);
    assert_eq!(find_region(&[].to_vec(), 0x2000), None);
}

#[test]
fn unmapped_address_is_bad_state() {
    assert_eq!(get_physical_addr(0, 1), Err(DaemonError::BadState));
}

#[test]
fn remove_unknown_backend_fails() {
    let mut backends: EmulatedBlockBackends<()> = EmulatedBlockBackends::new();
    assert_eq!(backends.remove_emulated_block(3), Err(DaemonError::UnknownVm));
    assert!(!backends.contains(3));
}

#[test]
fn rw_sectors_of_unknown_backend_fails() {
    let mut backends: EmulatedBlockBackends<()> = EmulatedBlockBackends::new();
    let req = BlockRequest::new(BLOCK_REQ_READ, 0, 1);
    assert_eq!(backends.emulated_block_rw_sectors(3, req), Err(DaemonError::UnknownVm));
}

fn own_pid() -> u64 {
    rustix::process::Pid::as_raw(Some(rustix::process::getpid())) as u64
}

#[test]
fn own_cache_translates_or_needs_privilege() {
    let mut cache = allocate_cache(HUGE_TLB_MAX).expect("anonymous mapping");
    assert_eq!(check_cache_address(&mut cache), Ok(()));
    let vaddr = cache.as_ptr() as u64;
    match get_physical_addr(vaddr, own_pid()) {
        Ok(paddr) => {
            assert_ne!(paddr, 0);
            assert_eq!(paddr % 4096, vaddr % 4096);
        }
        Err(e) => assert_eq!(e, DaemonError::PermissionDenied),
    }
}

#[test]
fn backend_is_set_up_once() {
    let mut backends: EmulatedBlockBackends<&str> = EmulatedBlockBackends::new();
    match backends.setup_emulated_block(4, "/img/d".to_string(), "file", 1025, own_pid()) {
        Ok(()) => {
            assert!(backends.contains(4));
            assert_eq!(
                backends.setup_emulated_block(4, "/img/d".to_string(), "again", 1025, own_pid()),
                Err(DaemonError::BackendAlreadyExists)
            );
            let req = BlockRequest::new(BLOCK_REQ_READ, 2, 1);
            let plan = backends.emulated_block_rw_sectors(4, req).expect("three sectors");
            assert_eq!((plan.write, plan.file_offset, plan.len), (false, 1024, 512));
            let past_end = BlockRequest::new(BLOCK_REQ_READ, 2, 2);
            assert_eq!(backends.emulated_block_rw_sectors(4, past_end), Err(DaemonError::InvalidInput));
            assert_eq!(backends.remove_emulated_block(4), Ok(()));
            assert!(!backends.contains(4));
        }
        Err(e) => {
            assert_eq!(e, DaemonError::PermissionDenied);
            assert!(!backends.contains(4));
        }
    }
}

#[test]
fn page_is_located_in_first_holding_region() {
    let regions = vec![(0x1000, 0x1000), (0x4000, 0x3000), (0x5000, 0x1000)];
    assert_eq!(locate_page(0x5800, 0x1000, &regions), Ok((0x4000, 0x7000, 1)));
    assert_eq!(locate_page(0x4000, 0x1000, &regions), Ok((0x4000, 0x7000, 0)));
}

#[test]
fn unlocatable_pages_are_bad_state() {
    let regions = vec![(0x1000, 0x1000), (u64::MAX - 0x10, 0x100)];
    assert_eq!(locate_page(0x3000, 0x1000, &regions), Err(DaemonError::BadState));
    assert_eq!(locate_page(0x1800, 0, &regions), Err(DaemonError::BadState));
    assert_eq!(locate_page(u64::MAX - 8, 0x1000, &regions), Err(DaemonError::BadState));
}

#[test]
fn entry_of_the_address_page_decides() {
    let entries = vec![PRESENT | 3, PRESENT | 7, PRESENT];
    assert_eq!(resolve_in_region(0x6123, 0x1000, 0x5000, &entries), Ok(7 * 0x1000 + 0x123));
    assert_eq!(resolve_in_region(0x5010, 0x1000, 0x5000, &entries), Ok(3 * 0x1000 + 0x10));
    assert_eq!(resolve_in_region(0x7010, 0x1000, 0x5000, &entries), Err(DaemonError::PermissionDenied));
    assert_eq!(resolve_in_region(0x8010, 0x1000, 0x5000, &entries), Err(DaemonError::BadState));
}
