//! Resolution of a virtual address into the physical address backing it,
//! through the process's own page-table snapshot (`/proc/<pid>/maps` and
//! `/proc/<pid>/pagemap`).
use pagemap::{MemoryRegion, PageMap, PageMapEntry, PageMapError};
use vstd::prelude::*;

use crate::error::DaemonError;

verus! {

/// `pagemap::PageMap`, the open page-table files of a process, held opaquely.
#[verifier::external_type_specification]
#[verifier::external_body]
pub struct ExPageMap(pagemap::PageMap);

/// `pagemap::PageMapError`, why the page-table files could not be read, held opaquely.
#[verifier::external_type_specification]
#[verifier::external_body]
pub struct ExPageMapError(pagemap::PageMapError);

/// Mask of the page frame number within a pagemap entry (bits 0 to 54).
pub const PFN_MASK: u64 = 0x7f_ffff_ffff_ffff;

/// Whether a raw pagemap entry has its "present" bit (bit 63) set.
pub open spec fn page_present(raw: u64) -> bool {
    (raw >> 63u64) & 1u64 == 1u64
}

/// The page frame number held by a raw pagemap entry.
pub open spec fn page_frame(raw: u64) -> u64 {
    raw & PFN_MASK
}

/// Whether a mapping, given as its first address and its size in bytes,
/// holds `addr`.
pub open spec fn region_holds(region: (u64, u64), addr: u64) -> bool {
    region.0 <= addr < region.0 + region.1
}

/// The physical address of `vaddr`, given the page size and the pagemap
/// entry of its page: the page must be present, and a zero frame number
/// means the process may not read real frame numbers.
pub open spec fn translated(vaddr: u64, page_size: u64, raw: u64) -> Result<u64, DaemonError> {
    let paddr = page_frame(raw) * page_size + vaddr % page_size;
    if !page_present(raw) {
        Err(DaemonError::BadState)
    } else if page_frame(raw) == 0 {
        Err(DaemonError::PermissionDenied)
    } else if paddr > u64::MAX {
        Err(DaemonError::BadState)
    } else {
        Ok(paddr as u64)
    }
}

/// Relies on `pagemap::page_size`: the system's page size in bytes.
#[verifier::external_body]
fn system_page_size() -> (r: Result<u64, PageMapError>) {
    pagemap::page_size()
}

/// Relies on `pagemap::PageMap::new`: opens the page-table files of process `pid`.
#[verifier::external_body]
fn open_page_map(pid: u64) -> (r: Result<PageMap, PageMapError>) {
    PageMap::new(pid)
}

/// Relies on `pagemap::PageMap::maps`: the mappings of the process, each
/// handed out as its first address (`MemoryRegion::start_address`) and its
/// size in bytes (`MemoryRegion::size`).
#[verifier::external_body]
fn read_maps(pm: &mut PageMap) -> (r: Result<Vec<(u64, u64)>, PageMapError>) {
    pm.maps().map(
        |entries| {
            entries.iter().map(
                |e| {
                    let region = e.memory_region();
                    (region.start_address(), region.size())
                },
            ).collect()
        },
    )
}

/// Relies on `pagemap::PageMap::pagemap_region`: the pagemap entries of the
/// pages of the region from `start` up to `end` (excluded), each handed out
/// as its raw value (`PageMapEntry::raw_pagemap`). The region is built with
/// `MemoryRegion::from`, which expects `start < end`.
#[verifier::external_body]
fn pagemap_region(pm: &mut PageMap, start: u64, end: u64) -> (r: Result<Vec<u64>, PageMapError>)
    requires
        start < end,
{
    pm.pagemap_region(&MemoryRegion::from((start, end))).map(
        |entries| entries.iter().map(|e| e.raw_pagemap()).collect(),
    )
}

/// Relies on `pagemap::PageMapEntry::present`: tests bit 63 of the raw entry.
#[verifier::external_body]
fn entry_present(raw: u64) -> (r: bool)
    ensures
        r == page_present(raw),
{
    PageMapEntry::from(raw).present()
}

/// Relies on `pagemap::PageMapEntry::pfn`: bits 0 to 54 of the raw entry when
/// the page is present, an error otherwise.
#[verifier::external_body]
fn entry_pfn(raw: u64) -> (r: Result<u64, PageMapError>)
    ensures
        page_present(raw) ==> r is Ok && r->Ok_0 == page_frame(raw),
        !page_present(raw) ==> r.is_err(),
{
    PageMapEntry::from(raw).pfn()
}

/// The index of the first mapping that holds `vaddr`, if any does.
pub fn find_region(regions: &Vec<(u64, u64)>, vaddr: u64) -> (r: Option<usize>)
    ensures
        r matches Some(i) ==> i < regions@.len() && region_holds(regions@[i as int], vaddr)
            && forall|j: int| 0 <= j < i ==> !region_holds(#[trigger] regions@[j], vaddr),
        r is None ==> forall|j: int|
            0 <= j < regions@.len() ==> !region_holds(#[trigger] regions@[j], vaddr),
{
    let mut i: usize = 0;
    while i < regions.len()
        invariant
            i <= regions@.len(),
            forall|j: int| 0 <= j < i ==> !region_holds(#[trigger] regions@[j], vaddr),
        decreases regions@.len() - i,
    {
        let (start, size) = regions[i];
        if start <= vaddr && (vaddr - start) < size {
            return Some(i);
        }
        i = i + 1;
    }
    None
}

/// Translates `vaddr` through the pagemap entry of its page.
pub fn translate_page_entry(vaddr: u64, page_size: u64, raw: u64) -> (r: Result<u64, DaemonError>)
    requires
        page_size > 0,
    ensures
        r == translated(vaddr, page_size, raw),
{
    if !entry_present(raw) {
        return Err(DaemonError::BadState);
    }
    let pfn = match entry_pfn(raw) {
        Ok(pfn) => pfn,
        Err(_) => return Err(DaemonError::BadState),
    };
    if pfn == 0 {
        return Err(DaemonError::PermissionDenied);
    }
    let offset = vaddr % page_size;
    match pfn.checked_mul(page_size) {
        Some(base) => match base.checked_add(offset) {
            Some(paddr) => Ok(paddr),
            None => Err(DaemonError::BadState),
        },
        None => {
            assert(pfn * page_size + offset > u64::MAX) by (nonlinear_arith)
                requires
                    pfn * page_size > u64::MAX,
                    offset >= 0,
            ;
            Err(DaemonError::BadState)
        },
    }
}

/// Whether mapping `i` is the first of `regions` that holds `vaddr`.
pub open spec fn first_holding(regions: Seq<(u64, u64)>, vaddr: u64, i: int) -> bool {
    &&& 0 <= i < regions.len()
    &&& region_holds(regions[i], vaddr)
    &&& forall|j: int| 0 <= j < i ==> !region_holds(#[trigger] regions[j], vaddr)
}

/// Where the page of `vaddr` lies, given the page size and the mappings:
/// the first mapping that holds it, as its first address and its end, and
/// the index of the page within it. A zero page size, an address that no
/// mapping holds and a mapping that ends past the last address are `BadState`.
pub open spec fn page_location(vaddr: u64, page_size: u64, regions: Seq<(u64, u64)>) -> Result<(u64, u64, u64), DaemonError> {
    if page_size == 0 {
        Err(DaemonError::BadState)
    } else if !(exists|i: int| first_holding(regions, vaddr, i)) {
        Err(DaemonError::BadState)
    } else {
        let i = choose|i: int| first_holding(regions, vaddr, i);
        let start = regions[i].0;
        let end = regions[i].0 + regions[i].1;
        if end > u64::MAX {
            Err(DaemonError::BadState)
        } else {
            Ok((start, end as u64, ((vaddr - start) / page_size as int) as u64))
        }
    }
}

/// The physical address of `vaddr`, given the page size and the pagemap
/// entries of the pages of the mapping that starts at `region_start`: the
/// entry of `vaddr`'s page decides; a page past the entries is `BadState`.
pub open spec fn resolved_in_region(vaddr: u64, page_size: u64, region_start: u64, entries: Seq<u64>) -> Result<u64, DaemonError> {
    let index = (vaddr - region_start) / page_size as int;
    if index >= entries.len() {
        Err(DaemonError::BadState)
    } else {
        translated(vaddr, page_size, entries[index])
    }
}

/// The physical address of `vaddr` given a page size, the mappings of the
/// process and the pagemap entries of the mapping that holds it.
pub open spec fn physical_addr_from(vaddr: u64, page_size: u64, regions: Seq<(u64, u64)>, entries: Seq<u64>) -> Result<u64, DaemonError> {
    match page_location(vaddr, page_size, regions) {
        Err(e) => Err(e),
        Ok((start, _end, _index)) => resolved_in_region(vaddr, page_size, start, entries),
    }
}

/// Locates the page of `vaddr` among the mappings `regions`.
pub fn locate_page(vaddr: u64, page_size: u64, regions: &Vec<(u64, u64)>) -> (r: Result<(u64, u64, u64), DaemonError>)
    ensures
        r == page_location(vaddr, page_size, regions@),
{
    if page_size == 0 {
        return Err(DaemonError::BadState);
    }
    let i = match find_region(regions, vaddr) {
        Some(i) => i,
        None => {
            assert(!(exists|i: int| first_holding(regions@, vaddr, i)));
            return Err(DaemonError::BadState);
        },
    };
    assert(first_holding(regions@, vaddr, i as int));
    let ghost c = choose|c: int| first_holding(regions@, vaddr, c);
    assert(c == i) by {
        if c < i {
            assert(!region_holds(regions@[c], vaddr));
        } else if i < c {
            assert(!region_holds(regions@[i as int], vaddr));
        }
    }
    let (start, size) = regions[i];
    let end = match start.checked_add(size) {
        Some(end) => end,
        None => return Err(DaemonError::BadState),
    };
    Ok((start, end, (vaddr - start) / page_size))
}

/// Translates `vaddr` through the entry of its page among `entries`, the
/// pagemap entries of the mapping that starts at `region_start`.
pub fn resolve_in_region(vaddr: u64, page_size: u64, region_start: u64, entries: &Vec<u64>) -> (r: Result<u64, DaemonError>)
    requires
        page_size > 0,
        region_start <= vaddr,
    ensures
        r == resolved_in_region(vaddr, page_size, region_start, entries@),
{
    let index = (vaddr - region_start) / page_size;
    if index >= entries.len() as u64 {
        return Err(DaemonError::BadState);
    }
    translate_page_entry(vaddr, page_size, entries[index as usize])
}

/// The physical address backing `vaddr` in process `pid`: reads the page
/// size, the mappings of the process and the pagemap entries of the mapping
/// that holds `vaddr`, and resolves the address from them. A failed read is
/// `BadState`; otherwise the result is what `physical_addr_from` gives on
/// what was read.
pub fn get_physical_addr(vaddr: u64, pid: u64) -> (r: Result<u64, DaemonError>)
    ensures
        r == Err::<u64, DaemonError>(DaemonError::BadState) || exists|page_size: u64, regions: Seq<(u64, u64)>, entries: Seq<u64>|
            r == #[trigger] physical_addr_from(vaddr, page_size, regions, entries),
        r matches Err(e) ==> e == DaemonError::BadState || e == DaemonError::PermissionDenied,
{
    let page_size = match system_page_size() {
        Ok(size) => size,
        Err(_) => return Err(DaemonError::BadState),
    };
    let mut pm = match open_page_map(pid) {
        Ok(pm) => pm,
        Err(_) => return Err(DaemonError::BadState),
    };
    let regions = match read_maps(&mut pm) {
        Ok(regions) => regions,
        Err(_) => return Err(DaemonError::BadState),
    };
    let (start, end, _index) = match locate_page(vaddr, page_size, &regions) {
        Ok(location) => location,
        Err(e) => return Err(e),
    };
    assert(start <= vaddr < end);
    let entries = match pagemap_region(&mut pm, start, end) {
        Ok(entries) => entries,
        Err(_) => return Err(DaemonError::BadState),
    };
    let r = resolve_in_region(vaddr, page_size, start, &entries);
    assert(r == physical_addr_from(vaddr, page_size, regions@, entries@));
    r
}

} // verus!
