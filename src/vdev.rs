//! The emulated block backends: for each VM, the configuration block handed
//! to the hypervisor, the backing drive file and the pinned memory cache.
use std::collections::HashMap;

use memmap::MmapMut;
use vstd::prelude::*;

use crate::cache::{allocate_cache, cache_address, check_cache_address, mapped_len, HUGE_TLB_MAX};
use crate::error::DaemonError;
use crate::pagetable::{get_physical_addr, physical_addr_from};

verus! {

/// Size of one sector of an emulated disk, in bytes.
pub const BLOCK_SIZE: usize = 512;

/// Placeholder of the host-physical cache address until the hypervisor writes it.
pub const CACHE_HPA_PLACEHOLDER: u64 = 0xdead_beef;

/// The largest sector count of a drive file whose size fits in a `u64`.
pub const MAX_BLOCK_NUM: u64 = 0x80_0000_0000_0000;

/// Request type of a sector read.
pub const BLOCK_REQ_READ: usize = 0;

/// Request type of a sector write.
pub const BLOCK_REQ_WRITE: usize = 1;

/// A guest's request to read or write `count` sectors from `sector` on.
pub struct BlockRequest {
    pub req_type: usize,
    pub sector: usize,
    pub count: usize,
}

/// Events of emulated devices, such as block requests raised by a guest.
pub struct VDevEventWrapper {}

/// The configuration block shared with the hypervisor for one VM's disk.
#[derive(Debug, Clone, Copy, PartialEq, Eq, Structural)]
pub struct EmulatedBlockCfgMmio {
    pub vmid: usize,
    pub block_num: u64,
    pub dma_block_max: usize,
    pub cache_size: usize,
    pub cache_gva: u64,
    pub cache_gpa: u64,
    /// Written later by the hypervisor.
    pub cache_hpa: u64,
}

/// A single drive backend file.
pub struct DriveFile<F> {
    /// VM id.
    vmid: usize,
    /// The opened file.
    file: F,
    /// File path.
    path: String,
}

/// The backend of one VM's emulated disk.
pub struct EmulatedBlock<F> {
    base: EmulatedBlockCfgMmio,
    drive_file: DriveFile<F>,
    cache: MmapMut,
}

/// The emulated block backends of all VMs, keyed by VM id.
pub struct EmulatedBlockBackends<F> {
    emulated_blocks: HashMap<usize, EmulatedBlock<F>>,
}

/// A transfer between the backing file and the cache that a block request
/// asks for.
#[derive(Debug, Clone, Copy, PartialEq, Eq, Structural)]
pub struct SectorTransfer {
    /// Whether the guest writes to the disk (else it reads).
    pub write: bool,
    /// Byte offset in the backing file.
    pub file_offset: u64,
    /// Byte offset in the cache.
    pub cache_offset: usize,
    /// Number of bytes moved.
    pub len: usize,
}

/// The number of sectors needed to hold `size` bytes.
pub open spec fn block_count(size: u64) -> int {
    (size + 511) / 512
}

/// The configuration block that `setup` fills in for VM `vmid` whose drive
/// file holds `file_size` bytes: its cache's physical address is what the
/// page-table snapshot that was read resolves its virtual address to.
pub open spec fn fresh_config(c: EmulatedBlockCfgMmio, vmid: usize, file_size: u64) -> bool {
    &&& c.vmid == vmid
    &&& exists|page_size: u64, regions: Seq<(u64, u64)>, entries: Seq<u64>|
        #[trigger] physical_addr_from(c.cache_gva, page_size, regions, entries) == Ok::<u64, DaemonError>(c.cache_gpa)
    &&& c.block_num == block_count(file_size)
    &&& c.cache_size == HUGE_TLB_MAX
    &&& c.dma_block_max == HUGE_TLB_MAX / BLOCK_SIZE
    &&& c.cache_hpa == CACHE_HPA_PLACEHOLDER
}

/// The transfer that a block request asks of a disk with this configuration.
pub open spec fn transfer_of(c: EmulatedBlockCfgMmio, req_type: usize, sector: usize, count: usize) -> Result<SectorTransfer, DaemonError> {
    if req_type != BLOCK_REQ_READ && req_type != BLOCK_REQ_WRITE {
        Err(DaemonError::InvalidInput)
    } else if count == 0 || count > c.dma_block_max || sector + count > c.block_num {
        Err(DaemonError::InvalidInput)
    } else {
        Ok(SectorTransfer {
            write: req_type == BLOCK_REQ_WRITE,
            file_offset: (sector * BLOCK_SIZE) as u64,
            cache_offset: 0,
            len: (count * BLOCK_SIZE) as usize,
        })
    }
}

impl BlockRequest {
    pub fn new(req_type: usize, sector: usize, count: usize) -> (r: BlockRequest)
        ensures
            r.req_type == req_type,
            r.sector == sector,
            r.count == count,
    {
        BlockRequest { req_type, sector, count }
    }
}

impl<F> EmulatedBlock<F> {
    /// The configuration block of this backend.
    pub closed spec fn config(&self) -> EmulatedBlockCfgMmio {
        self.base
    }

    /// The path of this backend's drive file.
    pub closed spec fn path(&self) -> Seq<char> {
        self.drive_file.path@
    }

    /// The backend belongs to VM `vmid`, and its cache is as large as its
    /// configuration says.
    pub closed spec fn wf(&self, vmid: usize) -> bool {
        &&& self.base.vmid == vmid
        &&& self.drive_file.vmid == vmid
        &&& mapped_len(self.cache) == self.base.cache_size
        &&& self.base.cache_size == HUGE_TLB_MAX
        &&& self.base.dma_block_max == HUGE_TLB_MAX / BLOCK_SIZE
        &&& self.base.block_num <= MAX_BLOCK_NUM
    }

    /// Plans the transfer that a block request asks for.
    fn rw_sectors(&self, req: BlockRequest) -> (r: Result<SectorTransfer, DaemonError>)
        requires
            self.wf(self.config().vmid),
        ensures
            r == transfer_of(self.config(), req.req_type, req.sector, req.count),
    {
        if req.req_type != BLOCK_REQ_READ && req.req_type != BLOCK_REQ_WRITE {
            return Err(DaemonError::InvalidInput);
        }
        if req.count == 0 || req.count > self.base.dma_block_max {
            return Err(DaemonError::InvalidInput);
        }
        if req.sector as u64 > self.base.block_num || (req.count as u64) > self.base.block_num - req.sector as u64 {
            return Err(DaemonError::InvalidInput);
        }
        assert(req.count * 512 <= HUGE_TLB_MAX) by (nonlinear_arith)
            requires
                req.count <= 4096,
        ;
        assert(req.sector * 512 <= u64::MAX) by (nonlinear_arith)
            requires
                req.sector < 0x80_0000_0000_0000,
        ;
        Ok(SectorTransfer {
            write: req.req_type == BLOCK_REQ_WRITE,
            file_offset: (req.sector as u64) * (BLOCK_SIZE as u64),
            cache_offset: 0,
            len: req.count * BLOCK_SIZE,
        })
    }
}

/// The number of sectors needed to hold `size` bytes.
fn sectors_for(size: u64) -> (r: u64)
    ensures
        r == block_count(size),
        r <= MAX_BLOCK_NUM,
{
    let r = size / 512 + if size % 512 != 0 { 1 } else { 0 };
    assert(r == block_count(size));
    r
}

/// Allocates and self-tests the cache of VM `vmid`, resolves its physical
/// address in process `pid`, and fills in the configuration block.
fn setup_emulated_block_rw_cache(vmid: usize, drive_file_size: u64, pid: u64) -> (r: Result<(EmulatedBlockCfgMmio, MmapMut), DaemonError>)
    ensures
        r matches Ok((c, m)) ==> fresh_config(c, vmid, drive_file_size) && mapped_len(m) == HUGE_TLB_MAX,
        r matches Err(e) ==> e == DaemonError::BadState || e == DaemonError::PermissionDenied,
{
    let cache_size = HUGE_TLB_MAX;
    let mut mmap = match allocate_cache(cache_size) {
        Ok(m) => m,
        Err(e) => return Err(e),
    };
    match check_cache_address(&mut mmap) {
        Ok(()) => {},
        Err(e) => return Err(e),
    }
    let cache_gva = cache_address(&mmap);
    let cache_gpa = match get_physical_addr(cache_gva, pid) {
        Ok(p) => p,
        Err(e) => return Err(e),
    };
    let base = EmulatedBlockCfgMmio {
        vmid,
        block_num: sectors_for(drive_file_size),
        dma_block_max: cache_size / BLOCK_SIZE,
        cache_size,
        cache_gva,
        cache_gpa,
        cache_hpa: CACHE_HPA_PLACEHOLDER,
    };
    Ok((base, mmap))
}

impl<F> EmulatedBlockBackends<F> {
    /// The backends, keyed by VM id.
    pub closed spec fn view(&self) -> Map<usize, EmulatedBlock<F>> {
        self.emulated_blocks@
    }

    /// Each backend belongs to the VM id it is stored under.
    pub closed spec fn wf(&self) -> bool {
        forall|k: usize| #[trigger] self.emulated_blocks@.contains_key(k) ==> self.emulated_blocks@[k].wf(k)
    }

    /// No backend at all.
    pub fn new() -> (r: Self)
        ensures
            r.wf(),
            r.view() == Map::<usize, EmulatedBlock<F>>::empty(),
    {
        EmulatedBlockBackends { emulated_blocks: HashMap::new() }
    }

    /// Whether VM `vmid` has a backend.
    pub fn contains(&self, vmid: usize) -> (r: bool)
        ensures
            r == self.view().contains_key(vmid),
    {
        self.emulated_blocks.contains_key(&vmid)
    }

    /// Adds the backend of VM `vmid`, whose disk image at `path` was opened
    /// as `file` and holds `file_size` bytes; `pid` is this process. Fails,
    /// leaving the backends as they were, when VM `vmid` already has one or
    /// when its cache cannot be set up.
    pub fn setup_emulated_block(&mut self, vmid: usize, path: String, file: F, file_size: u64, pid: u64) -> (r: Result<(), DaemonError>)
        requires
            old(self).wf(),
        ensures
            final(self).wf(),
            old(self).view().contains_key(vmid) ==> r == Err::<(), DaemonError>(DaemonError::BackendAlreadyExists),
            r is Err ==> final(self).view() == old(self).view(),
            !old(self).view().contains_key(vmid) ==> r is Ok || r == Err::<(), DaemonError>(DaemonError::BadState)
                || r == Err::<(), DaemonError>(DaemonError::PermissionDenied),
            r is Ok ==> !old(self).view().contains_key(vmid) && exists|b: EmulatedBlock<F>|
                final(self).view() == old(self).view().insert(vmid, b) && fresh_config(b.config(), vmid, file_size)
                    && b.path() == path@,
    {
        if self.emulated_blocks.contains_key(&vmid) {
            return Err(DaemonError::BackendAlreadyExists);
        }
        let (base, cache) = match setup_emulated_block_rw_cache(vmid, file_size, pid) {
            Ok(pair) => pair,
            Err(e) => return Err(e),
        };
        let drive_file = DriveFile { vmid, file, path };
        let block = EmulatedBlock { base, drive_file, cache };
        let ghost b = block;
        assert(block.wf(vmid));
        self.emulated_blocks.insert(vmid, block);
        assert(final(self).view() == old(self).view().insert(vmid, b));
        assert(fresh_config(b.config(), vmid, file_size) && b.path() == path@);
        Ok(())
    }

    /// Removes the backend of VM `vmid`, which releases its cache mapping and
    /// closes its drive file.
    pub fn remove_emulated_block(&mut self, vmid: usize) -> (r: Result<(), DaemonError>)
        requires
            old(self).wf(),
        ensures
            final(self).wf(),
            old(self).view().contains_key(vmid) ==> r is Ok && final(self).view() == old(self).view().remove(vmid),
            !old(self).view().contains_key(vmid) ==> r == Err::<(), DaemonError>(DaemonError::UnknownVm)
                && final(self).view() == old(self).view(),
    {
        match self.emulated_blocks.remove(&vmid) {
            Some(_removed_block) => Ok(()),
            None => Err(DaemonError::UnknownVm),
        }
    }

    /// Plans the transfer that a block request of VM `vmid` asks for.
    pub fn emulated_block_rw_sectors(&mut self, vmid: usize, req: BlockRequest) -> (r: Result<SectorTransfer, DaemonError>)
        requires
            old(self).wf(),
        ensures
            final(self).wf(),
            final(self).view() == old(self).view(),
            !old(self).view().contains_key(vmid) ==> r == Err::<SectorTransfer, DaemonError>(DaemonError::UnknownVm),
            old(self).view().contains_key(vmid) ==> r == transfer_of(old(self).view()[vmid].config(), req.req_type, req.sector, req.count),
    {
        match self.emulated_blocks.get(&vmid) {
            Some(block) => {
                assert(block.wf(vmid));
                block.rw_sectors(req)
            },
            None => Err(DaemonError::UnknownVm),
        }
    }
}

} // verus!
