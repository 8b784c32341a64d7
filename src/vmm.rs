//! The VM registry: which VM ids are registered with which disk image, and
//! which of them have had their emulated block backend set up by a boot.
use std::collections::BTreeMap;

use vstd::prelude::*;

use crate::error::DaemonError;
use crate::request::DaemonRequest;
use crate::vdev::{fresh_config, EmulatedBlock, EmulatedBlockBackends};

verus! {

/// The disk image paths of the registered VMs, keyed by VM id.
pub type PathsView = Map<usize, Seq<char>>;

/// The outcome of registering VM `vmid` in a registry with these paths.
pub open spec fn register_result(paths: PathsView, vmid: usize) -> Result<(), DaemonError> {
    if paths.contains_key(vmid) {
        Err(DaemonError::AlreadyRegistered)
    } else {
        Ok(())
    }
}

/// The paths after registering VM `vmid` with disk image `path`: an existing
/// entry is never replaced.
pub open spec fn after_register(paths: PathsView, vmid: usize, path: Seq<char>) -> PathsView {
    if paths.contains_key(vmid) {
        paths
    } else {
        paths.insert(vmid, path)
    }
}

/// Why booting VM `vmid` is refused before any backend work starts, if it is:
/// it must be registered and must not have a backend yet.
pub open spec fn boot_refusal(paths: PathsView, booted: Set<usize>, vmid: usize) -> Option<DaemonError> {
    if !paths.contains_key(vmid) {
        Some(DaemonError::NotRegistered)
    } else if booted.contains(vmid) {
        Some(DaemonError::BackendAlreadyExists)
    } else {
        None
    }
}

/// The paths after registering each `(vmid, path)` of `reqs` in turn.
pub open spec fn register_all(paths: PathsView, reqs: Seq<(usize, Seq<char>)>) -> PathsView
    decreases reqs.len(),
{
    if reqs.len() == 0 {
        paths
    } else {
        let last = reqs.last();
        after_register(register_all(paths, reqs.drop_last()), last.0, last.1)
    }
}

/// Registering a VM id twice: the second registration fails with
/// `AlreadyRegistered` and leaves the paths as the first one left them, so a
/// VM id that was free keeps the disk image of its first registration.
pub proof fn lemma_register_twice(paths: PathsView, vmid: usize, p: Seq<char>, p_again: Seq<char>)
    ensures
        register_result(after_register(paths, vmid, p), vmid) == Err::<(), DaemonError>(
            DaemonError::AlreadyRegistered,
        ),
        after_register(after_register(paths, vmid, p), vmid, p_again) == after_register(paths, vmid, p),
        !paths.contains_key(vmid) ==> after_register(after_register(paths, vmid, p), vmid, p_again)[vmid]
            == p,
{
}

/// Register, then boot: once a free VM id is registered, its boot is not
/// refused; the boot's backend makes exactly that VM id booted; and a second
/// boot of it is refused with `BackendAlreadyExists`.
pub proof fn lemma_register_then_boot(
    paths: PathsView,
    booted: Set<usize>,
    vmid: usize,
    p: Seq<char>,
)
    requires
        !paths.contains_key(vmid),
        forall|k: usize| #[trigger] booted.contains(k) ==> paths.contains_key(k),
    ensures
        register_result(paths, vmid) == Ok::<(), DaemonError>(()),
        boot_refusal(after_register(paths, vmid, p), booted, vmid) is None,
        booted.insert(vmid).contains(vmid),
        booted.insert(vmid).remove(vmid) == booted,
        boot_refusal(after_register(paths, vmid, p), booted.insert(vmid), vmid) == Some(
            DaemonError::BackendAlreadyExists,
        ),
{
    assert(!booted.contains(vmid));
    assert(booted.insert(vmid).remove(vmid) =~= booted);
}

/// Two boots of one VM id, served one after the other in either order: once
/// one of them has set up the backend, the other is refused with
/// `BackendAlreadyExists`.
pub proof fn lemma_boot_exclusive(paths: PathsView, booted: Set<usize>, vmid: usize)
    requires
        boot_refusal(paths, booted, vmid) is None,
    ensures
        boot_refusal(paths, booted.insert(vmid), vmid) == Some(DaemonError::BackendAlreadyExists),
{
}

/// Registrations of distinct VM ids that are all free, served one at a time
/// in any order: each one succeeds, and afterwards each VM id maps to its own
/// disk image, earlier registrations are kept, and no other VM id is
/// registered, so every order leaves the same registry.
pub proof fn lemma_register_distinct(paths: PathsView, reqs: Seq<(usize, Seq<char>)>)
    requires
        forall|i: int, j: int| 0 <= i < j < reqs.len() ==> reqs[i].0 != reqs[j].0,
        forall|i: int| 0 <= i < reqs.len() ==> !paths.contains_key(#[trigger] reqs[i].0),
    ensures
        forall|i: int|
            0 <= i < reqs.len() ==> register_result(#[trigger] register_all(paths, reqs.take(i)), reqs[i].0)
                == Ok::<(), DaemonError>(()),
        forall|i: int|
            0 <= i < reqs.len() ==> register_all(paths, reqs).contains_key(#[trigger] reqs[i].0)
                && register_all(paths, reqs)[reqs[i].0] == reqs[i].1,
        forall|k: usize| paths.contains_key(k) ==> #[trigger] register_all(paths, reqs).contains_key(k)
            && register_all(paths, reqs)[k] == paths[k],
        forall|k: usize| #[trigger] register_all(paths, reqs).contains_key(k) ==> paths.contains_key(k)
            || exists|j: int| 0 <= j < reqs.len() && #[trigger] reqs[j].0 == k,
    decreases reqs.len(),
{
    assert forall|k: usize| #[trigger] register_all(paths, reqs).contains_key(k) implies paths.contains_key(k)
        || exists|j: int| 0 <= j < reqs.len() && #[trigger] reqs[j].0 == k by {
        lemma_register_all_keys(paths, reqs, k);
    }
    if reqs.len() > 0 {
        let init = reqs.drop_last();
        lemma_register_distinct(paths, init);
        let n = reqs.len() - 1;
        assert(!register_all(paths, init).contains_key(reqs[n].0)) by {
            if register_all(paths, init).contains_key(reqs[n].0) {
                lemma_register_all_keys(paths, init, reqs[n].0);
                assert forall|j: int| 0 <= j < init.len() implies init[j].0 != reqs[n].0 by {
                    assert(init[j] == reqs[j]);
                }
            }
        }
        assert forall|i: int| 0 <= i < reqs.len() implies register_result(
            #[trigger] register_all(paths, reqs.take(i)),
            reqs[i].0,
        ) == Ok::<(), DaemonError>(()) by {
            if i < n {
                assert(init.take(i) =~= reqs.take(i));
                assert(init[i] == reqs[i]);
            } else {
                assert(reqs.take(i) =~= init);
                assert forall|j: int| 0 <= j < init.len() implies init[j].0 != reqs[i].0 by {
                    assert(init[j] == reqs[j]);
                }
                assert(!register_all(paths, init).contains_key(reqs[i].0)) by {
                    if register_all(paths, init).contains_key(reqs[i].0) {
                        lemma_register_all_keys(paths, init, reqs[i].0);
                    }
                }
            }
        }
        assert forall|i: int| 0 <= i < reqs.len() implies register_all(paths, reqs).contains_key(
            #[trigger] reqs[i].0,
        ) && register_all(paths, reqs)[reqs[i].0] == reqs[i].1 by {
            if i < n {
                assert(init[i] == reqs[i]);
            }
        }
    }
}

/// A VM id registered by `register_all` was registered before, or is the
/// VM id of one of the requests.
proof fn lemma_register_all_keys(paths: PathsView, reqs: Seq<(usize, Seq<char>)>, k: usize)
    requires
        register_all(paths, reqs).contains_key(k),
    ensures
        paths.contains_key(k) || exists|j: int| 0 <= j < reqs.len() && #[trigger] reqs[j].0 == k,
    decreases reqs.len(),
{
    if reqs.len() > 0 {
        let init = reqs.drop_last();
        if register_all(paths, init).contains_key(k) {
            lemma_register_all_keys(paths, init, k);
            if !paths.contains_key(k) {
                let j = choose|j: int| 0 <= j < init.len() && #[trigger] init[j].0 == k;
                assert(reqs[j] == init[j]);
            }
        } else {
            assert(reqs[reqs.len() - 1].0 == k);
        }
    }
}

/// What the daemon does next with a request.
pub enum RequestStep {
    /// The request is complete with this outcome.
    Done(Result<(), DaemonError>),
    /// The disk image of VM `vmid` at `path` must be opened, then handed to
    /// `VMM::setup_vm`.
    OpenDisk { vmid: usize, path: String },
}

/// The daemon's VM registry and the block backends it owns.
pub struct VMM<F> {
    vm_disk_image_paths: BTreeMap<usize, String>,
    vdevs: EmulatedBlockBackends<F>,
}

impl<F> VMM<F> {
    /// The disk image path of each registered VM.
    pub closed spec fn paths(&self) -> PathsView {
        Map::new(
            |k: usize| self.vm_disk_image_paths@.contains_key(k),
            |k: usize| self.vm_disk_image_paths@[k]@,
        )
    }

    /// The block backend of each booted VM.
    pub closed spec fn backends(&self) -> Map<usize, EmulatedBlock<F>> {
        self.vdevs.view()
    }

    /// Every booted VM is registered, and its backend's drive file is the
    /// registered disk image.
    pub closed spec fn wf(&self) -> bool {
        &&& self.vdevs.wf()
        &&& forall|k: usize| #[trigger] self.vdevs.view().contains_key(k) ==> self.paths().contains_key(k)
            && self.vdevs.view()[k].path() == self.paths()[k]
    }

    /// Every booted VM is registered.
    pub proof fn lemma_booted_registered(&self)
        requires
            self.wf(),
        ensures
            forall|k: usize| #[trigger] self.backends().contains_key(k) ==> self.paths().contains_key(k),
    {
    }

    /// An empty registry.
    pub fn new() -> (r: Self)
        ensures
            r.wf(),
            r.paths() == PathsView::empty(),
            r.backends() == Map::<usize, EmulatedBlock<F>>::empty(),
    {
        let r = VMM { vm_disk_image_paths: BTreeMap::new(), vdevs: EmulatedBlockBackends::new() };
        assert(r.paths() =~= PathsView::empty());
        r
    }

    /// Registers VM `vmid` with the disk image at `image_path`. Fails with
    /// `AlreadyRegistered`, changing nothing, when `vmid` is registered.
    pub fn add_vm_disk_images(&mut self, vmid: usize, image_path: String) -> (r: Result<(), DaemonError>)
        requires
            old(self).wf(),
        ensures
            final(self).wf(),
            r == register_result(old(self).paths(), vmid),
            final(self).paths() == after_register(old(self).paths(), vmid, image_path@),
            final(self).backends() == old(self).backends(),
    {
        broadcast use vstd::laws_cmp::group_laws_cmp;
        if self.vm_disk_image_paths.contains_key(&vmid) {
            return Err(DaemonError::AlreadyRegistered);
        }
        let ghost path = image_path@;
        self.vm_disk_image_paths.insert(vmid, image_path);
        assert(self.paths() =~= old(self).paths().insert(vmid, path));
        Ok(())
    }

    /// The disk image path of VM `vmid`, if it is registered.
    pub fn get_vm_disk_image(&self, vmid: usize) -> (r: Option<String>)
        ensures
            r matches Some(p) ==> self.paths().contains_key(vmid) && p@ == self.paths()[vmid],
            r is None ==> !self.paths().contains_key(vmid),
    {
        broadcast use vstd::laws_cmp::group_laws_cmp;
        match self.vm_disk_image_paths.get(&vmid) {
            Some(p) => Some(p.clone()),
            None => None,
        }
    }

    /// Whether VM `vmid` has a block backend.
    pub fn is_booted(&self, vmid: usize) -> (r: bool)
        requires
            self.wf(),
        ensures
            r == self.backends().contains_key(vmid),
    {
        self.vdevs.contains(vmid)
    }

    /// Handles a request as far as no outside work is needed: a registration
    /// completes here; a boot either is refused here or asks for its disk
    /// image to be opened.
    pub fn handle_daemon_request(&mut self, request: DaemonRequest) -> (r: RequestStep)
        requires
            old(self).wf(),
        ensures
            final(self).wf(),
            final(self).backends() == old(self).backends(),
            match request {
                DaemonRequest::RegisterVM { vmid, disk_image_path } => {
                    &&& r == RequestStep::Done(register_result(old(self).paths(), vmid))
                    &&& final(self).paths() == after_register(old(self).paths(), vmid, disk_image_path@)
                },
                DaemonRequest::BootVM { vmid } => {
                    &&& final(self).paths() == old(self).paths()
                    &&& match boot_refusal(old(self).paths(), old(self).backends().dom(), vmid) {
                        Some(e) => r == RequestStep::Done(Err(e)),
                        None => r matches RequestStep::OpenDisk { vmid: v, path: p }
                            && v == vmid && p@ == old(self).paths()[vmid],
                    }
                },
            },
    {
        match request {
            DaemonRequest::RegisterVM { vmid, disk_image_path } => {
                RequestStep::Done(self.add_vm_disk_images(vmid, disk_image_path))
            },
            DaemonRequest::BootVM { vmid } => {
                let path = match self.get_vm_disk_image(vmid) {
                    Some(p) => p,
                    None => return RequestStep::Done(Err(DaemonError::NotRegistered)),
                };
                if self.is_booted(vmid) {
                    return RequestStep::Done(Err(DaemonError::BackendAlreadyExists));
                }
                RequestStep::OpenDisk { vmid, path }
            },
        }
    }

    /// Tears VM `vmid` down: drops its block backend, if it has one, which
    /// unmaps its cache and closes its drive file, then its registration.
    pub fn remove_vm(&mut self, vmid: usize) -> (r: Result<(), DaemonError>)
        requires
            old(self).wf(),
        ensures
            final(self).wf(),
            !old(self).paths().contains_key(vmid) ==> r == Err::<(), DaemonError>(DaemonError::NotRegistered)
                && final(self).paths() == old(self).paths() && final(self).backends() == old(self).backends(),
            old(self).paths().contains_key(vmid) ==> r is Ok && final(self).paths() == old(self).paths().remove(vmid)
                && final(self).backends() == old(self).backends().remove(vmid),
    {
        broadcast use vstd::laws_cmp::group_laws_cmp;
        if !self.vm_disk_image_paths.contains_key(&vmid) {
            return Err(DaemonError::NotRegistered);
        }
        if self.vdevs.contains(vmid) {
            let _ = self.vdevs.remove_emulated_block(vmid);
        } else {
            assert(self.vdevs.view().remove(vmid) =~= self.vdevs.view());
        }
        self.vm_disk_image_paths.remove(&vmid);
        assert(self.paths() =~= old(self).paths().remove(vmid));
        Ok(())
    }

    /// Boots VM `vmid`: sets up its block backend on its disk image, opened
    /// as `disk` (the file and its size in bytes, or why it could not be
    /// opened); `pid` is this process. Refused, changing nothing, when `vmid`
    /// is not registered or already has a backend.
    pub fn setup_vm(&mut self, vmid: usize, disk: Result<(F, u64), DaemonError>, pid: u64) -> (r: Result<(), DaemonError>)
        requires
            old(self).wf(),
        ensures
            final(self).wf(),
            final(self).paths() == old(self).paths(),
            !old(self).paths().contains_key(vmid) ==> r == Err::<(), DaemonError>(DaemonError::NotRegistered),
            boot_refusal(old(self).paths(), old(self).backends().dom(), vmid) matches Some(e)
                ==> r == Err::<(), DaemonError>(e),
            boot_refusal(old(self).paths(), old(self).backends().dom(), vmid) is None ==> match disk {
                Err(e) => r == Err::<(), DaemonError>(e),
                Ok(_) => r is Ok || r == Err::<(), DaemonError>(DaemonError::BadState)
                    || r == Err::<(), DaemonError>(DaemonError::PermissionDenied),
            },
            r is Err ==> final(self).backends() == old(self).backends(),
            r is Ok ==> boot_refusal(old(self).paths(), old(self).backends().dom(), vmid) is None
                && disk is Ok && exists|b: EmulatedBlock<F>|
                final(self).backends() == old(self).backends().insert(vmid, b)
                    && fresh_config(b.config(), vmid, disk->Ok_0.1) && b.path() == old(self).paths()[vmid],
    {
        let path = match self.get_vm_disk_image(vmid) {
            Some(p) => p,
            None => return Err(DaemonError::NotRegistered),
        };
        if self.is_booted(vmid) {
            return Err(DaemonError::BackendAlreadyExists);
        }
        let (file, size) = match disk {
            Ok(d) => d,
            Err(e) => return Err(e),
        };
        let r = self.vdevs.setup_emulated_block(vmid, path, file, size, pid);
        assert forall|k: usize| #[trigger] self.vdevs.view().contains_key(k) implies self.paths().contains_key(k)
            && self.vdevs.view()[k].path() == self.paths()[k] by {
            if k != vmid {
                assert(old(self).vdevs.view().contains_key(k));
            }
        }
        r
    }
}

} // verus!
