//! The decisions of the daemon's event engine, of its connection handlers and
//! of its interrupt handler. The engine serves events one at a time; each
//! call here is one such step, and the caller performs the action returned.
use vstd::prelude::*;

use crate::error::DaemonError;
use crate::request::{reply_spec, reply_view, DaemonReply, DaemonRequest};
use crate::vdev::{fresh_config, EmulatedBlock};
use crate::vmm::{after_register, boot_refusal, register_result, PathsView, RequestStep, VMM};

verus! {

/// A VM-management request together with the single-use slot its reply goes to.
pub struct VMMEventWrapper<T> {
    pub request: DaemonRequest,
    pub reply_tx: T,
}

/// An event for the engine.
pub enum Event<T> {
    /// A request from a client connection.
    VMM(VMMEventWrapper<T>),
    /// The process was asked to terminate.
    CtrlC,
}

/// What the engine asks its caller to do after one event.
pub enum EngineAction<T> {
    /// Send `reply` through `reply_tx`.
    Reply { reply_tx: T, reply: DaemonReply },
    /// Open the disk image of VM `vmid` at `path`, hand it to
    /// `Daemon::finish_boot`, and send the reply that returns through `reply_tx`.
    OpenDisk { reply_tx: T, vmid: usize, path: String },
    /// Stop accepting connections, serve the requests already queued, then exit.
    Drain,
}

/// How the engine serves a client's request `w`, from a registry with these
/// paths and booted VMs, by action `r`, leaving the paths `new_paths`: a
/// registration is answered at once; a boot is refused at once or asks for
/// the registered disk image; the reply always goes to the request's slot.
pub open spec fn serves_request<T>(
    paths: PathsView,
    booted: Set<usize>,
    w: VMMEventWrapper<T>,
    r: EngineAction<T>,
    new_paths: PathsView,
) -> bool {
    match w.request {
        DaemonRequest::RegisterVM { vmid, disk_image_path } => {
            &&& new_paths == after_register(paths, vmid, disk_image_path@)
            &&& r matches EngineAction::Reply { reply_tx, reply }
            &&& reply_tx == w.reply_tx
            &&& reply_view(reply) == Some(reply_spec(register_result(paths, vmid)))
        },
        DaemonRequest::BootVM { vmid } => {
            &&& new_paths == paths
            &&& match boot_refusal(paths, booted, vmid) {
                Some(e) => r matches EngineAction::Reply { reply_tx, reply } && reply_tx == w.reply_tx
                    && reply_view(reply) == Some(reply_spec(Err(e))),
                None => r matches EngineAction::OpenDisk { reply_tx, vmid: v, path }
                    && reply_tx == w.reply_tx && v == vmid && path@ == paths[vmid],
            }
        },
    }
}

/// The state owned by the engine: the VM registry, and whether a
/// termination has begun.
pub struct Daemon<F> {
    vmm: VMM<F>,
    draining: bool,
}

impl<F> Daemon<F> {
    /// The registry's disk image paths.
    pub closed spec fn paths(&self) -> PathsView {
        self.vmm.paths()
    }

    /// The registry's block backends.
    pub closed spec fn backends(&self) -> Map<usize, EmulatedBlock<F>> {
        self.vmm.backends()
    }

    /// Whether a termination has begun.
    pub closed spec fn draining_spec(&self) -> bool {
        self.draining
    }

    pub closed spec fn wf(&self) -> bool {
        self.vmm.wf()
    }

    /// Every booted VM is registered.
    pub proof fn lemma_booted_registered(&self)
        requires
            self.wf(),
        ensures
            forall|k: usize| #[trigger] self.backends().contains_key(k) ==> self.paths().contains_key(k),
    {
        self.vmm.lemma_booted_registered();
    }

    /// A daemon with an empty registry.
    pub fn init() -> (r: Self)
        ensures
            r.wf(),
            r.paths() == PathsView::empty(),
            r.backends() == Map::<usize, EmulatedBlock<F>>::empty(),
            !r.draining_spec(),
    {
        Daemon { vmm: VMM::new(), draining: false }
    }

    /// Whether a termination has begun.
    pub fn is_draining(&self) -> (r: bool)
        ensures
            r == self.draining_spec(),
    {
        self.draining
    }

    /// Serves one event. A registration is answered at once; a boot is
    /// refused at once or asks for its disk image; a termination request
    /// begins the drain.
    pub fn handle_event<T>(&mut self, event: Event<T>) -> (r: EngineAction<T>)
        requires
            old(self).wf(),
        ensures
            final(self).wf(),
            final(self).backends() == old(self).backends(),
            match event {
                Event::CtrlC => r is Drain && final(self).draining_spec()
                    && final(self).paths() == old(self).paths(),
                Event::VMM(w) => final(self).draining_spec() == old(self).draining_spec()
                    && serves_request(old(self).paths(), old(self).backends().dom(), w, r, final(self).paths()),
            },
    {
        match event {
            Event::CtrlC => {
                self.draining = true;
                EngineAction::Drain
            },
            Event::VMM(w) => self.handle_vmm_event(w),
        }
    }

    /// Serves one request of a client.
    fn handle_vmm_event<T>(&mut self, event: VMMEventWrapper<T>) -> (r: EngineAction<T>)
        requires
            old(self).wf(),
        ensures
            final(self).wf(),
            final(self).backends() == old(self).backends(),
            final(self).draining_spec() == old(self).draining_spec(),
            serves_request(old(self).paths(), old(self).backends().dom(), event, r, final(self).paths()),
    {
        let VMMEventWrapper { request, reply_tx } = event;
        match self.vmm.handle_daemon_request(request) {
            RequestStep::Done(result) => {
                EngineAction::Reply { reply_tx, reply: DaemonReply::from_outcome(result) }
            },
            RequestStep::OpenDisk { vmid, path } => EngineAction::OpenDisk { reply_tx, vmid, path },
        }
    }

    /// Completes the boot of VM `vmid` once its disk image was opened as
    /// `disk` (or could not be); `pid` is this process. Returns the reply.
    pub fn finish_boot(&mut self, vmid: usize, disk: Result<(F, u64), DaemonError>, pid: u64) -> (r: DaemonReply)
        requires
            old(self).wf(),
        ensures
            final(self).wf(),
            final(self).paths() == old(self).paths(),
            final(self).draining_spec() == old(self).draining_spec(),
            boot_refusal(old(self).paths(), old(self).backends().dom(), vmid) matches Some(e)
                ==> reply_view(r) == Some(reply_spec(Err(e))) && final(self).backends() == old(self).backends(),
            boot_refusal(old(self).paths(), old(self).backends().dom(), vmid) is None && disk is Err
                ==> reply_view(r) == Some(reply_spec(Err(disk->Err_0)))
                    && final(self).backends() == old(self).backends(),
            boot_refusal(old(self).paths(), old(self).backends().dom(), vmid) is None && disk is Ok
                ==> reply_view(r) == Some(reply_spec(Ok(())))
                    || reply_view(r) == Some(reply_spec(Err(DaemonError::BadState)))
                    || reply_view(r) == Some(reply_spec(Err(DaemonError::PermissionDenied))),
            reply_view(r) == Some(reply_spec(Ok(()))) ==> disk is Ok && exists|b: EmulatedBlock<F>|
                final(self).backends() == old(self).backends().insert(vmid, b)
                    && fresh_config(b.config(), vmid, disk->Ok_0.1) && b.path() == old(self).paths()[vmid],
            reply_view(r) != Some(reply_spec(Ok(()))) ==> final(self).backends() == old(self).backends(),
    {
        let result = self.vmm.setup_vm(vmid, disk, pid);
        proof {
            if result is Err {
                assert(reply_spec(result) != reply_spec(Ok(())));
            }
        }
        DaemonReply::from_outcome(result)
    }
}

/// What the interrupt handler does with a termination signal.
#[derive(Debug, Clone, Copy, PartialEq, Eq, Structural)]
pub enum SignalAction {
    /// Report a termination request to the engine.
    Notify,
    /// A termination is already under way: abort at once, without cleanup.
    Abort,
}

/// Whether a termination request was already reported.
pub struct CtrlcState {
    sent: bool,
}

impl CtrlcState {
    pub closed spec fn sent_spec(&self) -> bool {
        self.sent
    }

    pub fn new() -> (r: Self)
        ensures
            !r.sent_spec(),
    {
        CtrlcState { sent: false }
    }

    /// Decides what a termination signal leads to: the first is reported,
    /// any later one aborts.
    pub fn on_signal(&mut self) -> (r: SignalAction)
        ensures
            final(self).sent_spec(),
            r == (if old(self).sent_spec() { SignalAction::Abort } else { SignalAction::Notify }),
    {
        if self.sent {
            SignalAction::Abort
        } else {
            self.sent = true;
            SignalAction::Notify
        }
    }
}

/// What happened at one step of a client connection.
#[derive(Debug, Clone, Copy, PartialEq, Eq, Structural)]
pub enum ConnectionEvent {
    /// The peer closed the stream before a new message began.
    Closed,
    /// A message arrived but is not a request.
    Undecodable,
    /// Receiving failed with an I/O error, or the stream ended inside a message.
    ReceiveFailed,
    /// The engine's queue no longer accepts requests.
    QueueClosed,
    /// The engine dropped the reply slot without replying.
    ReplyDropped,
    /// The reply was sent.
    ReplySent,
    /// Sending the reply failed.
    SendFailed,
}

/// Where a client connection goes next.
#[derive(Debug, Clone, Copy, PartialEq, Eq, Structural)]
pub enum ConnectionStep {
    /// Wait for the next request.
    AwaitRequest,
    /// Close the connection.
    Close,
}

/// A connection survives only a dropped reply slot and a sent reply.
pub open spec fn connection_next(event: ConnectionEvent) -> ConnectionStep {
    match event {
        ConnectionEvent::ReplyDropped | ConnectionEvent::ReplySent => ConnectionStep::AwaitRequest,
        _ => ConnectionStep::Close,
    }
}

/// Decides where a client connection goes after `event`.
pub fn connection_step(event: ConnectionEvent) -> (r: ConnectionStep)
    ensures
        r == connection_next(event),
{
    match event {
        ConnectionEvent::ReplyDropped => ConnectionStep::AwaitRequest,
        ConnectionEvent::ReplySent => ConnectionStep::AwaitRequest,
        _ => ConnectionStep::Close,
    }
}

} // verus!
