//! The command-line client's side of the protocol: the requests it sends and
//! how it reads the daemon's answer.
use vstd::prelude::*;

use crate::request::{DaemonReply, DaemonRequest};

verus! {

/// Why a request to the daemon did not succeed.
#[derive(Debug, Clone, PartialEq, Eq)]
pub enum ClientError {
    /// The daemon closed the connection without replying.
    Disconnected,
    /// The daemon refused the request, with this explanation.
    Rejected(String),
}

/// The request that registers VM `vmid` with the disk image at
/// `disk_image_path`.
pub fn register_vm_to_daemon(vmid: usize, disk_image_path: String) -> (r: DaemonRequest)
    ensures
        r matches DaemonRequest::RegisterVM { vmid: v, disk_image_path: p } && v == vmid && p@
            == disk_image_path@,
{
    DaemonRequest::RegisterVM { vmid, disk_image_path }
}

/// The request that sets up VM `vmid`'s emulated devices before it boots.
pub fn setup_vm_on_daemon(vmid: usize) -> (r: DaemonRequest)
    ensures
        r == (DaemonRequest::BootVM { vmid }),
{
    DaemonRequest::BootVM { vmid }
}

/// What the client makes of the daemon's answer, `None` when the daemon
/// closed the connection first. An empty reply carries no failure.
pub fn reply_outcome(reply: Option<DaemonReply>) -> (r: Result<(), ClientError>)
    ensures
        reply is None ==> r == Err::<(), ClientError>(ClientError::Disconnected),
        reply matches Some(DaemonReply::Result(Err(msg))) ==> r matches Err(ClientError::Rejected(m))
            && m@ == msg@,
        reply matches Some(DaemonReply::Result(Ok(()))) ==> r is Ok,
        reply matches Some(DaemonReply::Empty) ==> r is Ok,
{
    match reply {
        None => Err(ClientError::Disconnected),
        Some(DaemonReply::Result(Ok(()))) => Ok(()),
        Some(DaemonReply::Result(Err(msg))) => Err(ClientError::Rejected(msg)),
        Some(DaemonReply::Empty) => Ok(()),
    }
}

} // verus!
