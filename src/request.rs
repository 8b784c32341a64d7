use vstd::prelude::*;

use crate::error::{error_text, DaemonError};

verus! {

/// The TCP port the daemon listens on unless told otherwise.
pub const ARCEOS_DAEMON_PORT_DEFAULT: u16 = 2334;

/// A request from the command-line client to the daemon.
#[derive(Debug, Clone, PartialEq, Eq)]
pub enum DaemonRequest {
    /// Record the disk image path of a freshly created VM.
    RegisterVM { vmid: usize, disk_image_path: String },
    /// Set up the emulated devices of a registered VM so that it can boot.
    BootVM { vmid: usize },
}

/// The daemon's answer to one request.
#[derive(Debug, PartialEq, Eq)]
pub enum DaemonReply {
    Result(Result<(), String>),
    Empty,
}

/// The reply that carries the outcome `r` of a request.
pub open spec fn reply_spec(r: Result<(), DaemonError>) -> (Result<(), Seq<char>>) {
    match r {
        Ok(()) => Ok(()),
        Err(e) => Err(error_text(e)),
    }
}

/// The outcome carried by a reply, with its text viewed as characters.
pub open spec fn reply_view(reply: DaemonReply) -> Option<Result<(), Seq<char>>> {
    match reply {
        DaemonReply::Result(Ok(())) => Some(Ok(())),
        DaemonReply::Result(Err(s)) => Some(Err(s@)),
        DaemonReply::Empty => None,
    }
}

impl Clone for DaemonReply {
    fn clone(&self) -> (r: DaemonReply)
        ensures
            reply_view(r) == reply_view(*self),
    {
        match self {
            DaemonReply::Result(Ok(())) => DaemonReply::Result(Ok(())),
            DaemonReply::Result(Err(s)) => DaemonReply::Result(Err(s.clone())),
            DaemonReply::Empty => DaemonReply::Empty,
        }
    }
}

impl DaemonReply {
    /// Wraps the outcome of a request into the reply sent to the client.
    pub fn from_outcome(result: Result<(), DaemonError>) -> (reply: DaemonReply)
        ensures
            reply_view(reply) == Some(reply_spec(result)),
    {
        match result {
            Ok(()) => DaemonReply::Result(Ok(())),
            Err(e) => DaemonReply::Result(Err(e.message())),
        }
    }
}

} // verus!
