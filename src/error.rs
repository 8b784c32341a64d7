use vstd::prelude::*;

verus! {

/// The kinds of failure a daemon request can end in.
#[derive(Debug, Clone, Copy, PartialEq, Eq, Structural)]
pub enum DaemonError {
    /// The VM id is already registered.
    AlreadyRegistered,
    /// The VM id was never registered.
    NotRegistered,
    /// A block backend already exists for the VM id.
    BackendAlreadyExists,
    /// No block backend exists for the VM id.
    UnknownVm,
    /// A path could not be opened, or an argument is out of range.
    InvalidInput,
    /// The cache or the page table is in a state that cannot be used.
    BadState,
    /// The process lacks the privilege to read real frame numbers.
    PermissionDenied,
    /// A payload could not be decoded.
    InvalidData,
}

/// The human-readable text that a client receives for each error kind.
pub open spec fn error_text(e: DaemonError) -> Seq<char> {
    match e {
        DaemonError::AlreadyRegistered => "VM has already been registered"@,
        DaemonError::NotRegistered => "VM is not registered (bad state)"@,
        DaemonError::BackendAlreadyExists => "emulated block backend already exists for VM"@,
        DaemonError::UnknownVm => "emulated block backend does not exist for VM"@,
        DaemonError::InvalidInput => "invalid input: failed to open the disk image"@,
        DaemonError::BadState => "bad state: cache or page table cannot be used"@,
        DaemonError::PermissionDenied =>
            "permission denied: run the daemon with privileges to read physical frame numbers"@,
        DaemonError::InvalidData => "invalid data: malformed payload"@,
    }
}

impl DaemonError {
    /// The text sent back to the client for this error.
    pub fn message(&self) -> (r: String)
        ensures
            r@ == error_text(*self),
    {
        match self {
            DaemonError::AlreadyRegistered => "VM has already been registered".to_owned(),
            DaemonError::NotRegistered => "VM is not registered (bad state)".to_owned(),
            DaemonError::BackendAlreadyExists =>
                "emulated block backend already exists for VM".to_owned(),
            DaemonError::UnknownVm => "emulated block backend does not exist for VM".to_owned(),
            DaemonError::InvalidInput => "invalid input: failed to open the disk image".to_owned(),
            DaemonError::BadState => "bad state: cache or page table cannot be used".to_owned(),
            DaemonError::PermissionDenied =>
                "permission denied: run the daemon with privileges to read physical frame numbers".to_owned(),
            DaemonError::InvalidData => "invalid data: malformed payload".to_owned(),
        }
    }
}

} // verus!
