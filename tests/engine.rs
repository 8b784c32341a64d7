use axdaemon::client::{register_vm_to_daemon, reply_outcome, setup_vm_on_daemon, ClientError};
use axdaemon::engine::{
    connection_step, ConnectionEvent, ConnectionStep, CtrlcState, Daemon, EngineAction, Event,
    SignalAction, VMMEventWrapper,
};
use axdaemon::error::DaemonError;
use axdaemon::request::{DaemonReply, DaemonRequest, ARCEOS_DAEMON_PORT_DEFAULT};

fn event(request: DaemonRequest, slot: u32) -> Event<u32> {
    Event::VMM(VMMEventWrapper { request, reply_tx: slot })
}

fn reply_of(action: EngineAction<u32>, slot: u32) -> DaemonReply {
    match action {
        EngineAction::Reply { reply_tx, reply } => {
            assert_eq!(reply_tx, slot);
            reply
        }
        EngineAction::OpenDisk { .. } => panic!("expected a reply, got a disk request"),
        EngineAction::Drain => panic!("expected a reply, got a drain"),
    }
}

#[test]
fn register_then_register_again_over_engine() {
    let mut d: Daemon<()> = Daemon::init();
    let r = reply_of(d.handle_event(event(register_vm_to_daemon(7, "/tmp/disk.img".to_string()), 1)), 1);
    assert_eq!(r, DaemonReply::Result(Ok(())));
    let r = reply_of(d.handle_event(event(register_vm_to_daemon(7, "/tmp/other.img".to_string()), 2)), 2);
    assert_eq!(r, DaemonReply::Result(Err("VM has already been registered".to_string())));
}

#[test]
fn boot_of_unregistered_vm_replies_not_registered() {
    let mut d: Daemon<()> = Daemon::init();
    match reply_of(d.handle_event(event(setup_vm_on_daemon(99), 4)), 4) {
        DaemonReply::Result(Err(msg)) => assert!(msg.contains("not registered")),
        other => panic!("unexpected reply {other:?}"),
    }
}

#[test]
fn register_then_boot_scenario() {
    let mut d: Daemon<()> = Daemon::init();
    let r = reply_of(d.handle_event(event(register_vm_to_daemon(7, "/tmp/disk.img".to_string()), 1)), 1);
    assert_eq!(r, DaemonReply::Result(Ok(())));
    match d.handle_event(event(setup_vm_on_daemon(7), 2)) {
        EngineAction::OpenDisk { reply_tx, vmid, path } => {
            assert_eq!((reply_tx, vmid), (2, 7));
            assert_eq!(path, "/tmp/disk.img");
        }
        _ => panic!("boot of a registered VM must ask for its disk image"),
    }
    // No process has id 0, so the cache's physical address cannot be resolved.
    let first = d.finish_boot(7, Ok(((), 1000)), 0);
    assert_eq!(
        first,
        DaemonReply::Result(Err("bad state: cache or page table cannot be used".to_string()))
    );
    // The failed boot left no backend behind: booting again is not refused.
    assert!(matches!(
        d.handle_event(event(setup_vm_on_daemon(7), 3)),
        EngineAction::OpenDisk { reply_tx: 3, vmid: 7, .. }
    ));
}

#[test]
fn register_boot_boot_again_scenario() {
    let pid = rustix::process::Pid::as_raw(Some(rustix::process::getpid())) as u64;
    let mut d: Daemon<()> = Daemon::init();
    let r = reply_of(d.handle_event(event(register_vm_to_daemon(7, "/tmp/disk.img".to_string()), 1)), 1);
    assert_eq!(r, DaemonReply::Result(Ok(())));
    assert!(matches!(d.handle_event(event(setup_vm_on_daemon(7), 2)), EngineAction::OpenDisk { vmid: 7, .. }));
    match d.finish_boot(7, Ok(((), 4096)), pid) {
        DaemonReply::Result(Ok(())) => {
            let again = reply_of(d.handle_event(event(setup_vm_on_daemon(7), 3)), 3);
            assert_eq!(
                again,
                DaemonReply::Result(Err("emulated block backend already exists for VM".to_string()))
            );
        }
        other => assert_eq!(
            other,
            DaemonReply::Result(Err(
                "permission denied: run the daemon with privileges to read physical frame numbers"
                    .to_string()
            ))
        ),
    }
}

#[test]
fn failed_disk_open_replies_error() {
    let mut d: Daemon<()> = Daemon::init();
    let _ = reply_of(d.handle_event(event(register_vm_to_daemon(8, "/nope".to_string()), 1)), 1);
    let r = d.finish_boot(8, Err(DaemonError::InvalidInput), 1);
    assert_eq!(r, DaemonReply::Result(Err("invalid input: failed to open the disk image".to_string())));
}

#[test]
fn ctrlc_begins_drain() {
    let mut d: Daemon<()> = Daemon::init();
    assert!(!d.is_draining());
    assert!(matches!(d.handle_event::<u32>(Event::CtrlC), EngineAction::Drain));
    assert!(d.is_draining());
}

#[test]
fn second_signal_aborts() {
    let mut s = CtrlcState::new();
    assert_eq!(s.on_signal(), SignalAction::Notify);
    assert_eq!(s.on_signal(), SignalAction::Abort);
    assert_eq!(s.on_signal(), SignalAction::Abort);
}

#[test]
fn connection_survives_only_replies() {
    assert_eq!(connection_step(ConnectionEvent::ReplySent), ConnectionStep::AwaitRequest);
    assert_eq!(connection_step(ConnectionEvent::ReplyDropped), ConnectionStep::AwaitRequest);
    for e in [
        ConnectionEvent::Closed,
        ConnectionEvent::Undecodable,
        ConnectionEvent::ReceiveFailed,
        ConnectionEvent::QueueClosed,
        ConnectionEvent::SendFailed,
    ] {
        assert_eq!(connection_step(e), ConnectionStep::Close);
    }
}

#[test]
fn client_reads_replies() {
    assert_eq!(reply_outcome(None), Err(ClientError::Disconnected));
    assert_eq!(reply_outcome(Some(DaemonReply::Result(Ok(())))), Ok(()));
    assert_eq!(reply_outcome(Some(DaemonReply::Empty)), Ok(()));
    assert_eq!(
        reply_outcome(Some(DaemonReply::Result(Err("no".to_string())))),
        Err(ClientError::Rejected("no".to_string()))
    );
}

#[test]
fn client_requests() {
    assert_eq!(
        register_vm_to_daemon(3, "/d".to_string()),
        DaemonRequest::RegisterVM { vmid: 3, disk_image_path: "/d".to_string() }
    );
    assert_eq!(setup_vm_on_daemon(3), DaemonRequest::BootVM { vmid: 3 });
    assert_eq!(ARCEOS_DAEMON_PORT_DEFAULT, 2334);
}

#[test]
fn error_texts() {
    assert_eq!(DaemonError::NotRegistered.message(), "VM is not registered (bad state)");
    assert_eq!(
        DaemonError::PermissionDenied.message(),
        "permission denied: run the daemon with privileges to read physical frame numbers"
    );
    assert_eq!(
        DaemonReply::from_outcome(Err(DaemonError::BadState)),
        DaemonReply::Result(Err("bad state: cache or page table cannot be used".to_string()))
    );
    assert_eq!(DaemonReply::from_outcome(Ok(())), DaemonReply::Result(Ok(())));
}

#[test]
fn registrations_from_many_connections_all_succeed() {
    let mut d: Daemon<()> = Daemon::init();
    let vmids = [11usize, 3, 27, 8];
    for (slot, vmid) in vmids.iter().enumerate() {
        let slot = slot as u32;
        let request = register_vm_to_daemon(*vmid, format!("/img/{vmid}"));
        assert_eq!(reply_of(d.handle_event(event(request, slot)), slot), DaemonReply::Result(Ok(())));
    }
    for (slot, vmid) in vmids.iter().enumerate() {
        let slot = 100 + slot as u32;
        match d.handle_event(event(setup_vm_on_daemon(*vmid), slot)) {
            EngineAction::OpenDisk { reply_tx, vmid: v, path } => {
                assert_eq!((reply_tx, v), (slot, *vmid));
                assert_eq!(path, format!("/img/{vmid}"));
            }
            _ => panic!("each registered VM must be bootable"),
        }
    }
}
