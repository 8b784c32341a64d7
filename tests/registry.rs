use axdaemon::error::DaemonError;
use axdaemon::request::DaemonRequest;
use axdaemon::vmm::{RequestStep, VMM};

fn register(vmid: usize, path: &str) -> DaemonRequest {
    DaemonRequest::RegisterVM { vmid, disk_image_path: path.to_string() }
}

#[test]
fn second_registration_is_refused() {
    let mut vmm: VMM<()> = VMM::new();
    assert_eq!(vmm.add_vm_disk_images(1, "/img/a".to_string()), Ok(()));
    assert_eq!(vmm.add_vm_disk_images(1, "/img/b".to_string()), Err(DaemonError::AlreadyRegistered));
    assert_eq!(vmm.get_vm_disk_image(1), Some("/img/a".to_string()));
}

#[test]
fn unknown_vm_has_no_disk_image() {
    let vmm: VMM<()> = VMM::new();
    assert_eq!(vmm.get_vm_disk_image(4), None);
}

#[test]
fn boot_of_unregistered_vm_is_refused() {
    let mut vmm: VMM<()> = VMM::new();
    let step = vmm.handle_daemon_request(DaemonRequest::BootVM { vmid: 2 });
    assert!(matches!(step, RequestStep::Done(Err(DaemonError::NotRegistered))));
    assert_eq!(vmm.setup_vm(2, Ok(((), 512)), 1), Err(DaemonError::NotRegistered));
    assert!(!vmm.is_booted(2));
}

#[test]
fn registration_request_completes_at_once() {
    let mut vmm: VMM<()> = VMM::new();
    let step = vmm.handle_daemon_request(register(3, "/img/c"));
    assert!(matches!(step, RequestStep::Done(Ok(()))));
    let step = vmm.handle_daemon_request(register(3, "/img/d"));
    assert!(matches!(step, RequestStep::Done(Err(DaemonError::AlreadyRegistered))));
    assert_eq!(vmm.get_vm_disk_image(3), Some("/img/c".to_string()));
}

#[test]
fn boot_after_register_asks_for_disk_image() {
    let mut vmm: VMM<()> = VMM::new();
    assert_eq!(vmm.add_vm_disk_images(5, "/img/e".to_string()), Ok(()));
    match vmm.handle_daemon_request(DaemonRequest::BootVM { vmid: 5 }) {
        RequestStep::OpenDisk { vmid, path } => {
            assert_eq!(vmid, 5);
            assert_eq!(path, "/img/e");
        }
        RequestStep::Done(_) => panic!("boot of a registered VM must ask for its disk image"),
    }
    assert!(!vmm.is_booted(5));
}

#[test]
fn disk_open_failure_is_reported() {
    let mut vmm: VMM<()> = VMM::new();
    assert_eq!(vmm.add_vm_disk_images(6, "/img/f".to_string()), Ok(()));
    assert_eq!(vmm.setup_vm(6, Err(DaemonError::InvalidInput), 1), Err(DaemonError::InvalidInput));
    assert!(!vmm.is_booted(6));
}

#[test]
fn distinct_registrations_all_succeed() {
    let mut vmm: VMM<()> = VMM::new();
    for vmid in [9usize, 2, 40, 7, 13] {
        assert_eq!(vmm.add_vm_disk_images(vmid, format!("/img/{vmid}")), Ok(()));
    }
    for vmid in [2usize, 7, 9, 13, 40] {
        assert_eq!(vmm.get_vm_disk_image(vmid), Some(format!("/img/{vmid}")));
    }
}

#[test]
fn teardown_forgets_the_vm() {
    let mut vmm: VMM<()> = VMM::new();
    assert_eq!(vmm.remove_vm(1), Err(DaemonError::NotRegistered));
    assert_eq!(vmm.add_vm_disk_images(1, "/img/a".to_string()), Ok(()));
    assert_eq!(vmm.remove_vm(1), Ok(()));
    assert_eq!(vmm.get_vm_disk_image(1), None);
    assert_eq!(vmm.add_vm_disk_images(1, "/img/b".to_string()), Ok(()));
    assert_eq!(vmm.get_vm_disk_image(1), Some("/img/b".to_string()));
}
