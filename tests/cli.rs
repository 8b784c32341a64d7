use axdaemon::cli::{UserBuffer, VmCreateIoctlArg, VM_BOOT_IOCTL_NR, VM_CREATE_IOCTL_NR, VM_SHUTDOWN_IOCTL_NR};

#[test]
fn create_argument_without_ramdisk() {
    let buf = |addr, len| UserBuffer { addr, len };
    let arg = VmCreateIoctlArg::new(0x10, 3, buf(0x100, 10), buf(0x200, 20), None, buf(0x300, 30));
    assert_eq!(arg.ramdisk_img_ptr, 0);
    assert_eq!(arg.ramdisk_img_size, 0);
    assert_eq!((arg.bios_img_ptr, arg.bios_img_size), (0x100, 10));
    assert_eq!((arg.kernel_img_ptr, arg.kernel_img_size), (0x200, 20));
    assert_eq!((arg.raw_cfg_file_ptr, arg.raw_cfg_file_size), (0x300, 30));
    assert_eq!((arg.id_ptr, arg.cpu_set), (0x10, 3));
}

#[test]
fn create_argument_with_ramdisk() {
    let buf = |addr, len| UserBuffer { addr, len };
    let arg = VmCreateIoctlArg::new(0x10, 1, buf(1, 1), buf(2, 2), Some(buf(0x400, 40)), buf(3, 3));
    assert_eq!((arg.ramdisk_img_ptr, arg.ramdisk_img_size), (0x400, 40));
}

#[test]
fn driver_command_numbers() {
    assert_eq!((VM_CREATE_IOCTL_NR, VM_BOOT_IOCTL_NR, VM_SHUTDOWN_IOCTL_NR), (6, 7, 8));
}
