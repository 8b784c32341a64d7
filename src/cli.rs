//! The command-line client's arguments, its VM configuration file, and the
//! fixed-layout structures it hands to the hypervisor driver.
use vstd::prelude::*;

verus! {

/// Number of the driver's "create VM" write command.
pub const VM_CREATE_IOCTL_NR: u8 = 6;

/// Number of the driver's "boot VM" write command.
pub const VM_BOOT_IOCTL_NR: u8 = 7;

/// Number of the driver's "shut down VM" write command.
pub const VM_SHUTDOWN_IOCTL_NR: u8 = 8;

/// Number of the driver's "get disk path" read command.
pub const VM_GET_DISK_PATH_IOCTL_NR: u8 = 9;

/// The command line of the client.
pub struct CLI {
    pub subcmd: CLISubCmd,
}

pub enum CLISubCmd {
    /// Subcommands related to the hypervisor itself.
    Hv { subcmd: HvSubCmd },
    /// Subcommands related to the management of guest virtual machines.
    Vm { subcmd: VmSubCmd },
}

pub enum HvSubCmd {
    /// Enable the type-1.5 hypervisor.
    Enable,
    /// Disable the type-1.5 hypervisor.
    Disable,
}

pub enum VmSubCmd {
    /// List the VMs.
    List,
    /// Create a guest VM from a configuration file.
    Create(VmCreateArgs),
    /// Boot a guest VM.
    Boot(VmIdArgs),
    /// Shut down a guest VM.
    Shutdown(VmIdArgs),
}

pub struct VmCreateArgs {
    pub config_path: String,
}

pub struct VmIdArgs {
    pub vmid: u64,
}

/// One guest memory region of a VM configuration.
#[derive(Debug, Clone, Copy, PartialEq, Eq, Structural)]
pub struct VmMemCfg {
    pub gpa: usize,
    pub size: usize,
    pub flags: usize,
}

/// A VM configuration file, as the client reads it.
#[derive(Debug, Clone)]
pub struct VmCreateCliArg {
    pub id: usize,
    pub name: String,
    pub vm_type: usize,
    pub cpu_set: usize,
    pub entry_point: usize,
    pub bios_path: String,
    pub bios_load_addr: usize,
    pub kernel_path: String,
    pub kernel_load_addr: usize,
    pub ramdisk_path: Option<String>,
    pub ramdisk_load_addr: Option<usize>,
    pub disk_path: Option<String>,
    /// Memory information.
    pub memory_regions: Vec<VmMemCfg>,
}

/// An in-memory buffer handed to the driver: its address and its length.
#[derive(Debug, Clone, Copy, PartialEq, Eq, Structural)]
pub struct UserBuffer {
    pub addr: usize,
    pub len: usize,
}

/// The argument of the driver's "create VM" command.
#[derive(Debug, Clone, Copy, PartialEq, Eq, Structural)]
pub struct VmCreateIoctlArg {
    /// VM id pointer.
    pub id_ptr: usize,
    /// VM cpu mask.
    pub cpu_set: usize,
    /// User address of the bios image.
    pub bios_img_ptr: usize,
    /// Size of the bios image.
    pub bios_img_size: usize,
    /// User address of the kernel image.
    pub kernel_img_ptr: usize,
    /// Size of the kernel image.
    pub kernel_img_size: usize,
    /// User address of the ramdisk image (0 when there is none).
    pub ramdisk_img_ptr: usize,
    /// Size of the ramdisk image (0 when there is none).
    pub ramdisk_img_size: usize,
    /// User address of the raw configuration text.
    pub raw_cfg_file_ptr: usize,
    /// Size of the raw configuration text.
    pub raw_cfg_file_size: usize,
}

/// The argument of the driver's "boot VM" command.
#[derive(Debug, Clone, Copy, PartialEq, Eq, Structural)]
pub struct VmBootIoctlArg {
    pub id: usize,
}

/// The argument of the driver's "shut down VM" command.
#[derive(Debug, Clone, Copy, PartialEq, Eq, Structural)]
pub struct VmShutdownIoctlArg {
    pub id: usize,
}

impl VmCreateIoctlArg {
    /// The "create VM" argument for these buffers; a missing ramdisk is
    /// passed as address 0 and size 0.
    pub fn new(id_ptr: usize, cpu_set: usize, bios: UserBuffer, kernel: UserBuffer, ramdisk: Option<UserBuffer>, raw_cfg: UserBuffer) -> (r: Self)
        ensures
            r.id_ptr == id_ptr,
            r.cpu_set == cpu_set,
            r.bios_img_ptr == bios.addr && r.bios_img_size == bios.len,
            r.kernel_img_ptr == kernel.addr && r.kernel_img_size == kernel.len,
            r.raw_cfg_file_ptr == raw_cfg.addr && r.raw_cfg_file_size == raw_cfg.len,
            ramdisk matches Some(rd) ==> r.ramdisk_img_ptr == rd.addr && r.ramdisk_img_size == rd.len,
            ramdisk is None ==> r.ramdisk_img_ptr == 0 && r.ramdisk_img_size == 0,
    {
        let (ramdisk_img_ptr, ramdisk_img_size) = match ramdisk {
            Some(rd) => (rd.addr, rd.len),
            None => (0, 0),
        };
        VmCreateIoctlArg {
            id_ptr,
            cpu_set,
            bios_img_ptr: bios.addr,
            bios_img_size: bios.len,
            kernel_img_ptr: kernel.addr,
            kernel_img_size: kernel.len,
            ramdisk_img_ptr,
            ramdisk_img_size,
            raw_cfg_file_ptr: raw_cfg.addr,
            raw_cfg_file_size: raw_cfg.len,
        }
    }
}

} // verus!
