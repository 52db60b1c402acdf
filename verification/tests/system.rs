//! Creating and destroying machines, and making handles.

use bhyve_api::channel::{Command, Reply};
use bhyve_api::error::Error;
use bhyve_api::system::VMMSystem;
use bhyve_api::vm::{VirtualMachine, DEFAULT_LOWMEM_LIMIT};
use bhyve_api::vmm_dev::{VMM_CREATE_VM, VMM_DESTROY_VM};

#[test]
fn test_create_vm() {
    let vm_name = "testname";
    let vmmctl = VMMSystem::new();
    let create = vmmctl.create_vm(vm_name).expect("failed to create VM device");
    assert_eq!(
        create,
        Command::Control { command: 0x564d01, record: b"testname\0".to_vec() }
    );
    let created = Reply { status: 0, errno: 0, record: Vec::new() };
    assert_eq!(vmmctl.outcome(&created), Ok(0));
    let vm = VirtualMachine::new(vm_name).expect("failed to open filehandle to VM device");
    assert_eq!(vm.name, "testname");
    let destroy = vmmctl.destroy_vm(vm_name).expect("failed to destroy VM");
    assert_eq!(
        destroy,
        Command::Control { command: 0x564d02, record: b"testname\0".to_vec() }
    );
}

#[test]
fn control_command_words() {
    assert_eq!(VMM_CREATE_VM, 0x564d01);
    assert_eq!(VMM_DESTROY_VM, 0x564d02);
}

#[test]
fn control_device_path() {
    assert_eq!(VMMSystem::new().device_path(), "/dev/vmmctl");
}

#[test]
fn control_status_minus_one_is_a_failure() {
    let vmmctl = VMMSystem::new();
    let failed = Reply { status: -1, errno: 17, record: Vec::new() };
    assert_eq!(vmmctl.outcome(&failed), Err(Error::Channel(17)));
}

#[test]
fn control_status_other_than_minus_one_is_handed_on() {
    let vmmctl = VMMSystem::new();
    assert_eq!(vmmctl.outcome(&Reply { status: 0, errno: 5, record: Vec::new() }), Ok(0));
    assert_eq!(vmmctl.outcome(&Reply { status: 7, errno: 5, record: Vec::new() }), Ok(7));
    assert_eq!(vmmctl.outcome(&Reply { status: -2, errno: 5, record: Vec::new() }), Ok(-2));
}

#[test]
fn machine_name_with_zero_byte_is_rejected() {
    let vmmctl = VMMSystem::new();
    assert_eq!(vmmctl.create_vm("a\0b"), Err(Error::InvalidInput));
    assert_eq!(vmmctl.destroy_vm("\0"), Err(Error::InvalidInput));
    assert!(matches!(VirtualMachine::new("a\0b"), Err(Error::InvalidInput)));
}

#[test]
fn empty_machine_name_is_just_the_terminator() {
    let vmmctl = VMMSystem::new();
    assert_eq!(
        vmmctl.create_vm(""),
        Ok(Command::Control { command: 0x564d01, record: vec![0u8] })
    );
}

#[test]
fn new_handle_has_defaults() {
    let vm = VirtualMachine::new("t1").expect("handle");
    assert_eq!(vm.name, "t1");
    assert_eq!(vm.lowmem_limit, 3 * 1024 * 1024 * 1024);
    assert_eq!(vm.lowmem_limit, DEFAULT_LOWMEM_LIMIT);
    assert_eq!(vm.memflags, 0);
    assert_eq!(vm.device_path(), "/dev/vmm/t1");
}

#[test]
fn handle_takes_the_host_flags_from_libc() {
    let vm = VirtualMachine::new("t1").expect("handle");
    assert_eq!(vm.host.prot_read, libc::PROT_READ);
    assert_eq!(vm.host.prot_write, libc::PROT_WRITE);
    assert_eq!(vm.host.prot_exec, libc::PROT_EXEC);
    assert_eq!(vm.host.map_shared, libc::MAP_SHARED);
    assert_eq!(vm.host.map_fixed, libc::MAP_FIXED);
    assert_eq!(vm.host.guest_memory_prot(), libc::PROT_READ | libc::PROT_WRITE | libc::PROT_EXEC);
    assert_eq!(vm.host.bootrom_prot(), libc::PROT_READ | libc::PROT_EXEC);
    assert_eq!(vm.host.host_prot(), libc::PROT_READ | libc::PROT_WRITE);
    assert_eq!(vm.host.host_flags(), libc::MAP_SHARED | libc::MAP_FIXED);
}
