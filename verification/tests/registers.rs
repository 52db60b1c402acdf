//! Operations carried through against a stand-in for the hypervisor.
//!
//! The stand-in keeps segments, mappings, registers and descriptors in
//! memory. It reads the records byte by byte on its own, so these tests also
//! hold the library's records to the layout that the peer expects.

use std::collections::BTreeMap;

use bhyve_api::channel::{Command, Reply};
use bhyve_api::error::Error;
use bhyve_api::operation::{host_map, Operation, Output};
use bhyve_api::specialreg::CR0_NE;
use bhyve_api::vm::{MemSegId, VirtualMachine, VmExit, VM_MEM_F_WIRED};
use bhyve_api::vmm::{vm_cap_type, vm_reg_name};

const TEST_CPUID: i32 = 0;

const MB: usize = 1024 * 1024;

fn i32_at(record: &[u8], at: usize) -> i32 {
    i32::from_le_bytes([record[at], record[at + 1], record[at + 2], record[at + 3]])
}

fn u32_at(record: &[u8], at: usize) -> u32 {
    u32::from_le_bytes([record[at], record[at + 1], record[at + 2], record[at + 3]])
}

fn u64_at(record: &[u8], at: usize) -> u64 {
    let mut bytes = [0u8; 8];
    bytes.copy_from_slice(&record[at..at + 8]);
    u64::from_le_bytes(bytes)
}

fn put(record: &mut [u8], at: usize, bytes: &[u8]) {
    record[at..at + bytes.len()].copy_from_slice(bytes);
}

#[derive(Clone, Debug, PartialEq, Eq)]
struct Mapping {
    segid: i32,
    segoff: i64,
    len: u64,
    prot: i32,
    flags: i32,
}

#[derive(Default)]
struct Peer {
    segments: BTreeMap<i32, (u64, Vec<u8>)>,
    mappings: BTreeMap<u64, Mapping>,
    registers: BTreeMap<(i32, i32), u64>,
    descriptors: BTreeMap<(i32, i32), (u64, u32, u32)>,
    capabilities: BTreeMap<(i32, i32), i32>,
    x2apic: BTreeMap<i32, i32>,
    topology: [u16; 4],
    rtc: BTreeMap<i32, u8>,
    rtc_secs: i64,
    active: Vec<i32>,
    suspended: Vec<i32>,
    exits: Vec<Vec<u8>>,
    host_maps: Vec<host_map>,
    host_map_fails: bool,
    log: Vec<u32>,
    fail_at: Option<usize>,
    short_replies: bool,
}

fn ok(record: Vec<u8>) -> Reply {
    Reply { status: 0, errno: 0, record }
}

fn refused(errno: i32, record: Vec<u8>) -> Reply {
    Reply { status: -1, errno, record }
}

impl Peer {
    fn serve(&mut self, command: &Command) -> Reply {
        match command {
            Command::HostMap(mapping) => {
                self.log.push(0);
                if self.host_map_fails {
                    return refused(libc::ENOMEM, Vec::new());
                }
                self.host_maps.push(*mapping);
                ok(Vec::new())
            }
            Command::Control { command, record } => {
                let word = *command as u32;
                let count = self.log.len();
                self.log.push(word);
                if self.fail_at == Some(count) {
                    return refused(libc::EIO, record.clone());
                }
                let reply = self.control(word, record.clone());
                if self.short_replies && reply.status == 0 {
                    return ok(reply.record[..reply.record.len().min(7)].to_vec());
                }
                reply
            }
        }
    }

    fn control(&mut self, word: u32, mut record: Vec<u8>) -> Reply {
        let size = ((word >> 16) & 0xff) as usize;
        assert_eq!(record.len() & 0xff, size, "record size in the command word {:#x}", word);
        match word & 0xffff {
            // run
            0x7601 => {
                assert_eq!(record.len(), 144);
                match self.exits.pop() {
                    Some(exit) => {
                        put(&mut record, 8, &exit);
                        ok(record)
                    }
                    None => refused(libc::EINVAL, record),
                }
            }
            // set capability
            0x7602 => {
                self.capabilities.insert((i32_at(&record, 0), i32_at(&record, 4)), i32_at(&record, 8));
                ok(record)
            }
            // get capability
            0x7603 => {
                let key = (i32_at(&record, 0), i32_at(&record, 4));
                match self.capabilities.get(&key) {
                    Some(value) => {
                        put(&mut record, 8, &value.to_le_bytes());
                        ok(record)
                    }
                    None => refused(libc::ENOENT, record),
                }
            }
            // suspend, reinit
            0x7604 => {
                self.suspended.push(i32_at(&record, 0));
                ok(record)
            }
            0x7605 => {
                assert!(record.is_empty());
                self.registers.clear();
                ok(record)
            }
            // allocate a segment
            0x760e => {
                assert_eq!(record.len(), 80);
                let segid = i32_at(&record, 0);
                let len = u64_at(&record, 8);
                if len == 0 || len % 4096 != 0 {
                    return refused(libc::EINVAL, record);
                }
                if self.segments.contains_key(&segid) {
                    return refused(libc::EEXIST, record);
                }
                self.segments.insert(segid, (len, record[16..80].to_vec()));
                ok(record)
            }
            // get a segment
            0x760f => {
                assert_eq!(record.len(), 80);
                let segid = i32_at(&record, 0);
                if !(0..4).contains(&segid) {
                    return refused(libc::EINVAL, record);
                }
                match self.segments.get(&segid) {
                    Some((len, name)) => {
                        put(&mut record, 8, &len.to_le_bytes());
                        put(&mut record, 16, name);
                    }
                    None => {
                        put(&mut record, 8, &[0u8; 8]);
                        put(&mut record, 16, &[0u8; 64]);
                    }
                }
                ok(record)
            }
            // map a segment
            0x7610 => {
                assert_eq!(record.len(), 40);
                let gpa = u64_at(&record, 0);
                let mapping = Mapping {
                    segid: i32_at(&record, 8),
                    segoff: u64_at(&record, 16) as i64,
                    len: u64_at(&record, 24),
                    prot: i32_at(&record, 32),
                    flags: i32_at(&record, 36),
                };
                match self.segments.get(&mapping.segid) {
                    Some((len, _)) if mapping.len <= *len => {}
                    _ => return refused(libc::EINVAL, record),
                }
                let overlaps = self
                    .mappings
                    .iter()
                    .any(|(start, other)| gpa < start + other.len && *start < gpa + mapping.len);
                if overlaps {
                    return refused(libc::ENOMEM, record);
                }
                self.mappings.insert(gpa, mapping);
                ok(record)
            }
            // next mapping
            0x7611 => {
                assert_eq!(record.len(), 40);
                let gpa = u64_at(&record, 0);
                let found = self.mappings.range(gpa..).next();
                match found {
                    Some((start, mapping)) => {
                        put(&mut record, 0, &start.to_le_bytes());
                        put(&mut record, 8, &mapping.segid.to_le_bytes());
                        put(&mut record, 16, &mapping.segoff.to_le_bytes());
                        put(&mut record, 24, &mapping.len.to_le_bytes());
                        put(&mut record, 32, &mapping.prot.to_le_bytes());
                        put(&mut record, 36, &mapping.flags.to_le_bytes());
                        ok(record)
                    }
                    None => refused(libc::ENOENT, record),
                }
            }
            // unmap
            0x7613 => {
                assert_eq!(record.len(), 16);
                let gpa = u64_at(&record, 0);
                let len = u64_at(&record, 8);
                match self.mappings.get(&gpa) {
                    Some(mapping) if mapping.len == len => {
                        self.mappings.remove(&gpa);
                        ok(record)
                    }
                    _ => refused(libc::EINVAL, record),
                }
            }
            // registers
            0x7614 => {
                assert_eq!(record.len(), 16);
                self.registers.insert((i32_at(&record, 0), i32_at(&record, 4)), u64_at(&record, 8));
                ok(record)
            }
            0x7615 => {
                assert_eq!(record.len(), 16);
                let key = (i32_at(&record, 0), i32_at(&record, 4));
                let value = self.registers.get(&key).copied().unwrap_or(0);
                put(&mut record, 8, &value.to_le_bytes());
                ok(record)
            }
            // descriptors
            0x7616 => {
                assert_eq!(record.len(), 24);
                self.descriptors.insert(
                    (i32_at(&record, 0), i32_at(&record, 4)),
                    (u64_at(&record, 8), u32_at(&record, 16), u32_at(&record, 20)),
                );
                ok(record)
            }
            0x7617 => {
                assert_eq!(record.len(), 24);
                let key = (i32_at(&record, 0), i32_at(&record, 4));
                let (base, limit, access) = self.descriptors.get(&key).copied().unwrap_or((0, 0, 0));
                put(&mut record, 8, &base.to_le_bytes());
                put(&mut record, 16, &limit.to_le_bytes());
                put(&mut record, 20, &access.to_le_bytes());
                ok(record)
            }
            // statistics
            0x7632 => {
                assert_eq!(record.len(), 792);
                put(&mut record, 4, &12i32.to_le_bytes());
                ok(record)
            }
            // x2APIC
            0x763c => {
                self.x2apic.insert(i32_at(&record, 0), i32_at(&record, 4));
                ok(record)
            }
            0x763d => {
                let state = self.x2apic.get(&i32_at(&record, 0)).copied().unwrap_or(0);
                put(&mut record, 4, &state.to_le_bytes());
                ok(record)
            }
            // topology
            0x763f => {
                assert_eq!(record.len(), 8);
                if record[6] != 0 || record[7] != 0 {
                    return refused(libc::EINVAL, record);
                }
                for i in 0..3 {
                    self.topology[i] = u16::from_le_bytes([record[2 * i], record[2 * i + 1]]);
                }
                self.topology[3] = 32;
                ok(record)
            }
            0x7640 => {
                for i in 0..4 {
                    put(&mut record, 2 * i, &self.topology[i].to_le_bytes());
                }
                ok(record)
            }
            // activate, suspend and resume a CPU
            0x765a => {
                self.active.push(i32_at(&record, 0));
                ok(record)
            }
            0x765c | 0x765d => ok(record),
            // real-time clock
            0x7664 => {
                let value = self.rtc.get(&i32_at(&record, 0)).copied().unwrap_or(0);
                record[4] = value;
                ok(record)
            }
            0x7665 => {
                self.rtc.insert(i32_at(&record, 0), record[4]);
                ok(record)
            }
            0x7666 => {
                self.rtc_secs = u64_at(&record, 0) as i64;
                ok(record)
            }
            0x7667 => {
                put(&mut record, 0, &self.rtc_secs.to_le_bytes());
                ok(record)
            }
            // offset of device memory
            0x7700 => {
                assert_eq!(record.len(), 16);
                let segid = i32_at(&record, 0);
                match self.segments.get(&segid) {
                    Some((_, name)) if name[0] != 0 => {
                        put(&mut record, 8, &(0x10000i64 * segid as i64).to_le_bytes());
                        ok(record)
                    }
                    _ => refused(libc::ENOENT, record),
                }
            }
            other => panic!("unknown command word {:#x}", other),
        }
    }

    fn sent(&self, word: u32) -> usize {
        self.log.iter().filter(|w| **w == word).count()
    }
}

fn drive(peer: &mut Peer, mut op: Operation) -> Result<Output, Error> {
    loop {
        match op.command() {
            None => return op.outcome().expect("an operation without a command has finished"),
            Some(command) => {
                let reply = peer.serve(&command);
                op = op.advance(&reply);
            }
        }
    }
}

fn setup_vm(vm_name: &str) -> (Peer, VirtualMachine) {
    let vm = VirtualMachine::new(vm_name).expect("failed to open filehandle to VM device");
    (Peer::default(), vm)
}

fn set_register(peer: &mut Peer, vm: &VirtualMachine, reg: vm_reg_name, val: u64) -> Result<bool, Error> {
    match drive(peer, vm.set_register(TEST_CPUID, reg, val)) {
        Ok(Output::Done) => Ok(true),
        Ok(other) => panic!("unexpected output {:?}", other),
        Err(e) => Err(e),
    }
}

fn get_register(peer: &mut Peer, vm: &VirtualMachine, reg: vm_reg_name) -> Result<u64, Error> {
    match drive(peer, vm.get_register(TEST_CPUID, reg)) {
        Ok(Output::Register(value)) => Ok(value),
        Ok(other) => panic!("unexpected output {:?}", other),
        Err(e) => Err(e),
    }
}

fn set_desc(
    peer: &mut Peer,
    vm: &VirtualMachine,
    reg: vm_reg_name,
    base: u64,
    limit: u32,
    access: u32,
) -> Result<bool, Error> {
    match drive(peer, vm.set_desc(TEST_CPUID, reg, base, limit, access)) {
        Ok(Output::Done) => Ok(true),
        Ok(other) => panic!("unexpected output {:?}", other),
        Err(e) => Err(e),
    }
}

fn get_desc(peer: &mut Peer, vm: &VirtualMachine, reg: vm_reg_name) -> Result<(u64, u32, u32), Error> {
    match drive(peer, vm.get_desc(TEST_CPUID, reg)) {
        Ok(Output::Descriptor(base, limit, access)) => Ok((base, limit, access)),
        Ok(other) => panic!("unexpected output {:?}", other),
        Err(e) => Err(e),
    }
}

#[test]
fn test_caller_save_registers() {
    let testname = "test_caller_save_registers";
    let (mut peer, vm) = setup_vm(testname);
    let p = &mut peer;

    set_register(p, &vm, vm_reg_name::VM_REG_GUEST_RAX, 1100).expect("failed to set RAX register");
    let rax = get_register(p, &vm, vm_reg_name::VM_REG_GUEST_RAX).expect("failed to get RAX register");
    assert_eq!(rax, 1100);

    set_register(p, &vm, vm_reg_name::VM_REG_GUEST_RCX, 1200).expect("failed to set RCX register");
    let rcx = get_register(p, &vm, vm_reg_name::VM_REG_GUEST_RCX).expect("failed to get RCX register");
    assert_eq!(rcx, 1200);

    set_register(p, &vm, vm_reg_name::VM_REG_GUEST_RDX, 1300).expect("failed to set RDX register");
    let rdx = get_register(p, &vm, vm_reg_name::VM_REG_GUEST_RDX).expect("failed to get RDX register");
    assert_eq!(rdx, 1300);

    set_register(p, &vm, vm_reg_name::VM_REG_GUEST_RDI, 1400).expect("failed to set RDI register");
    let rdi = get_register(p, &vm, vm_reg_name::VM_REG_GUEST_RDI).expect("failed to get RDI register");
    assert_eq!(rdi, 1400);

    set_register(p, &vm, vm_reg_name::VM_REG_GUEST_RSI, 1500).expect("failed to set RSI register");
    let rsi = get_register(p, &vm, vm_reg_name::VM_REG_GUEST_RSI).expect("failed to get RSI register");
    assert_eq!(rsi, 1500);

    set_register(p, &vm, vm_reg_name::VM_REG_GUEST_RSP, 1600).expect("failed to set RSP register");
    let rsp = get_register(p, &vm, vm_reg_name::VM_REG_GUEST_RSP).expect("failed to get RSP register");
    assert_eq!(rsp, 1600);

    set_register(p, &vm, vm_reg_name::VM_REG_GUEST_R8, 1008).expect("failed to set R8 register");
    let r8 = get_register(p, &vm, vm_reg_name::VM_REG_GUEST_R8).expect("failed to get R8 register");
    assert_eq!(r8, 1008);

    set_register(p, &vm, vm_reg_name::VM_REG_GUEST_R9, 1009).expect("failed to set R9 register");
    let r9 = get_register(p, &vm, vm_reg_name::VM_REG_GUEST_R9).expect("failed to get R9 register");
    assert_eq!(r9, 1009);

    set_register(p, &vm, vm_reg_name::VM_REG_GUEST_R10, 1010).expect("failed to set R10 register");
    let r10 = get_register(p, &vm, vm_reg_name::VM_REG_GUEST_R10).expect("failed to get R10 register");
    assert_eq!(r10, 1010);

    set_register(p, &vm, vm_reg_name::VM_REG_GUEST_R11, 1011).expect("failed to set R11 register");
    let r11 = get_register(p, &vm, vm_reg_name::VM_REG_GUEST_R11).expect("failed to get R11 register");
    assert_eq!(r11, 1011);
}

#[test]
fn test_callee_save_registers() {
    let testname = "test_callee_save_registers";
    let (mut peer, vm) = setup_vm(testname);
    let p = &mut peer;

    set_register(p, &vm, vm_reg_name::VM_REG_GUEST_RBX, 2100).expect("failed to set RBX register");
    let rbx = get_register(p, &vm, vm_reg_name::VM_REG_GUEST_RBX).expect("failed to get RBX register");
    assert_eq!(rbx, 2100);

    set_register(p, &vm, vm_reg_name::VM_REG_GUEST_RBP, 2200).expect("failed to set RBP register");
    let rbp = get_register(p, &vm, vm_reg_name::VM_REG_GUEST_RBP).expect("failed to get RBP register");
    assert_eq!(rbp, 2200);

    set_register(p, &vm, vm_reg_name::VM_REG_GUEST_R12, 2012).expect("failed to set R12 register");
    let r12 = get_register(p, &vm, vm_reg_name::VM_REG_GUEST_R12).expect("failed to get R12 register");
    assert_eq!(r12, 2012);

    set_register(p, &vm, vm_reg_name::VM_REG_GUEST_R13, 2013).expect("failed to set R13 register");
    let r13 = get_register(p, &vm, vm_reg_name::VM_REG_GUEST_R13).expect("failed to get R13 register");
    assert_eq!(r13, 2013);

    set_register(p, &vm, vm_reg_name::VM_REG_GUEST_R14, 2014).expect("failed to set R14 register");
    let r14 = get_register(p, &vm, vm_reg_name::VM_REG_GUEST_R14).expect("failed to get R14 register");
    assert_eq!(r14, 2014);

    set_register(p, &vm, vm_reg_name::VM_REG_GUEST_R15, 2015).expect("failed to set R15 register");
    let r15 = get_register(p, &vm, vm_reg_name::VM_REG_GUEST_R15).expect("failed to get R15 register");
    assert_eq!(r15, 2015);
}

#[test]
fn test_debug_registers() {
    let testname = "test_debug_registers";
    let (mut peer, vm) = setup_vm(testname);
    let p = &mut peer;

    set_register(p, &vm, vm_reg_name::VM_REG_GUEST_DR0, 3000).expect("failed to set DR0 register");
    let dr0 = get_register(p, &vm, vm_reg_name::VM_REG_GUEST_DR0).expect("failed to get DR0 register");
    assert_eq!(dr0, 3000);

    set_register(p, &vm, vm_reg_name::VM_REG_GUEST_DR1, 3001).expect("failed to set DR1 register");
    let dr1 = get_register(p, &vm, vm_reg_name::VM_REG_GUEST_DR1).expect("failed to get DR1 register");
    assert_eq!(dr1, 3001);

    set_register(p, &vm, vm_reg_name::VM_REG_GUEST_DR2, 3002).expect("failed to set DR2 register");
    let dr2 = get_register(p, &vm, vm_reg_name::VM_REG_GUEST_DR2).expect("failed to get DR2 register");
    assert_eq!(dr2, 3002);

    set_register(p, &vm, vm_reg_name::VM_REG_GUEST_DR3, 3003).expect("failed to set DR3 register");
    let dr3 = get_register(p, &vm, vm_reg_name::VM_REG_GUEST_DR3).expect("failed to get DR3 register");
    assert_eq!(dr3, 3003);

    set_register(p, &vm, vm_reg_name::VM_REG_GUEST_DR6, 3006).expect("failed to set DR6 register");
    let dr6 = get_register(p, &vm, vm_reg_name::VM_REG_GUEST_DR6).expect("failed to get DR6 register");
    assert_eq!(dr6, 3006);

    set_register(p, &vm, vm_reg_name::VM_REG_GUEST_DR7, 3007).expect("failed to set DR7 register");
    let dr7 = get_register(p, &vm, vm_reg_name::VM_REG_GUEST_DR7).expect("failed to get DR7 register");
    assert_eq!(dr7, 3007);
}

#[test]
fn test_control_registers() {
    let testname = "test_control_registers";
    let (mut peer, vm) = setup_vm(testname);
    let p = &mut peer;

    set_register(p, &vm, vm_reg_name::VM_REG_GUEST_CR0, 4000).expect("failed to set CR0 register");
    let cr0 = get_register(p, &vm, vm_reg_name::VM_REG_GUEST_CR0).expect("failed to get CR0 register");
    assert_eq!(cr0, 4000);

    set_register(p, &vm, vm_reg_name::VM_REG_GUEST_CR2, 4002).expect("failed to set CR2 register");
    let cr2 = get_register(p, &vm, vm_reg_name::VM_REG_GUEST_CR2).expect("failed to get CR2 register");
    assert_eq!(cr2, 4002);

    set_register(p, &vm, vm_reg_name::VM_REG_GUEST_CR3, 4003).expect("failed to set CR3 register");
    let cr3 = get_register(p, &vm, vm_reg_name::VM_REG_GUEST_CR3).expect("failed to get CR3 register");
    assert_eq!(cr3, 4003);

    set_register(p, &vm, vm_reg_name::VM_REG_GUEST_CR4, 4004).expect("failed to set CR4 register");
    let cr4 = get_register(p, &vm, vm_reg_name::VM_REG_GUEST_CR4).expect("failed to get CR4 register");
    assert_eq!(cr4, 4004);
}

#[test]
fn test_system_flags_register() {
    let testname = "test_system_flags_register";
    let (mut peer, vm) = setup_vm(testname);
    let p = &mut peer;

    set_register(p, &vm, vm_reg_name::VM_REG_GUEST_RFLAGS, 5000).expect("failed to set RFLAGS register");
    let rflags = get_register(p, &vm, vm_reg_name::VM_REG_GUEST_RFLAGS).expect("failed to get RFLAGS register");
    assert_eq!(rflags, 5000);
}

#[test]
fn test_descriptor_table_registers() {
    let testname = "test_descriptor_table_registers";
    let (mut peer, vm) = setup_vm(testname);
    let p = &mut peer;

    // Global Descriptor-Table Register
    set_desc(p, &vm, vm_reg_name::VM_REG_GUEST_GDTR, 0, 0xffff, 0).expect("failed to set GDTR register");
    match get_desc(p, &vm, vm_reg_name::VM_REG_GUEST_GDTR) {
        Ok(gdtr) => {
            assert_eq!(gdtr.0, 0); // GDTR base address
            assert_eq!(gdtr.1, 0xffff); // GDTR limit
            assert_eq!(gdtr.2, 0); // GDTR attributes
        }
        Err(error) => panic!("failed to get GDTR register: {:?}", error),
    }

    // Local Descriptor-Table Register
    set_register(p, &vm, vm_reg_name::VM_REG_GUEST_LDTR, 6000).expect("failed to set LDTR register");
    let ldtr = get_register(p, &vm, vm_reg_name::VM_REG_GUEST_LDTR).expect("failed to get LDTR register");
    assert_eq!(ldtr, 6000);

    set_desc(p, &vm, vm_reg_name::VM_REG_GUEST_LDTR, 0, 0xffff, 0x082).expect("failed to set LDTR register");
    set_register(p, &vm, vm_reg_name::VM_REG_GUEST_LDTR, 0).expect("failed to set LDTR register");

    match get_desc(p, &vm, vm_reg_name::VM_REG_GUEST_LDTR) {
        Ok(ldtr) => {
            assert_eq!(ldtr.0, 0); // LDTR base address
            assert_eq!(ldtr.1, 0xffff); // LDTR limit
            assert_eq!(ldtr.2, 0x082); // LDTR attributes
        }
        Err(error) => panic!("failed to get LDTR register: {:?}", error),
    }

    // Interrupt Descriptor-Table Register
    set_desc(p, &vm, vm_reg_name::VM_REG_GUEST_IDTR, 0, 0xffff, 0).expect("failed to set IDTR register");

    match get_desc(p, &vm, vm_reg_name::VM_REG_GUEST_IDTR) {
        Ok(idtr) => {
            assert_eq!(idtr.0, 0); // IDTR base address
            assert_eq!(idtr.1, 0xffff); // IDTR limit
            assert_eq!(idtr.2, 0); // IDTR attributes
        }
        Err(error) => panic!("failed to get IDTR register: {:?}", error),
    }
}

#[test]
fn test_task_register() {
    let testname = "test_task_register";
    let (mut peer, vm) = setup_vm(testname);
    let p = &mut peer;

    set_register(p, &vm, vm_reg_name::VM_REG_GUEST_TR, 7000).expect("failed to set TR register");
    let tr = get_register(p, &vm, vm_reg_name::VM_REG_GUEST_TR).expect("failed to get TR register");
    assert_eq!(tr, 7000);

    set_desc(p, &vm, vm_reg_name::VM_REG_GUEST_TR, 0, 0, 0x08b).expect("failed to set TR register");
    set_register(p, &vm, vm_reg_name::VM_REG_GUEST_TR, 0).expect("failed to set TR register");

    match get_desc(p, &vm, vm_reg_name::VM_REG_GUEST_TR) {
        Ok(ldtr) => {
            assert_eq!(ldtr.0, 0); // TR base address
            assert_eq!(ldtr.1, 0); // TR limit
            assert_eq!(ldtr.2, 0x08b); // TR attributes
        }
        Err(error) => panic!("failed to get TR register: {:?}", error),
    }
}

#[test]
fn test_extended_feature_register() {
    let testname = "test_extended_feature_register";
    let (mut peer, vm) = setup_vm(testname);
    let p = &mut peer;

    const EFER_LMA: u64 = 0x400;
    const EFER_LME: u64 = 0x100;

    let efer_orig = get_register(p, &vm, vm_reg_name::VM_REG_GUEST_EFER).expect("failed to get EFER register");

    let longmode = efer_orig | EFER_LME | EFER_LMA;

    set_register(p, &vm, vm_reg_name::VM_REG_GUEST_EFER, longmode).expect("failed to set EFER register");
    let efer = get_register(p, &vm, vm_reg_name::VM_REG_GUEST_EFER).expect("failed to get EFER register");
    assert_eq!(efer, longmode);
}

#[test]
fn registers_are_kept_apart_by_cpu_and_number() {
    let (mut peer, vm) = setup_vm("apart");
    drive(&mut peer, vm.set_register(0, vm_reg_name::VM_REG_GUEST_RAX, 1)).expect("set");
    drive(&mut peer, vm.set_register(1, vm_reg_name::VM_REG_GUEST_RAX, 2)).expect("set");
    drive(&mut peer, vm.set_register(0, vm_reg_name::VM_REG_GUEST_RBX, 3)).expect("set");
    assert_eq!(peer.registers.get(&(0, 0)), Some(&1));
    assert_eq!(peer.registers.get(&(1, 0)), Some(&2));
    assert_eq!(peer.registers.get(&(0, 1)), Some(&3));
    assert_eq!(
        drive(&mut peer, vm.get_register(1, vm_reg_name::VM_REG_GUEST_RAX)),
        Ok(Output::Register(2))
    );
}

#[test]
fn allocate_twice_is_idempotent() {
    let (mut peer, vm) = setup_vm("t1");
    let first = drive(&mut peer, vm.alloc_memseg(MemSegId::VM_LOWMEM, 20 * MB, ""));
    assert_eq!(first, Ok(Output::Done));
    let after_first = peer.segments.clone();
    assert_eq!(after_first.get(&0), Some(&((20 * MB) as u64, vec![0u8; 64])));
    let second = drive(&mut peer, vm.alloc_memseg(MemSegId::VM_LOWMEM, 20 * MB, ""));
    assert_eq!(second, Ok(Output::Done));
    assert_eq!(peer.segments, after_first);
    // one allocation, two lookups
    assert_eq!(peer.sent(0x8050760e), 1);
    assert_eq!(peer.sent(0xc050760f), 2);
}

#[test]
fn allocate_named_twice_is_idempotent() {
    let (mut peer, vm) = setup_vm("t1");
    let op = vm.alloc_memseg(MemSegId::VM_FRAMEBUFFER, 16 * MB, "framebuffer");
    assert_eq!(drive(&mut peer, op), Ok(Output::Done));
    let mut name = vec![0u8; 64];
    name[..11].copy_from_slice(b"framebuffer");
    assert_eq!(peer.segments.get(&3), Some(&((16 * MB) as u64, name)));
    let again = vm.alloc_memseg(MemSegId::VM_FRAMEBUFFER, 16 * MB, "framebuffer");
    assert_eq!(drive(&mut peer, again), Ok(Output::Done));
    assert_eq!(peer.sent(0x8050760e), 1);
}

#[test]
fn allocate_with_other_length_or_name_conflicts() {
    let (mut peer, vm) = setup_vm("t1");
    assert_eq!(drive(&mut peer, vm.alloc_memseg(MemSegId::VM_BOOTROM, MB, "rom")), Ok(Output::Done));
    let held = peer.segments.clone();
    for (len, name) in [(2 * MB, "rom"), (MB, "ram"), (MB, ""), (MB, "ro"), (MB, "romx"), (0, "rom")] {
        let result = drive(&mut peer, vm.alloc_memseg(MemSegId::VM_BOOTROM, len, name));
        assert_eq!(result, Err(Error::Conflict), "{} {:?}", len, name);
        assert_eq!(peer.segments, held);
    }
    // a name too long for the buffer conflicts too, once the segment is there
    let long = "x".repeat(64);
    assert_eq!(
        drive(&mut peer, vm.alloc_memseg(MemSegId::VM_BOOTROM, MB, &long)),
        Err(Error::Conflict)
    );
    assert_eq!(peer.sent(0x8050760e), 1);
    // another segment is not touched by the conflict
    assert_eq!(drive(&mut peer, vm.alloc_memseg(MemSegId::VM_LOWMEM, MB, "")), Ok(Output::Done));
}

#[test]
fn allocate_rejects_names_that_cannot_be_stored() {
    let (mut peer, vm) = setup_vm("t1");
    // a zero byte: nothing is sent
    let op = vm.alloc_memseg(MemSegId::VM_BOOTROM, MB, "boot\0rom");
    assert!(op.command().is_none());
    assert_eq!(op.outcome(), Some(Err(Error::InvalidInput)));
    assert_eq!(drive(&mut peer, vm.alloc_memseg(MemSegId::VM_BOOTROM, MB, "boot\0rom")), Err(Error::InvalidInput));
    assert!(peer.log.is_empty());
    // 64 bytes: the lookup is sent, the allocation is not
    let long = "x".repeat(64);
    assert_eq!(
        drive(&mut peer, vm.alloc_memseg(MemSegId::VM_BOOTROM, MB, &long)),
        Err(Error::InvalidInput)
    );
    assert_eq!(peer.log, vec![0xc050760f]);
    assert!(peer.segments.is_empty());
    // 63 bytes fit
    let longest = "y".repeat(63);
    assert_eq!(
        drive(&mut peer, vm.alloc_memseg(MemSegId::VM_BOOTROM, MB, &longest)),
        Ok(Output::Done)
    );
    // the length in bytes counts, not the number of characters
    let wide = "\u{e9}".repeat(32);
    assert_eq!(
        drive(&mut peer, vm.alloc_memseg(MemSegId::VM_FRAMEBUFFER, MB, &wide)),
        Err(Error::InvalidInput)
    );
}

#[test]
fn allocate_hands_on_what_the_peer_refuses() {
    let (mut peer, vm) = setup_vm("t1");
    // the stand-in refuses a length of zero
    assert_eq!(
        drive(&mut peer, vm.alloc_memseg(MemSegId::VM_LOWMEM, 0, "")),
        Err(Error::Channel(libc::EINVAL))
    );
    // a lookup that fails ends the operation with that failure
    peer.fail_at = Some(peer.log.len());
    assert_eq!(
        drive(&mut peer, vm.alloc_memseg(MemSegId::VM_LOWMEM, MB, "")),
        Err(Error::Channel(libc::EIO))
    );
    assert!(peer.segments.is_empty());
}

#[test]
fn map_twice_is_idempotent_and_other_protection_is_refused() {
    let (mut peer, vm) = setup_vm("t1");
    drive(&mut peer, vm.alloc_memseg(MemSegId::VM_LOWMEM, 20 * MB, "")).expect("allocate");
    let prot = libc::PROT_READ | libc::PROT_WRITE;
    let first = drive(&mut peer, vm.mmap_memseg(0x1000, MemSegId::VM_LOWMEM, 0, MB, prot));
    assert_eq!(first, Ok(Output::Done));
    let held = peer.mappings.clone();
    assert_eq!(
        held.get(&0x1000),
        Some(&Mapping { segid: 0, segoff: 0, len: MB as u64, prot, flags: 0 })
    );
    let second = drive(&mut peer, vm.mmap_memseg(0x1000, MemSegId::VM_LOWMEM, 0, MB, prot));
    assert_eq!(second, Ok(Output::Done));
    assert_eq!(peer.mappings, held);
    assert_eq!(peer.sent(0x80287610), 1);
    let other = drive(&mut peer, vm.mmap_memseg(0x1000, MemSegId::VM_LOWMEM, 0, MB, libc::PROT_READ));
    assert_eq!(other, Err(Error::AlreadyExists));
    assert_eq!(peer.mappings, held);
    assert_eq!(peer.sent(0x80287610), 1);
}

#[test]
fn map_compares_segment_offset_protection_and_flags() {
    let (mut peer, mut vm) = setup_vm("t1");
    drive(&mut peer, vm.alloc_memseg(MemSegId::VM_LOWMEM, 20 * MB, "")).expect("allocate");
    drive(&mut peer, vm.alloc_memseg(MemSegId::VM_HIGHMEM, 20 * MB, "")).expect("allocate");
    let prot = libc::PROT_READ;
    drive(&mut peer, vm.mmap_memseg(0, MemSegId::VM_LOWMEM, 0x1000, MB, prot)).expect("map");
    assert_eq!(
        drive(&mut peer, vm.mmap_memseg(0, MemSegId::VM_HIGHMEM, 0x1000, MB, prot)),
        Err(Error::AlreadyExists)
    );
    assert_eq!(
        drive(&mut peer, vm.mmap_memseg(0, MemSegId::VM_LOWMEM, 0x2000, MB, prot)),
        Err(Error::AlreadyExists)
    );
    // the length is not compared
    assert_eq!(
        drive(&mut peer, vm.mmap_memseg(0, MemSegId::VM_LOWMEM, 0x1000, 2 * MB, prot)),
        Ok(Output::Done)
    );
    // the wired flag is
    vm.memflags = VM_MEM_F_WIRED;
    assert_eq!(
        drive(&mut peer, vm.mmap_memseg(0, MemSegId::VM_LOWMEM, 0x1000, MB, prot)),
        Err(Error::AlreadyExists)
    );
    assert_eq!(peer.sent(0x80287610), 1);
}

#[test]
fn map_is_wired_when_the_memory_is() {
    let (mut peer, mut vm) = setup_vm("t1");
    drive(&mut peer, vm.alloc_memseg(MemSegId::VM_LOWMEM, 20 * MB, "")).expect("allocate");
    assert_eq!(vm.mapping_flags(), 0);
    vm.memflags = VM_MEM_F_WIRED | 0x01;
    assert_eq!(vm.mapping_flags(), 1);
    drive(&mut peer, vm.mmap_memseg(0, MemSegId::VM_LOWMEM, 0, MB, 3)).expect("map");
    assert_eq!(peer.mappings.get(&0).map(|m| m.flags), Some(1));
    vm.memflags = 0x01;
    assert_eq!(vm.mapping_flags(), 0);
    drive(&mut peer, vm.mmap_memseg(0x4000_0000, MemSegId::VM_LOWMEM, 0, MB, 3)).expect("map");
    assert_eq!(peer.mappings.get(&0x4000_0000).map(|m| m.flags), Some(0));
}

#[test]
fn map_goes_ahead_when_the_next_mapping_starts_higher() {
    let (mut peer, vm) = setup_vm("t1");
    drive(&mut peer, vm.alloc_memseg(MemSegId::VM_LOWMEM, 20 * MB, "")).expect("allocate");
    drive(&mut peer, vm.mmap_memseg(0x10_0000, MemSegId::VM_LOWMEM, 0, MB, 1)).expect("map");
    assert_eq!(
        drive(&mut peer, vm.mmap_memseg(0, MemSegId::VM_LOWMEM, MB as i64, 0x1000, 7)),
        Ok(Output::Done)
    );
    assert_eq!(peer.mappings.len(), 2);
    // a segment that is not allocated cannot be mapped: the peer refuses
    assert_eq!(
        drive(&mut peer, vm.mmap_memseg(0x8000_0000, MemSegId::VM_BOOTROM, 0, 0x1000, 5)),
        Err(Error::Channel(libc::EINVAL))
    );
}

#[test]
fn next_mapping_is_the_lowest_at_or_above() {
    let (mut peer, vm) = setup_vm("t1");
    drive(&mut peer, vm.alloc_memseg(MemSegId::VM_LOWMEM, 20 * MB, "")).expect("allocate");
    for gpa in [0x30_0000u64, 0x10_0000, 0x50_0000] {
        drive(&mut peer, vm.mmap_memseg(gpa, MemSegId::VM_LOWMEM, gpa as i64, 0x1000, 3)).expect("map");
    }
    let start_of = |result: Result<Output, Error>| match result {
        Ok(Output::Mapping(found)) => Ok((found.gpa, found.segoff, found.len, found.prot)),
        Ok(other) => panic!("unexpected output {:?}", other),
        Err(e) => Err(e),
    };
    assert_eq!(start_of(drive(&mut peer, vm.mmap_getnext(0))), Ok((0x10_0000, 0x10_0000, 0x1000, 3)));
    assert_eq!(start_of(drive(&mut peer, vm.mmap_getnext(0x10_0000))), Ok((0x10_0000, 0x10_0000, 0x1000, 3)));
    assert_eq!(start_of(drive(&mut peer, vm.mmap_getnext(0x10_0001))), Ok((0x30_0000, 0x30_0000, 0x1000, 3)));
    assert_eq!(start_of(drive(&mut peer, vm.mmap_getnext(0x30_0001))), Ok((0x50_0000, 0x50_0000, 0x1000, 3)));
    assert_eq!(start_of(drive(&mut peer, vm.mmap_getnext(0x50_0001))), Err(Error::NotFound));
    assert_eq!(start_of(drive(&mut peer, vm.mmap_getnext(u64::MAX))), Err(Error::NotFound));
}

#[test]
fn next_mapping_of_an_empty_space_is_not_found() {
    let (mut peer, vm) = setup_vm("t1");
    assert_eq!(drive(&mut peer, vm.mmap_getnext(0)), Err(Error::NotFound));
}

#[test]
fn unmap_takes_exactly_a_mapping() {
    let (mut peer, vm) = setup_vm("t1");
    drive(&mut peer, vm.alloc_memseg(MemSegId::VM_LOWMEM, 20 * MB, "")).expect("allocate");
    drive(&mut peer, vm.mmap_memseg(0x1000, MemSegId::VM_LOWMEM, 0, 0x2000, 3)).expect("map");
    assert_eq!(drive(&mut peer, vm.munmap_memseg(0x1000, 0x1000)), Err(Error::Channel(libc::EINVAL)));
    assert_eq!(drive(&mut peer, vm.munmap_memseg(0x2000, 0x1000)), Err(Error::Channel(libc::EINVAL)));
    assert_eq!(peer.mappings.len(), 1);
    assert_eq!(drive(&mut peer, vm.munmap_memseg(0x1000, 0x2000)), Ok(Output::Done));
    assert!(peer.mappings.is_empty());
}

#[test]
fn get_memseg_reports_length_and_name() {
    let (mut peer, vm) = setup_vm("t1");
    match drive(&mut peer, vm.get_memseg(MemSegId::VM_BOOTROM)) {
        Ok(Output::Segment(segment)) => {
            assert_eq!(segment.segid, 2);
            assert_eq!(segment.len, 0);
            assert_eq!(segment.name_len(), 0);
        }
        other => panic!("unexpected {:?}", other),
    }
    drive(&mut peer, vm.alloc_memseg(MemSegId::VM_BOOTROM, MB, "bootrom")).expect("allocate");
    match drive(&mut peer, vm.get_memseg(MemSegId::VM_BOOTROM)) {
        Ok(Output::Segment(segment)) => {
            assert_eq!(segment.segid, 2);
            assert_eq!(segment.len, MB);
            assert_eq!(&segment.name[..8], b"bootrom\0");
        }
        other => panic!("unexpected {:?}", other),
    }
}

#[test]
fn bootrom_is_bounded_by_a_page_and_sixteen_mebibytes() {
    let (mut peer, vm) = setup_vm("t1");
    for len in [0usize, 1, 4095, 16 * MB + 1, 17 * MB, usize::MAX] {
        let op = vm.setup_bootrom(0x7000_0000, len, 4096);
        assert!(op.command().is_none(), "{}", len);
        assert_eq!(op.outcome(), Some(Err(Error::InvalidInput)), "{}", len);
        assert_eq!(drive(&mut peer, vm.setup_bootrom(0x7000_0000, len, 4096)), Err(Error::InvalidInput));
    }
    assert!(peer.log.is_empty());
    assert!(peer.segments.is_empty());
    assert!(peer.mappings.is_empty());
    assert!(peer.host_maps.is_empty());
    // the page size is the host's: a length that one host takes another refuses
    assert!(vm.setup_bootrom(0, 4096, 8192).command().is_none());
    assert!(vm.setup_bootrom(0, 8192, 8192).command().is_some());
}

#[test]
fn bootrom_of_one_page_is_set_up() {
    let (mut peer, vm) = setup_vm("t1");
    assert_eq!(drive(&mut peer, vm.setup_bootrom(0x7000_0000, 4096, 4096)), Ok(Output::Done));
    let mut name = vec![0u8; 64];
    name[..7].copy_from_slice(b"bootrom");
    assert_eq!(peer.segments.get(&2), Some(&(4096, name)));
    assert_eq!(
        peer.host_maps,
        vec![host_map {
            base: 0x7000_0000,
            len: 4096,
            prot: libc::PROT_READ | libc::PROT_WRITE,
            flags: libc::MAP_SHARED | libc::MAP_FIXED,
            offset: 0x20000,
        }]
    );
    assert_eq!(
        peer.mappings.get(&0xffff_f000),
        Some(&Mapping {
            segid: 2,
            segoff: 0,
            len: 4096,
            prot: libc::PROT_READ | libc::PROT_EXEC,
            flags: 0,
        })
    );
    // lookup, allocation, offset, host mapping, lookup, mapping
    assert_eq!(peer.log, vec![0xc050760f, 0x8050760e, 0x80107700, 0, 0xc0287611, 0x80287610]);
}

#[test]
fn bootrom_of_sixteen_mebibytes_ends_at_four_gibibytes() {
    let (mut peer, vm) = setup_vm("t1");
    assert_eq!(drive(&mut peer, vm.setup_bootrom(0x7000_0000, 16 * MB, 4096)), Ok(Output::Done));
    assert_eq!(peer.mappings.keys().copied().collect::<Vec<u64>>(), vec![0xff00_0000]);
}

#[test]
fn bootrom_set_up_twice_sends_no_second_allocation_or_mapping() {
    let (mut peer, vm) = setup_vm("t1");
    drive(&mut peer, vm.setup_bootrom(0x7000_0000, 8192, 4096)).expect("first");
    assert_eq!(drive(&mut peer, vm.setup_bootrom(0x7000_0000, 8192, 4096)), Ok(Output::Done));
    assert_eq!(peer.sent(0x8050760e), 1);
    assert_eq!(peer.sent(0x80287610), 1);
    assert_eq!(peer.host_maps.len(), 2);
    // another length conflicts with the segment that is there
    assert_eq!(drive(&mut peer, vm.setup_bootrom(0x7000_0000, 4096, 4096)), Err(Error::Conflict));
}

#[test]
fn device_memory_stops_at_the_first_failure() {
    let (mut peer, vm) = setup_vm("t1");
    peer.host_map_fails = true;
    assert_eq!(
        drive(&mut peer, vm.add_devmem(MemSegId::VM_FRAMEBUFFER, "fb", 0x6000_0000, MB)),
        Err(Error::AddressUnavailable)
    );
    // the allocation stays
    assert!(peer.segments.contains_key(&3));
    peer.host_map_fails = false;
    assert_eq!(
        drive(&mut peer, vm.add_devmem(MemSegId::VM_FRAMEBUFFER, "fb", 0x6000_0000, MB)),
        Ok(Output::Done)
    );
    assert_eq!(peer.host_maps.len(), 1);
    assert_eq!(peer.host_maps[0].offset, 0x30000);
    assert_eq!(peer.sent(0x8050760e), 1);
    // a failing offset request ends the operation before the host mapping
    peer.fail_at = Some(peer.log.len() + 1);
    assert_eq!(
        drive(&mut peer, vm.add_devmem(MemSegId::VM_FRAMEBUFFER, "fb", 0x6000_0000, MB)),
        Err(Error::Channel(libc::EIO))
    );
    assert_eq!(peer.host_maps.len(), 1);
    assert_eq!(
        drive(&mut peer, vm.add_devmem(MemSegId::VM_FRAMEBUFFER, "f\0b", 0x6000_0000, MB)),
        Err(Error::InvalidInput)
    );
}

#[test]
fn device_memory_offset_is_resolved() {
    let (mut peer, vm) = setup_vm("t1");
    assert_eq!(
        drive(&mut peer, vm.get_devmem_offset(MemSegId::VM_BOOTROM)),
        Err(Error::Channel(libc::ENOENT))
    );
    drive(&mut peer, vm.alloc_memseg(MemSegId::VM_BOOTROM, MB, "bootrom")).expect("allocate");
    assert_eq!(drive(&mut peer, vm.get_devmem_offset(MemSegId::VM_BOOTROM)), Ok(Output::Offset(0x20000)));
}

#[test]
fn lowmem_is_bounded_by_the_limit() {
    let (mut peer, mut vm) = setup_vm("t1");
    vm.lowmem_limit = 8 * MB;
    let op = vm.setup_lowmem(0x1_0000_0000, 8 * MB + 1);
    assert!(op.command().is_none());
    assert_eq!(op.outcome(), Some(Err(Error::InvalidInput)));
    assert!(peer.log.is_empty());
    assert_eq!(drive(&mut peer, vm.setup_lowmem(0x1_0000_0000, 8 * MB)), Ok(Output::Done));
    assert_eq!(peer.segments.get(&0).map(|s| s.0), Some((8 * MB) as u64));
    assert_eq!(
        peer.mappings.get(&0),
        Some(&Mapping {
            segid: 0,
            segoff: 0,
            len: (8 * MB) as u64,
            prot: libc::PROT_READ | libc::PROT_WRITE | libc::PROT_EXEC,
            flags: 0,
        })
    );
    assert_eq!(
        peer.host_maps,
        vec![host_map {
            base: 0x1_0000_0000,
            len: 8 * MB,
            prot: libc::PROT_READ | libc::PROT_WRITE,
            flags: libc::MAP_SHARED | libc::MAP_FIXED,
            offset: 0,
        }]
    );
}

#[test]
fn lowmem_host_mapping_failure_is_address_unavailable() {
    let (mut peer, vm) = setup_vm("t1");
    peer.host_map_fails = true;
    assert_eq!(drive(&mut peer, vm.setup_lowmem(0x1_0000_0000, MB)), Err(Error::AddressUnavailable));
    assert!(peer.segments.contains_key(&0));
    assert!(peer.mappings.contains_key(&0));
}

#[test]
fn highmem_starts_at_four_gibibytes() {
    let (mut peer, vm) = setup_vm("t1");
    drive(&mut peer, vm.setup_lowmem(0x1_0000_0000, 4 * MB)).expect("low memory");
    assert_eq!(drive(&mut peer, vm.setup_highmem(0x2_0000_0000, 2 * MB)), Ok(Output::Done));
    assert_eq!(peer.segments.get(&1).map(|s| s.0), Some((2 * MB) as u64));
    assert_eq!(
        peer.mappings.get(&0x1_0000_0000),
        Some(&Mapping {
            segid: 0,
            segoff: 0,
            len: (2 * MB) as u64,
            prot: libc::PROT_READ | libc::PROT_WRITE | libc::PROT_EXEC,
            flags: 0,
        })
    );
    assert_eq!(peer.host_maps.len(), 2);
    assert_eq!(peer.host_maps[1].base, 0x2_0000_0000);
}

#[test]
fn reset_leaves_the_power_up_state() {
    let (mut peer, vm) = setup_vm("t1");
    // stale values, to see that the reset overwrites them
    for reg in [
        vm_reg_name::VM_REG_GUEST_CS,
        vm_reg_name::VM_REG_GUEST_RIP,
        vm_reg_name::VM_REG_GUEST_RDX,
        vm_reg_name::VM_REG_GUEST_RAX,
        vm_reg_name::VM_REG_GUEST_R8,
        vm_reg_name::VM_REG_GUEST_R15,
    ] {
        set_register(&mut peer, &vm, reg, 0xdead).expect("set");
    }
    set_register(&mut peer, &vm, vm_reg_name::VM_REG_GUEST_R9, 1300).expect("set");
    assert_eq!(drive(&mut peer, vm.vcpu_reset(TEST_CPUID)), Ok(Output::Done));
    let p = &mut peer;
    assert_eq!(get_register(p, &vm, vm_reg_name::VM_REG_GUEST_CS), Ok(0xf000));
    assert_eq!(get_register(p, &vm, vm_reg_name::VM_REG_GUEST_RIP), Ok(0xfff0));
    assert_eq!(get_register(p, &vm, vm_reg_name::VM_REG_GUEST_CR0), Ok(0x20));
    assert_eq!(get_register(p, &vm, vm_reg_name::VM_REG_GUEST_CR0), Ok(CR0_NE));
    assert_eq!(get_register(p, &vm, vm_reg_name::VM_REG_GUEST_RDX), Ok(0xf00));
    assert_eq!(get_register(p, &vm, vm_reg_name::VM_REG_GUEST_RFLAGS), Ok(0x2));
    assert_eq!(get_register(p, &vm, vm_reg_name::VM_REG_GUEST_CR3), Ok(0));
    assert_eq!(get_register(p, &vm, vm_reg_name::VM_REG_GUEST_CR4), Ok(0));
    for reg in [
        vm_reg_name::VM_REG_GUEST_SS,
        vm_reg_name::VM_REG_GUEST_DS,
        vm_reg_name::VM_REG_GUEST_ES,
        vm_reg_name::VM_REG_GUEST_FS,
        vm_reg_name::VM_REG_GUEST_GS,
    ] {
        assert_eq!(get_register(p, &vm, reg), Ok(0));
        assert_eq!(get_desc(p, &vm, reg), Ok((0, 0xffff, 0x93)));
    }
    for reg in [
        vm_reg_name::VM_REG_GUEST_RAX,
        vm_reg_name::VM_REG_GUEST_RBX,
        vm_reg_name::VM_REG_GUEST_RCX,
        vm_reg_name::VM_REG_GUEST_RSI,
        vm_reg_name::VM_REG_GUEST_RDI,
        vm_reg_name::VM_REG_GUEST_RBP,
        vm_reg_name::VM_REG_GUEST_RSP,
        vm_reg_name::VM_REG_GUEST_R8,
        vm_reg_name::VM_REG_GUEST_R9,
        vm_reg_name::VM_REG_GUEST_R10,
        vm_reg_name::VM_REG_GUEST_R11,
        vm_reg_name::VM_REG_GUEST_R12,
        vm_reg_name::VM_REG_GUEST_R13,
        vm_reg_name::VM_REG_GUEST_R14,
        vm_reg_name::VM_REG_GUEST_R15,
        vm_reg_name::VM_REG_GUEST_TR,
        vm_reg_name::VM_REG_GUEST_LDTR,
    ] {
        assert_eq!(get_register(p, &vm, reg), Ok(0));
    }
    assert_eq!(get_desc(p, &vm, vm_reg_name::VM_REG_GUEST_CS), Ok((0xffff0000, 0xffff, 0x93)));
    assert_eq!(get_desc(p, &vm, vm_reg_name::VM_REG_GUEST_GDTR), Ok((0, 0xffff, 0)));
    assert_eq!(get_desc(p, &vm, vm_reg_name::VM_REG_GUEST_IDTR), Ok((0, 0xffff, 0)));
    assert_eq!(get_desc(p, &vm, vm_reg_name::VM_REG_GUEST_TR), Ok((0, 0, 0x8b)));
    assert_eq!(get_desc(p, &vm, vm_reg_name::VM_REG_GUEST_LDTR), Ok((0, 0xffff, 0x82)));
}

#[test]
fn reset_sends_its_writes_in_order() {
    let (mut peer, vm) = setup_vm("t1");
    drive(&mut peer, vm.vcpu_reset(3)).expect("reset");
    let set_register = 0x80107614u32;
    let set_descriptor = 0x80187616u32;
    let mut expected = vec![set_register; 5];
    expected.push(set_descriptor);
    expected.push(set_register);
    expected.extend(vec![set_descriptor; 5]);
    expected.extend(vec![set_register; 5]);
    // the sixteen general-purpose registers
    expected.extend(vec![set_register; 16]);
    expected.extend(vec![set_descriptor; 2]);
    expected.extend(vec![set_descriptor, set_register, set_descriptor, set_register]);
    assert_eq!(peer.log, expected);
    assert_eq!(peer.log.len(), 39);
    assert!(peer.registers.keys().all(|key| key.0 == 3));
    assert!(peer.descriptors.keys().all(|key| key.0 == 3));
}

#[test]
fn reset_stops_at_the_first_write_that_fails() {
    let (mut peer, vm) = setup_vm("t1");
    peer.fail_at = Some(6);
    assert_eq!(drive(&mut peer, vm.vcpu_reset(TEST_CPUID)), Err(Error::Channel(libc::EIO)));
    // the seventh write failed: six are in effect, none was sent after it
    assert_eq!(peer.log.len(), 7);
    assert_eq!(peer.registers.len(), 5);
    assert_eq!(peer.descriptors.len(), 1);
    assert_eq!(peer.registers.get(&(0, vm_reg_name::VM_REG_GUEST_RIP.code())), Some(&0xfff0));
    assert_eq!(peer.registers.get(&(0, vm_reg_name::VM_REG_GUEST_CS.code())), None);
}

#[test]
fn vcpu_index_must_be_one_a_machine_can_have() {
    let (mut peer, vm) = setup_vm("t1");
    for vcpu in [-1, 32, 33, i32::MIN, i32::MAX] {
        assert_eq!(drive(&mut peer, vm.vcpu_reset(vcpu)), Err(Error::InvalidInput));
        assert_eq!(drive(&mut peer, vm.run(vcpu)), Err(Error::InvalidInput));
        assert_eq!(
            drive(&mut peer, vm.set_register(vcpu, vm_reg_name::VM_REG_GUEST_RAX, 1)),
            Err(Error::InvalidInput)
        );
        assert_eq!(
            drive(&mut peer, vm.get_register(vcpu, vm_reg_name::VM_REG_GUEST_RAX)),
            Err(Error::InvalidInput)
        );
        assert_eq!(
            drive(&mut peer, vm.set_desc(vcpu, vm_reg_name::VM_REG_GUEST_CS, 0, 0, 0)),
            Err(Error::InvalidInput)
        );
        assert_eq!(
            drive(&mut peer, vm.get_desc(vcpu, vm_reg_name::VM_REG_GUEST_CS)),
            Err(Error::InvalidInput)
        );
        assert_eq!(drive(&mut peer, vm.get_stats(vcpu)), Err(Error::InvalidInput));
        assert_eq!(drive(&mut peer, vm.activate_vcpu(vcpu)), Err(Error::InvalidInput));
        assert_eq!(drive(&mut peer, vm.suspend_vcpu(vcpu)), Err(Error::InvalidInput));
        assert_eq!(drive(&mut peer, vm.resume_vcpu(vcpu)), Err(Error::InvalidInput));
        assert_eq!(drive(&mut peer, vm.set_x2apic_state(vcpu, true)), Err(Error::InvalidInput));
        assert_eq!(drive(&mut peer, vm.get_x2apic_state(vcpu)), Err(Error::InvalidInput));
        assert_eq!(
            drive(&mut peer, vm.get_capability(vcpu, vm_cap_type::VM_CAP_HALT_EXIT)),
            Err(Error::InvalidInput)
        );
        assert_eq!(
            drive(&mut peer, vm.set_capability(vcpu, vm_cap_type::VM_CAP_HALT_EXIT, 1)),
            Err(Error::InvalidInput)
        );
    }
    assert!(peer.log.is_empty());
    assert_eq!(drive(&mut peer, vm.activate_vcpu(31)), Ok(Output::Done));
    assert_eq!(drive(&mut peer, vm.activate_vcpu(0)), Ok(Output::Done));
    assert_eq!(peer.active, vec![31, 0]);
}

fn exit_record(exitcode: i32, payload: &[u8]) -> Vec<u8> {
    // exit code, instruction length, instruction pointer, payload
    let mut exit = vec![0u8; 136];
    put(&mut exit, 0, &exitcode.to_le_bytes());
    put(&mut exit, 4, &1i32.to_le_bytes());
    put(&mut exit, 8, &0xfff7u64.to_le_bytes());
    put(&mut exit, 16, payload);
    exit
}

#[test]
fn bring_up_run_to_port_output_and_halt() {
    let vm_name = "t1";
    let vmmctl = bhyve_api::system::VMMSystem::new();
    assert!(vmmctl.create_vm(vm_name).is_ok());
    let (mut peer, vm) = setup_vm(vm_name);

    // 20 MiB of low memory at guest-physical address zero
    assert_eq!(drive(&mut peer, vm.setup_lowmem(0x1_0000_0000, 20 * MB)), Ok(Output::Done));
    assert_eq!(peer.mappings.get(&0).map(|m| m.len), Some((20 * MB) as u64));

    // the guest would add BL to AL, add '0' and write AL to port 0x3f8, then halt;
    // the stand-in has its exits ready, the last first
    let mut out = vec![0u8; 8];
    out[0] = 0x01;
    put(&mut out, 2, &0x3f8u16.to_le_bytes());
    put(&mut out, 4, &(2u32 + 3 + b'0' as u32).to_le_bytes());
    peer.exits = vec![exit_record(5, &[]), exit_record(0, &out)];

    assert_eq!(drive(&mut peer, vm.vcpu_reset(0)), Ok(Output::Done));
    set_register(&mut peer, &vm, vm_reg_name::VM_REG_GUEST_RAX, 2).expect("failed to set RAX register");
    set_register(&mut peer, &vm, vm_reg_name::VM_REG_GUEST_RBX, 3).expect("failed to set RBX register");

    match drive(&mut peer, vm.run(0)) {
        Ok(Output::Exit(VmExit::InOut(port, eax))) => {
            assert_eq!(port, 0x3f8);
            assert_eq!(eax, 53);
            assert_eq!(eax, b'5' as u32);
        }
        other => panic!("unexpected {:?}", other),
    }
    assert_eq!(drive(&mut peer, vm.run(0)), Ok(Output::Exit(VmExit::Halt)));
    // a run that the peer refuses
    assert_eq!(drive(&mut peer, vm.run(0)), Err(Error::Channel(libc::EINVAL)));
    assert!(vmmctl.destroy_vm(vm_name).is_ok());
}

#[test]
fn machine_wide_requests() {
    let (mut peer, vm) = setup_vm("t1");
    assert_eq!(drive(&mut peer, vm.reinit()), Ok(Output::Status(0)));
    assert_eq!(drive(&mut peer, vm.reset()), Ok(Output::Status(0)));
    assert_eq!(drive(&mut peer, vm.poweroff()), Ok(Output::Status(0)));
    assert_eq!(drive(&mut peer, vm.halt()), Ok(Output::Status(0)));
    assert_eq!(drive(&mut peer, vm.triplefault()), Ok(Output::Status(0)));
    // reset, power off, halt, triple fault
    assert_eq!(peer.suspended, vec![1, 2, 3, 4]);
    assert_eq!(peer.log, vec![0x20007605, 0x80047604, 0x80047604, 0x80047604, 0x80047604]);
    peer.fail_at = Some(peer.log.len());
    assert_eq!(drive(&mut peer, vm.reinit()), Err(Error::Channel(libc::EIO)));
}

#[test]
fn topology_statistics_and_cpu_requests() {
    let (mut peer, vm) = setup_vm("t1");
    assert_eq!(drive(&mut peer, vm.set_topology(1, 2, 3)), Ok(Output::Done));
    assert_eq!(drive(&mut peer, vm.get_topology()), Ok(Output::Topology(1, 2, 3, 32)));
    assert_eq!(drive(&mut peer, vm.get_stats(0)), Ok(Output::Entries(12)));
    assert_eq!(drive(&mut peer, vm.suspend_vcpu(1)), Ok(Output::Done));
    assert_eq!(drive(&mut peer, vm.resume_vcpu(1)), Ok(Output::Done));
    assert_eq!(peer.log[3..], [0x8004765c, 0x8004765d]);
}

#[test]
fn x2apic_state_is_read_as_on_or_off() {
    let (mut peer, vm) = setup_vm("t1");
    assert_eq!(drive(&mut peer, vm.get_x2apic_state(0)), Ok(Output::X2apic(false)));
    assert_eq!(drive(&mut peer, vm.set_x2apic_state(0, true)), Ok(Output::Done));
    assert_eq!(peer.x2apic.get(&0), Some(&1));
    assert_eq!(drive(&mut peer, vm.get_x2apic_state(0)), Ok(Output::X2apic(true)));
    assert_eq!(drive(&mut peer, vm.set_x2apic_state(0, false)), Ok(Output::Done));
    assert_eq!(peer.x2apic.get(&0), Some(&0));
    assert_eq!(drive(&mut peer, vm.get_x2apic_state(0)), Ok(Output::X2apic(false)));
    // the end marker of the enumeration, and numbers outside it, are no state
    for state in [2, 3, -1] {
        peer.x2apic.insert(0, state);
        assert_eq!(drive(&mut peer, vm.get_x2apic_state(0)), Err(Error::InvalidData));
    }
}

#[test]
fn capabilities_are_set_and_read() {
    let (mut peer, vm) = setup_vm("t1");
    assert_eq!(
        drive(&mut peer, vm.get_capability(0, vm_cap_type::VM_CAP_HALT_EXIT)),
        Err(Error::Channel(libc::ENOENT))
    );
    assert_eq!(
        drive(&mut peer, vm.set_capability(0, vm_cap_type::VM_CAP_UNRESTRICTED_GUEST, 1)),
        Ok(Output::Done)
    );
    assert_eq!(drive(&mut peer, vm.set_capability(0, vm_cap_type::VM_CAP_HALT_EXIT, -5)), Ok(Output::Done));
    assert_eq!(peer.capabilities.get(&(0, 3)), Some(&1));
    assert_eq!(
        drive(&mut peer, vm.get_capability(0, vm_cap_type::VM_CAP_HALT_EXIT)),
        Ok(Output::Capability(-5))
    );
}

#[test]
fn real_time_clock() {
    let (mut peer, vm) = setup_vm("t1");
    assert_eq!(drive(&mut peer, vm.rtc_write(0x34, 0x40)), Ok(Output::Done));
    assert_eq!(drive(&mut peer, vm.rtc_read(0x34)), Ok(Output::RtcByte(0x40)));
    assert_eq!(drive(&mut peer, vm.rtc_read(0x35)), Ok(Output::RtcByte(0)));
    assert_eq!(drive(&mut peer, vm.rtc_settime(-86400)), Ok(Output::Done));
    assert_eq!(peer.rtc_secs, -86400);
    assert_eq!(drive(&mut peer, vm.rtc_gettime()), Ok(Output::RtcTime(-86400)));
    assert_eq!(drive(&mut peer, vm.rtc_settime(1_600_000_000)), Ok(Output::Done));
    assert_eq!(drive(&mut peer, vm.rtc_gettime()), Ok(Output::RtcTime(1_600_000_000)));
}

#[test]
fn replies_too_short_to_read_are_invalid_data() {
    let (mut peer, vm) = setup_vm("t1");
    peer.short_replies = true;
    peer.exits = vec![exit_record(5, &[])];
    assert_eq!(drive(&mut peer, vm.get_register(0, vm_reg_name::VM_REG_GUEST_RAX)), Err(Error::InvalidData));
    assert_eq!(drive(&mut peer, vm.get_desc(0, vm_reg_name::VM_REG_GUEST_CS)), Err(Error::InvalidData));
    assert_eq!(drive(&mut peer, vm.get_memseg(MemSegId::VM_LOWMEM)), Err(Error::InvalidData));
    assert_eq!(drive(&mut peer, vm.alloc_memseg(MemSegId::VM_LOWMEM, MB, "")), Err(Error::InvalidData));
    assert_eq!(drive(&mut peer, vm.get_topology()), Err(Error::InvalidData));
    assert_eq!(drive(&mut peer, vm.get_stats(0)), Err(Error::InvalidData));
    assert_eq!(drive(&mut peer, vm.get_x2apic_state(0)), Err(Error::InvalidData));
    assert_eq!(drive(&mut peer, vm.rtc_read(0)), Err(Error::InvalidData));
    assert_eq!(drive(&mut peer, vm.rtc_gettime()), Err(Error::InvalidData));
    assert_eq!(drive(&mut peer, vm.run(0)), Err(Error::InvalidData));
    // a request that asks for nothing needs no record back
    assert_eq!(drive(&mut peer, vm.set_register(0, vm_reg_name::VM_REG_GUEST_RAX, 1)), Ok(Output::Done));
}

#[test]
fn reset_clears_every_general_purpose_register_but_rdx() {
    let (mut peer, vm) = setup_vm("t1");
    let general = [
        vm_reg_name::VM_REG_GUEST_RAX,
        vm_reg_name::VM_REG_GUEST_RBX,
        vm_reg_name::VM_REG_GUEST_RCX,
        vm_reg_name::VM_REG_GUEST_RDX,
        vm_reg_name::VM_REG_GUEST_RSI,
        vm_reg_name::VM_REG_GUEST_RDI,
        vm_reg_name::VM_REG_GUEST_RBP,
        vm_reg_name::VM_REG_GUEST_RSP,
        vm_reg_name::VM_REG_GUEST_R8,
        vm_reg_name::VM_REG_GUEST_R9,
        vm_reg_name::VM_REG_GUEST_R10,
        vm_reg_name::VM_REG_GUEST_R11,
        vm_reg_name::VM_REG_GUEST_R12,
        vm_reg_name::VM_REG_GUEST_R13,
        vm_reg_name::VM_REG_GUEST_R14,
        vm_reg_name::VM_REG_GUEST_R15,
    ];
    for (i, reg) in general.iter().enumerate() {
        set_register(&mut peer, &vm, *reg, 1300 + i as u64).expect("set");
    }
    // another CPU, which the reset must leave alone
    drive(&mut peer, vm.set_register(1, vm_reg_name::VM_REG_GUEST_R8, 1300)).expect("set");
    assert_eq!(drive(&mut peer, vm.vcpu_reset(TEST_CPUID)), Ok(Output::Done));
    for reg in general {
        let expected = if reg == vm_reg_name::VM_REG_GUEST_RDX { 0xf00 } else { 0 };
        assert_eq!(get_register(&mut peer, &vm, reg), Ok(expected), "{:?}", reg);
    }
    assert_eq!(
        drive(&mut peer, vm.get_register(1, vm_reg_name::VM_REG_GUEST_R8)),
        Ok(Output::Register(1300))
    );
}
