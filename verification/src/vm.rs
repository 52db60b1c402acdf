//! One virtual machine: its handle, its memory segments and its exits.
use vstd::prelude::*;
use vstd::string::StringExecFns;
use vstd::string::StringSliceAdditionalSpecFns;
use crate::error::Error;
use crate::host::HostFlags;
use crate::operation::{host_map, Operation, OperationView, Request, Stage};
use crate::specialreg::CR0_NE;
use crate::vmm::{
    seg_desc, vm_cap_type, vm_exit, vm_exit_suspended, vm_exitcode, vm_reg_name, vm_suspend_how,
    x2apic_state, VM_MAXCPU,
};
use crate::vmm_dev::{
    is_c_string, vm_activate_cpu, vm_capability, vm_cpu_topology, vm_memmap, vm_memseg, vm_munmap,
    vm_register, vm_rtc_data, vm_rtc_time, vm_seg_desc, vm_suspend, vm_x2apic, VM_MEMMAP_F_WIRED,
};

verus! {

/// One mebibyte.
pub const MB: u64 = 1024 * 1024;

/// One gibibyte.
pub const GB: u64 = 1024 * MB;

/// Largest boot ROM: larger ones would reach into the address range kept
/// for memory-mapped devices below 4 GiB.
pub const MAX_BOOTROM_SIZE: usize = 16 * 1024 * 1024;

/// Flag of a machine's memory: guest memory is wired, so it is never paged
/// out.
pub const VM_MEM_F_WIRED: i32 = 0x02;

/// The memory segments of a machine, system memory and device memory alike.
#[derive(Clone, Copy, Debug, PartialEq, Eq, Structural)]
pub enum MemSegId {
    VM_LOWMEM,
    VM_HIGHMEM,
    VM_BOOTROM,
    VM_FRAMEBUFFER,
}

impl MemSegId {
    /// The number that stands for the segment in a record.
    pub open spec fn spec_code(self) -> i32 {
        match self {
            MemSegId::VM_LOWMEM => 0,
            MemSegId::VM_HIGHMEM => 1,
            MemSegId::VM_BOOTROM => 2,
            MemSegId::VM_FRAMEBUFFER => 3,
        }
    }

    /// The number that stands for the segment in a record.
    pub fn code(self) -> (r: i32)
        ensures
            r == self.spec_code(),
    {
        match self {
            MemSegId::VM_LOWMEM => 0,
            MemSegId::VM_HIGHMEM => 1,
            MemSegId::VM_BOOTROM => 2,
            MemSegId::VM_FRAMEBUFFER => 3,
        }
    }
}

/// Why a virtual CPU gave control back, with what the controlling process
/// needs of the exit's payload.
#[derive(Clone, Copy, Debug, PartialEq, Eq, Structural)]
pub enum VmExit {
    /// Port I/O: the port and the accumulator.
    InOut(u16, u32),
    /// An exit with no better description: the status, the exit reason, the
    /// exit qualification, the instruction type and the instruction error.
    Vmx(i32, u32, u64, i32, i32),
    /// Nothing happened that the process has to act on, or the record could
    /// not be understood.
    Bogus,
    RdMsr,
    WrMsr,
    Halt,
    Mtrap,
    Pause,
    Paging,
    InstEmul,
    SpinupAp,
    Deprecated,
    RunBlock,
    IoApicEoi,
    /// The machine was suspended, for this reason.
    Suspended(vm_suspend_how),
    /// String port I/O: the port and the accumulator.
    InOutStr(u16, u32),
    TaskSwitch,
    Monitor,
    Mwait,
    Svm,
    ReqIdle,
    Debug,
    VmInsn,
    Ht,
    Max,
}

impl VmExit {
    /// The exit code that this kind of exit is reported with.
    pub open spec fn spec_exitcode(self) -> vm_exitcode {
        match self {
            VmExit::InOut(_, _) => vm_exitcode::VM_EXITCODE_INOUT,
            VmExit::Vmx(_, _, _, _, _) => vm_exitcode::VM_EXITCODE_VMX,
            VmExit::Bogus => vm_exitcode::VM_EXITCODE_BOGUS,
            VmExit::RdMsr => vm_exitcode::VM_EXITCODE_RDMSR,
            VmExit::WrMsr => vm_exitcode::VM_EXITCODE_WRMSR,
            VmExit::Halt => vm_exitcode::VM_EXITCODE_HLT,
            VmExit::Mtrap => vm_exitcode::VM_EXITCODE_MTRAP,
            VmExit::Pause => vm_exitcode::VM_EXITCODE_PAUSE,
            VmExit::Paging => vm_exitcode::VM_EXITCODE_PAGING,
            VmExit::InstEmul => vm_exitcode::VM_EXITCODE_INST_EMUL,
            VmExit::SpinupAp => vm_exitcode::VM_EXITCODE_SPINUP_AP,
            VmExit::Deprecated => vm_exitcode::VM_EXITCODE_DEPRECATED1,
            VmExit::RunBlock => vm_exitcode::VM_EXITCODE_RUNBLOCK,
            VmExit::IoApicEoi => vm_exitcode::VM_EXITCODE_IOAPIC_EOI,
            VmExit::Suspended(_) => vm_exitcode::VM_EXITCODE_SUSPENDED,
            VmExit::InOutStr(_, _) => vm_exitcode::VM_EXITCODE_INOUT_STR,
            VmExit::TaskSwitch => vm_exitcode::VM_EXITCODE_TASK_SWITCH,
            VmExit::Monitor => vm_exitcode::VM_EXITCODE_MONITOR,
            VmExit::Mwait => vm_exitcode::VM_EXITCODE_MWAIT,
            VmExit::Svm => vm_exitcode::VM_EXITCODE_SVM,
            VmExit::ReqIdle => vm_exitcode::VM_EXITCODE_REQIDLE,
            VmExit::Debug => vm_exitcode::VM_EXITCODE_DEBUG,
            VmExit::VmInsn => vm_exitcode::VM_EXITCODE_VMINSN,
            VmExit::Ht => vm_exitcode::VM_EXITCODE_HT,
            VmExit::Max => vm_exitcode::VM_EXITCODE_MAX,
        }
    }

    /// Whether an exit record cannot be understood: its exit code names no
    /// kind of exit, or it reports a suspension for a reason that is none.
    pub open spec fn spec_unreadable(exit: vm_exit) -> bool {
        ||| forall|c: vm_exitcode| c.spec_code() != exit.exitcode
        ||| exit.exitcode == vm_exitcode::VM_EXITCODE_SUSPENDED.spec_code()
            && exit.u.spec_suspended() is None
    }

    /// Whether `self` is what the exit record `exit` says: `Bogus` if the
    /// record cannot be understood, and else the kind that the record's exit
    /// code names, with the fields of the payload that belongs to the kind.
    pub open spec fn spec_decodes(self, exit: vm_exit) -> bool {
        &&& if VmExit::spec_unreadable(exit) {
            self == VmExit::Bogus
        } else {
            self.spec_exitcode().spec_code() == exit.exitcode
        }
        &&& self matches VmExit::Suspended(how) ==> exit.u.spec_suspended() == Some(
            vm_exit_suspended { how },
        )
        &&& self matches VmExit::InOut(port, eax) ==> port == exit.u.spec_inout().port && eax
            == exit.u.spec_inout().eax
        &&& self matches VmExit::InOutStr(port, eax) ==> port == exit.u.spec_inout().port && eax
            == exit.u.spec_inout().eax
        &&& self matches VmExit::Vmx(status, reason, qualification, inst_type, inst_error) ==> {
            let vmx = exit.u.spec_vmx();
            &&& status == vmx.status
            &&& reason == vmx.exit_reason
            &&& qualification == vmx.exit_qualification
            &&& inst_type == vmx.inst_type
            &&& inst_error == vmx.inst_error
        }
    }

    /// The exit that a record describes: the kind that the exit code names,
    /// with the fields of the payload that belongs to it, and `Bogus` for a
    /// code that names no kind and for a suspension without a reason.
    pub open spec fn spec_from_exit(exit: vm_exit) -> VmExit {
        if exit.exitcode == vm_exitcode::VM_EXITCODE_INOUT.spec_code() {
            VmExit::InOut(exit.u.spec_inout().port, exit.u.spec_inout().eax)
        } else if exit.exitcode == vm_exitcode::VM_EXITCODE_VMX.spec_code() {
            VmExit::Vmx(
                exit.u.spec_vmx().status,
                exit.u.spec_vmx().exit_reason,
                exit.u.spec_vmx().exit_qualification,
                exit.u.spec_vmx().inst_type,
                exit.u.spec_vmx().inst_error,
            )
        } else if exit.exitcode == vm_exitcode::VM_EXITCODE_BOGUS.spec_code() {
            VmExit::Bogus
        } else if exit.exitcode == vm_exitcode::VM_EXITCODE_RDMSR.spec_code() {
            VmExit::RdMsr
        } else if exit.exitcode == vm_exitcode::VM_EXITCODE_WRMSR.spec_code() {
            VmExit::WrMsr
        } else if exit.exitcode == vm_exitcode::VM_EXITCODE_HLT.spec_code() {
            VmExit::Halt
        } else if exit.exitcode == vm_exitcode::VM_EXITCODE_MTRAP.spec_code() {
            VmExit::Mtrap
        } else if exit.exitcode == vm_exitcode::VM_EXITCODE_PAUSE.spec_code() {
            VmExit::Pause
        } else if exit.exitcode == vm_exitcode::VM_EXITCODE_PAGING.spec_code() {
            VmExit::Paging
        } else if exit.exitcode == vm_exitcode::VM_EXITCODE_INST_EMUL.spec_code() {
            VmExit::InstEmul
        } else if exit.exitcode == vm_exitcode::VM_EXITCODE_SPINUP_AP.spec_code() {
            VmExit::SpinupAp
        } else if exit.exitcode == vm_exitcode::VM_EXITCODE_DEPRECATED1.spec_code() {
            VmExit::Deprecated
        } else if exit.exitcode == vm_exitcode::VM_EXITCODE_RUNBLOCK.spec_code() {
            VmExit::RunBlock
        } else if exit.exitcode == vm_exitcode::VM_EXITCODE_IOAPIC_EOI.spec_code() {
            VmExit::IoApicEoi
        } else if exit.exitcode == vm_exitcode::VM_EXITCODE_SUSPENDED.spec_code() {
            match exit.u.spec_suspended() {
                Some(suspended) => VmExit::Suspended(suspended.how),
                None => VmExit::Bogus,
            }
        } else if exit.exitcode == vm_exitcode::VM_EXITCODE_INOUT_STR.spec_code() {
            VmExit::InOutStr(exit.u.spec_inout().port, exit.u.spec_inout().eax)
        } else if exit.exitcode == vm_exitcode::VM_EXITCODE_TASK_SWITCH.spec_code() {
            VmExit::TaskSwitch
        } else if exit.exitcode == vm_exitcode::VM_EXITCODE_MONITOR.spec_code() {
            VmExit::Monitor
        } else if exit.exitcode == vm_exitcode::VM_EXITCODE_MWAIT.spec_code() {
            VmExit::Mwait
        } else if exit.exitcode == vm_exitcode::VM_EXITCODE_SVM.spec_code() {
            VmExit::Svm
        } else if exit.exitcode == vm_exitcode::VM_EXITCODE_REQIDLE.spec_code() {
            VmExit::ReqIdle
        } else if exit.exitcode == vm_exitcode::VM_EXITCODE_DEBUG.spec_code() {
            VmExit::Debug
        } else if exit.exitcode == vm_exitcode::VM_EXITCODE_VMINSN.spec_code() {
            VmExit::VmInsn
        } else if exit.exitcode == vm_exitcode::VM_EXITCODE_HT.spec_code() {
            VmExit::Ht
        } else if exit.exitcode == vm_exitcode::VM_EXITCODE_MAX.spec_code() {
            VmExit::Max
        } else {
            VmExit::Bogus
        }
    }

    /// The exit that a record describes is what the record says, and
    /// nothing else is.
    pub proof fn law_from_exit(exit: vm_exit, other: VmExit)
        ensures
            VmExit::spec_from_exit(exit).spec_decodes(exit),
            other.spec_decodes(exit) ==> other == VmExit::spec_from_exit(exit),
    {
    }

    /// Decodes an exit record. The exit code selects the kind of exit and
    /// with it the payload that is read. A code that names no kind gives
    /// `Bogus`, and so does a suspension whose reason is a number that names
    /// none.
    pub fn from_exit(exit: &vm_exit) -> (r: VmExit)
        ensures
            r == VmExit::spec_from_exit(*exit),
            r.spec_decodes(*exit),
    {
        match vm_exitcode::from_code(exit.exitcode) {
            None => VmExit::Bogus,
            Some(code) => match code {
                vm_exitcode::VM_EXITCODE_INOUT => {
                    let io = exit.u.inout();
                    VmExit::InOut(io.port, io.eax)
                },
                vm_exitcode::VM_EXITCODE_VMX => {
                    let vmx = exit.u.vmx();
                    VmExit::Vmx(
                        vmx.status,
                        vmx.exit_reason,
                        vmx.exit_qualification,
                        vmx.inst_type,
                        vmx.inst_error,
                    )
                },
                vm_exitcode::VM_EXITCODE_BOGUS => VmExit::Bogus,
                vm_exitcode::VM_EXITCODE_RDMSR => VmExit::RdMsr,
                vm_exitcode::VM_EXITCODE_WRMSR => VmExit::WrMsr,
                vm_exitcode::VM_EXITCODE_HLT => VmExit::Halt,
                vm_exitcode::VM_EXITCODE_MTRAP => VmExit::Mtrap,
                vm_exitcode::VM_EXITCODE_PAUSE => VmExit::Pause,
                vm_exitcode::VM_EXITCODE_PAGING => VmExit::Paging,
                vm_exitcode::VM_EXITCODE_INST_EMUL => VmExit::InstEmul,
                vm_exitcode::VM_EXITCODE_SPINUP_AP => VmExit::SpinupAp,
                vm_exitcode::VM_EXITCODE_DEPRECATED1 => VmExit::Deprecated,
                vm_exitcode::VM_EXITCODE_RUNBLOCK => VmExit::RunBlock,
                vm_exitcode::VM_EXITCODE_IOAPIC_EOI => VmExit::IoApicEoi,
                vm_exitcode::VM_EXITCODE_SUSPENDED => match exit.u.suspended() {
                    Some(suspended) => VmExit::Suspended(suspended.how),
                    None => VmExit::Bogus,
                },
                vm_exitcode::VM_EXITCODE_INOUT_STR => {
                    let io = exit.u.inout();
                    VmExit::InOutStr(io.port, io.eax)
                },
                vm_exitcode::VM_EXITCODE_TASK_SWITCH => VmExit::TaskSwitch,
                vm_exitcode::VM_EXITCODE_MONITOR => VmExit::Monitor,
                vm_exitcode::VM_EXITCODE_MWAIT => VmExit::Mwait,
                vm_exitcode::VM_EXITCODE_SVM => VmExit::Svm,
                vm_exitcode::VM_EXITCODE_REQIDLE => VmExit::ReqIdle,
                vm_exitcode::VM_EXITCODE_DEBUG => VmExit::Debug,
                vm_exitcode::VM_EXITCODE_VMINSN => VmExit::VmInsn,
                vm_exitcode::VM_EXITCODE_HT => VmExit::Ht,
                vm_exitcode::VM_EXITCODE_MAX => VmExit::Max,
            },
        }
    }
}

/// Default limit of low memory: 3 GiB.
pub const DEFAULT_LOWMEM_LIMIT: usize = 3 * 1024 * 1024 * 1024;

/// Guest-physical address at which high memory starts: 4 GiB.
pub const HIGHMEM_BASE: u64 = 4 * GB;

/// The name of the boot ROM segment, `bootrom`, as bytes.
pub open spec fn spec_bootrom_name() -> Seq<u8> {
    seq![0x62u8, 0x6fu8, 0x6fu8, 0x74u8, 0x72u8, 0x6fu8, 0x6du8]
}

/// Whether a number can be the index of a virtual CPU.
pub open spec fn spec_valid_vcpu(vcpu_id: i32) -> bool {
    0 <= vcpu_id < VM_MAXCPU
}

/// Whether a number can be the index of a virtual CPU.
pub fn valid_vcpu(vcpu_id: i32) -> (r: bool)
    ensures
        r == spec_valid_vcpu(vcpu_id),
{
    0 <= vcpu_id && vcpu_id < 32
}

/// Whether a byte string holds a zero byte, so that it cannot be stored as a
/// zero-terminated string.
pub fn has_zero_byte(bytes: &[u8]) -> (r: bool)
    ensures
        r == !is_c_string(bytes@),
{
    let mut i: usize = 0;
    while i < bytes.len()
        invariant
            i <= bytes@.len(),
            forall|j: int| 0 <= j < i ==> bytes@[j] != 0,
        decreases bytes@.len() - i,
    {
        if bytes[i] == 0 {
            return true;
        }
        i = i + 1;
    }
    false
}

/// The handle of one virtual machine: its name, the most low memory it may
/// have, the flags of its memory, and the host's mapping flags.
///
/// The handle holds no channel. Its methods return the [`Operation`] that
/// does what the method's name says; whoever holds the open device carries
/// the operation's requests over.
pub struct VirtualMachine {
    pub name: String,
    pub lowmem_limit: usize,
    pub memflags: i32,
    pub host: HostFlags,
}

impl VirtualMachine {
    /// The operation of one request.
    pub open spec fn spec_call(request: Request) -> OperationView {
        OperationView::start(seq![Stage::Call(request)])
    }

    /// The operation of one request that names a virtual CPU: it fails with
    /// `InvalidInput`, and sends nothing, if no machine has a CPU of that
    /// index.
    pub open spec fn spec_vcpu_call(vcpu_id: i32, request: Request) -> OperationView {
        if spec_valid_vcpu(vcpu_id) {
            VirtualMachine::spec_call(request)
        } else {
            OperationView::Finished(Err(Error::InvalidInput))
        }
    }

    /// The mapping flags that follow from the machine's memory flags: wired
    /// if the memory is wired.
    pub open spec fn spec_mapping_flags(self) -> i32 {
        if self.memflags & VM_MEM_F_WIRED != 0 {
            VM_MEMMAP_F_WIRED
        } else {
            0
        }
    }

    /// The record of a mapping of this machine.
    pub open spec fn spec_mapping(
        self,
        gpa: u64,
        segid: MemSegId,
        off: i64,
        len: usize,
        prot: i32,
    ) -> vm_memmap {
        vm_memmap {
            gpa,
            segid: segid.spec_code(),
            segoff: off,
            len,
            prot,
            flags: self.spec_mapping_flags(),
        }
    }

    /// The stage that allocates a segment of `len` bytes called `name`.
    pub open spec fn spec_segment_stage(segid: MemSegId, len: usize, name: Seq<u8>) -> Stage {
        if name.len() < 64 {
            Stage::Segment {
                wanted: vm_memseg::spec_named(segid.spec_code(), len, name),
                fits: true,
            }
        } else {
            Stage::Segment {
                wanted: vm_memseg::spec_named(segid.spec_code(), len, Seq::empty()),
                fits: false,
            }
        }
    }

    /// The stage that maps a segment into the controlling process: `len`
    /// bytes at `base`, readable and writable, shared, at exactly that
    /// address.
    pub open spec fn spec_device_memory_stage(self, segid: MemSegId, base: u64, len: usize) -> Stage {
        Stage::DeviceMemory {
            segid: segid.spec_code(),
            base,
            len,
            prot: self.host.spec_host_prot(),
            flags: self.host.spec_host_flags(),
        }
    }

    /// The plan that adds guest memory: allocate the segment without a
    /// name, map `len` bytes of low memory at `gpa` with every protection,
    /// and map the start of the device at `base` into the controlling
    /// process.
    pub open spec fn spec_guest_memory_plan(
        self,
        segid: MemSegId,
        gpa: u64,
        base: u64,
        len: usize,
    ) -> Seq<Stage> {
        seq![
            VirtualMachine::spec_segment_stage(segid, len, Seq::empty()),
            Stage::Mapping(
                self.spec_mapping(
                    gpa,
                    MemSegId::VM_LOWMEM,
                    0,
                    len,
                    self.host.spec_guest_memory_prot(),
                ),
            ),
            Stage::Call(
                Request::HostMap(
                    host_map {
                        base,
                        len,
                        prot: self.host.spec_host_prot(),
                        flags: self.host.spec_host_flags(),
                        offset: 0,
                    },
                ),
            ),
        ]
    }

    /// The plan that adds device memory: allocate the segment under its
    /// name, then map it into the controlling process.
    pub open spec fn spec_devmem_plan(
        self,
        segid: MemSegId,
        name: Seq<u8>,
        base: u64,
        len: usize,
    ) -> Seq<Stage> {
        seq![
            VirtualMachine::spec_segment_stage(segid, len, name),
            self.spec_device_memory_stage(segid, base, len),
        ]
    }

    /// The plan that sets up a boot ROM of `len` bytes: add it as device
    /// memory called `bootrom`, then map it into the guest so that it ends
    /// where the 32-bit address space ends, readable and executable.
    pub open spec fn spec_bootrom_plan(self, base: u64, len: usize) -> Seq<Stage> {
        self.spec_devmem_plan(MemSegId::VM_BOOTROM, spec_bootrom_name(), base, len).push(
            Stage::Mapping(
                self.spec_mapping(
                    (0x1_0000_0000 - len) as u64,
                    MemSegId::VM_BOOTROM,
                    0,
                    len,
                    self.host.spec_bootrom_prot(),
                ),
            ),
        )
    }

    /// Whether a boot ROM may have `len` bytes on a host with pages of
    /// `page_size` bytes: at least one page and at most 16 MiB.
    pub open spec fn spec_bootrom_len_ok(len: usize, page_size: usize) -> bool {
        page_size <= len <= MAX_BOOTROM_SIZE
    }

    /// Makes the handle of the machine called `name`, with the default limit
    /// of low memory and no memory flags. Succeeds for every name without a
    /// zero byte, and fails with `InvalidInput` for a name that holds one,
    /// since no device node has such a name.
    pub fn new(name: &str) -> (r: Result<VirtualMachine, Error>)
        ensures
            is_c_string(name.spec_bytes()) ==> (r matches Ok(vm) && vm.name@ == name@
                && vm.lowmem_limit == DEFAULT_LOWMEM_LIMIT && vm.memflags == 0),
            !is_c_string(name.spec_bytes()) ==> r == Err::<VirtualMachine, Error>(
                Error::InvalidInput,
            ),
    {
        if has_zero_byte(name.as_bytes()) {
            return Err(Error::InvalidInput);
        }
        Ok(
            VirtualMachine {
                name: String::from_str(name),
                lowmem_limit: DEFAULT_LOWMEM_LIMIT,
                memflags: 0,
                host: HostFlags::current(),
            },
        )
    }

    /// The path of the machine's device node.
    pub fn device_path(&self) -> (r: String)
        ensures
            r@ == "/dev/vmm/"@ + self.name@,
    {
        String::from_str("/dev/vmm/").concat(self.name.as_str())
    }

    /// The mapping flags that follow from the machine's memory flags.
    pub fn mapping_flags(&self) -> (r: i32)
        ensures
            r == self.spec_mapping_flags(),
    {
        if (self.memflags & VM_MEM_F_WIRED) != 0 {
            VM_MEMMAP_F_WIRED
        } else {
            0
        }
    }

    /// The stage that allocates a segment of `len` bytes called `name`.
    fn segment_stage(segid: MemSegId, len: usize, name: &[u8]) -> (r: Stage)
        ensures
            r == VirtualMachine::spec_segment_stage(segid, len, name@),
    {
        match vm_memseg::named(segid.code(), len, name) {
            Some(wanted) => Stage::Segment { wanted, fits: true },
            None => Stage::Segment { wanted: vm_memseg::unnamed(segid.code(), len), fits: false },
        }
    }

    /// The stage that maps `len` bytes of this machine's segment `segid` at
    /// `gpa`.
    fn mapping_stage(&self, gpa: u64, segid: MemSegId, off: i64, len: usize, prot: i32) -> (r:
        Stage)
        ensures
            r == Stage::Mapping(self.spec_mapping(gpa, segid, off, len, prot)),
    {
        Stage::Mapping(
            vm_memmap {
                gpa,
                segid: segid.code(),
                segoff: off,
                len,
                prot,
                flags: self.mapping_flags(),
            },
        )
    }

    /// The stage that maps a segment into the controlling process.
    fn device_memory_stage(&self, segid: MemSegId, base: u64, len: usize) -> (r: Stage)
        ensures
            r == self.spec_device_memory_stage(segid, base, len),
    {
        Stage::DeviceMemory {
            segid: segid.code(),
            base,
            len,
            prot: self.host.host_prot(),
            flags: self.host.host_flags(),
        }
    }

    /// Maps `len` bytes of segment `segid`, from offset `off` on, into the
    /// guest-physical address space at `gpa` with protection `prot`; wired if
    /// the machine's memory is wired.
    ///
    /// The operation first asks for the mapping at `gpa`. If one starts
    /// there with the same segment, offset, protection and flags, the
    /// operation ends well and maps nothing; if another starts there, it
    /// fails with `AlreadyExists`; if none starts there, it sends the
    /// mapping request.
    pub fn mmap_memseg(&self, gpa: u64, segid: MemSegId, off: i64, len: usize, prot: i32) -> (r:
        Operation)
        ensures
            r@ == OperationView::start(
                seq![Stage::Mapping(self.spec_mapping(gpa, segid, off, len, prot))],
            ),
    {
        Operation::single(self.mapping_stage(gpa, segid, off, len, prot))
    }

    /// Asks for the first mapping that starts at or above `gpa`. Each call
    /// searches anew from the address given.
    pub fn mmap_getnext(&self, gpa: u64) -> (r: Operation)
        ensures
            r@ == VirtualMachine::spec_call(Request::MmapGetnext { gpa }),
    {
        Operation::single(Stage::Call(Request::MmapGetnext { gpa }))
    }

    /// Removes the mapping of the guest-physical range of `len` bytes at
    /// `gpa`.
    pub fn munmap_memseg(&self, gpa: u64, len: usize) -> (r: Operation)
        ensures
            r@ == VirtualMachine::spec_call(Request::MunmapMemseg(vm_munmap { gpa, len })),
    {
        Operation::single(Stage::Call(Request::MunmapMemseg(vm_munmap { gpa, len })))
    }

    /// What [`VirtualMachine::alloc_memseg`] does for a name given as bytes.
    pub open spec fn spec_alloc_memseg(segid: MemSegId, len: usize, name: Seq<u8>) -> OperationView {
        if is_c_string(name) {
            OperationView::start(seq![VirtualMachine::spec_segment_stage(segid, len, name)])
        } else {
            OperationView::Finished(Err(Error::InvalidInput))
        }
    }

    /// Allocates segment `segid` with `len` bytes under `name`; the empty
    /// name makes it system memory.
    ///
    /// A name with a zero byte fails with `InvalidInput` before anything is
    /// sent. Otherwise the operation first asks for the segment. If the
    /// machine holds it with this length and name, the operation ends well
    /// and allocates nothing; if with another length or name, it fails with
    /// `Conflict`. If the machine does not hold it, a name of more than 63
    /// bytes fails with `InvalidInput`, and any other is allocated.
    pub fn alloc_memseg(&self, segid: MemSegId, len: usize, name: &str) -> (r: Operation)
        ensures
            r@ == VirtualMachine::spec_alloc_memseg(segid, len, name.spec_bytes()),
    {
        let bytes = name.as_bytes();
        if has_zero_byte(bytes) {
            return Operation::failed(Error::InvalidInput);
        }
        Operation::single(VirtualMachine::segment_stage(segid, len, bytes))
    }

    /// Asks for the length and the name of segment `segid`; a segment that
    /// is not allocated has length zero.
    pub fn get_memseg(&self, segid: MemSegId) -> (r: Operation)
        ensures
            r@ == VirtualMachine::spec_call(Request::GetMemseg { segid: segid.spec_code() }),
    {
        Operation::single(Stage::Call(Request::GetMemseg { segid: segid.code() }))
    }

    /// What [`VirtualMachine::add_devmem`] does for a name given as bytes.
    pub open spec fn spec_add_devmem(
        self,
        segid: MemSegId,
        name: Seq<u8>,
        base: u64,
        len: usize,
    ) -> OperationView {
        if is_c_string(name) {
            OperationView::start(self.spec_devmem_plan(segid, name, base, len))
        } else {
            OperationView::Finished(Err(Error::InvalidInput))
        }
    }

    /// Adds device memory: allocates segment `segid` with `len` bytes under
    /// `name`, asks where in the device it begins, and maps it from there
    /// into the controlling process at `base`. The first step that fails
    /// ends the operation with its error; what was done stays done.
    pub fn add_devmem(&self, segid: MemSegId, name: &str, base: u64, len: usize) -> (r: Operation)
        ensures
            r@ == self.spec_add_devmem(segid, name.spec_bytes(), base, len),
    {
        let bytes = name.as_bytes();
        if has_zero_byte(bytes) {
            return Operation::failed(Error::InvalidInput);
        }
        let mut stages = Vec::new();
        stages.push(VirtualMachine::segment_stage(segid, len, bytes));
        stages.push(self.device_memory_stage(segid, base, len));
        assert(stages@ =~= self.spec_devmem_plan(segid, name.spec_bytes(), base, len));
        Operation::new(stages)
    }

    /// Adds guest memory: allocates segment `segid` with `len` bytes and no
    /// name, maps `len` bytes of low memory into the guest at `gpa`, and maps
    /// the start of the device into the controlling process at `base`.
    pub fn add_guest_memory(&self, segid: MemSegId, gpa: u64, base: u64, len: usize) -> (r:
        Operation)
        ensures
            r@ == OperationView::start(self.spec_guest_memory_plan(segid, gpa, base, len)),
    {
        let none: [u8; 0] = [];
        assert(none@ =~= Seq::<u8>::empty());
        let mut stages = Vec::new();
        stages.push(VirtualMachine::segment_stage(segid, len, none.as_slice()));
        stages.push(
            self.mapping_stage(gpa, MemSegId::VM_LOWMEM, 0, len, self.host.guest_memory_prot()),
        );
        stages.push(
            Stage::Call(
                Request::HostMap(
                    host_map {
                        base,
                        len,
                        prot: self.host.host_prot(),
                        flags: self.host.host_flags(),
                        offset: 0,
                    },
                ),
            ),
        );
        assert(stages@ =~= self.spec_guest_memory_plan(segid, gpa, base, len));
        Operation::new(stages)
    }

    /// Asks where in the device the device-memory segment `segid` begins.
    pub fn get_devmem_offset(&self, segid: MemSegId) -> (r: Operation)
        ensures
            r@ == VirtualMachine::spec_call(
                Request::DevmemGetoffset { segid: segid.spec_code() },
            ),
    {
        Operation::single(Stage::Call(Request::DevmemGetoffset { segid: segid.code() }))
    }

    /// What [`VirtualMachine::setup_bootrom`] does.
    pub open spec fn spec_setup_bootrom(self, base: u64, len: usize, page_size: usize) -> OperationView {
        if VirtualMachine::spec_bootrom_len_ok(len, page_size) {
            OperationView::start(self.spec_bootrom_plan(base, len))
        } else {
            OperationView::Finished(Err(Error::InvalidInput))
        }
    }

    /// What [`VirtualMachine::setup_lowmem`] does.
    pub open spec fn spec_setup_lowmem(self, base: u64, len: usize) -> OperationView {
        if len <= self.lowmem_limit {
            OperationView::start(self.spec_guest_memory_plan(MemSegId::VM_LOWMEM, 0, base, len))
        } else {
            OperationView::Finished(Err(Error::InvalidInput))
        }
    }

    /// Sets up a boot ROM of `len` bytes, on a host with pages of
    /// `page_size` bytes, with its host mapping at `base`.
    ///
    /// A length below one page or above 16 MiB fails with `InvalidInput`
    /// before anything is sent, so nothing is allocated or mapped. Otherwise
    /// the ROM is added as device memory called `bootrom` and mapped into the
    /// guest just below 4 GiB.
    pub fn setup_bootrom(&self, base: u64, len: usize, page_size: usize) -> (r: Operation)
        ensures
            r@ == self.spec_setup_bootrom(base, len, page_size),
            !VirtualMachine::spec_bootrom_len_ok(len, page_size) ==> r@
                == OperationView::Finished(Err(Error::InvalidInput)) && r@.request() is None,
    {
        if len > MAX_BOOTROM_SIZE || len < page_size {
            return Operation::failed(Error::InvalidInput);
        }
        let name: [u8; 7] = [0x62, 0x6f, 0x6f, 0x74, 0x72, 0x6f, 0x6d];
        assert(name@ =~= spec_bootrom_name());
        let gpa: u64 = 0x1_0000_0000 - (len as u64);
        let mut stages = Vec::new();
        stages.push(VirtualMachine::segment_stage(MemSegId::VM_BOOTROM, len, name.as_slice()));
        stages.push(self.device_memory_stage(MemSegId::VM_BOOTROM, base, len));
        stages.push(
            self.mapping_stage(gpa, MemSegId::VM_BOOTROM, 0, len, self.host.bootrom_prot()),
        );
        assert(stages@ =~= self.spec_bootrom_plan(base, len));
        Operation::new(stages)
    }

    /// Sets up low memory of `len` bytes at guest-physical address zero,
    /// with its host mapping at `base`. A length above the machine's limit of
    /// low memory fails with `InvalidInput` before anything is sent.
    pub fn setup_lowmem(&self, base: u64, len: usize) -> (r: Operation)
        ensures
            r@ == self.spec_setup_lowmem(base, len),
            len > self.lowmem_limit ==> r@ == OperationView::Finished(Err(Error::InvalidInput))
                && r@.request() is None,
    {
        if len > self.lowmem_limit {
            return Operation::failed(Error::InvalidInput);
        }
        self.add_guest_memory(MemSegId::VM_LOWMEM, 0, base, len)
    }

    /// Sets up high memory of `len` bytes at guest-physical address 4 GiB,
    /// with its host mapping at `base`.
    pub fn setup_highmem(&self, base: u64, len: usize) -> (r: Operation)
        ensures
            r@ == OperationView::start(
                self.spec_guest_memory_plan(MemSegId::VM_HIGHMEM, HIGHMEM_BASE, base, len),
            ),
    {
        self.add_guest_memory(MemSegId::VM_HIGHMEM, HIGHMEM_BASE, base, len)
    }

    /// A request to write the register of a given number.
    pub open spec fn spec_register_write_raw(cpuid: i32, regnum: i32, regval: u64) -> Request {
        Request::SetRegister(vm_register { cpuid, regnum, regval })
    }

    /// A request to write the descriptor of a given number.
    pub open spec fn spec_descriptor_write_raw(cpuid: i32, regnum: i32, desc: seg_desc) -> Request {
        Request::SetSegmentDescriptor(vm_seg_desc { cpuid, regnum, desc })
    }

    /// A request to write a register.
    pub open spec fn spec_register_write(vcpu_id: i32, reg: vm_reg_name, val: u64) -> Request {
        Request::SetRegister(vm_register { cpuid: vcpu_id, regnum: reg.spec_code(), regval: val })
    }

    /// A request to write a segment descriptor.
    pub open spec fn spec_descriptor_write(
        vcpu_id: i32,
        reg: vm_reg_name,
        base: u64,
        limit: u32,
        access: u32,
    ) -> Request {
        Request::SetSegmentDescriptor(
            vm_seg_desc {
                cpuid: vcpu_id,
                regnum: reg.spec_code(),
                desc: seg_desc { base, limit, access },
            },
        )
    }

    /// A request to write a register.
    fn register_write(vcpu_id: i32, reg: vm_reg_name, val: u64) -> (r: Request)
        ensures
            r == VirtualMachine::spec_register_write(vcpu_id, reg, val),
    {
        Request::SetRegister(vm_register { cpuid: vcpu_id, regnum: reg.code(), regval: val })
    }

    /// A request to write a segment descriptor.
    fn descriptor_write(vcpu_id: i32, reg: vm_reg_name, base: u64, limit: u32, access: u32) -> (r:
        Request)
        ensures
            r == VirtualMachine::spec_descriptor_write(vcpu_id, reg, base, limit, access),
    {
        Request::SetSegmentDescriptor(
            vm_seg_desc { cpuid: vcpu_id, regnum: reg.code(), desc: seg_desc { base, limit, access } },
        )
    }

    /// The operation of one request that names a virtual CPU.
    fn vcpu_call(vcpu_id: i32, request: Request) -> (r: Operation)
        ensures
            r@ == VirtualMachine::spec_vcpu_call(vcpu_id, request),
    {
        if valid_vcpu(vcpu_id) {
            Operation::single(Stage::Call(request))
        } else {
            Operation::failed(Error::InvalidInput)
        }
    }

    /// Sets base, limit and access rights of a descriptor register of a
    /// virtual CPU.
    pub fn set_desc(&self, vcpu_id: i32, reg: vm_reg_name, base: u64, limit: u32, access: u32) -> (r:
        Operation)
        ensures
            r@ == VirtualMachine::spec_vcpu_call(
                vcpu_id,
                VirtualMachine::spec_descriptor_write(vcpu_id, reg, base, limit, access),
            ),
    {
        VirtualMachine::vcpu_call(
            vcpu_id,
            VirtualMachine::descriptor_write(vcpu_id, reg, base, limit, access),
        )
    }

    /// Reads base, limit and access rights of a descriptor register of a
    /// virtual CPU.
    pub fn get_desc(&self, vcpu_id: i32, reg: vm_reg_name) -> (r: Operation)
        ensures
            r@ == VirtualMachine::spec_vcpu_call(
                vcpu_id,
                Request::GetSegmentDescriptor { cpuid: vcpu_id, regnum: reg.spec_code() },
            ),
    {
        VirtualMachine::vcpu_call(
            vcpu_id,
            Request::GetSegmentDescriptor { cpuid: vcpu_id, regnum: reg.code() },
        )
    }

    /// Sets a register of a virtual CPU.
    pub fn set_register(&self, vcpu_id: i32, reg: vm_reg_name, val: u64) -> (r: Operation)
        ensures
            r@ == VirtualMachine::spec_vcpu_call(
                vcpu_id,
                VirtualMachine::spec_register_write(vcpu_id, reg, val),
            ),
    {
        VirtualMachine::vcpu_call(vcpu_id, VirtualMachine::register_write(vcpu_id, reg, val))
    }

    /// Reads a register of a virtual CPU.
    pub fn get_register(&self, vcpu_id: i32, reg: vm_reg_name) -> (r: Operation)
        ensures
            r@ == VirtualMachine::spec_vcpu_call(
                vcpu_id,
                Request::GetRegister { cpuid: vcpu_id, regnum: reg.spec_code() },
            ),
    {
        VirtualMachine::vcpu_call(
            vcpu_id,
            Request::GetRegister { cpuid: vcpu_id, regnum: reg.code() },
        )
    }

    /// Writes a byte of the real-time clock's memory.
    pub fn rtc_write(&self, offset: i32, value: u8) -> (r: Operation)
        ensures
            r@ == VirtualMachine::spec_call(Request::RtcWrite(vm_rtc_data { offset, value })),
    {
        Operation::single(Stage::Call(Request::RtcWrite(vm_rtc_data { offset, value })))
    }

    /// Reads a byte of the real-time clock's memory.
    pub fn rtc_read(&self, offset: i32) -> (r: Operation)
        ensures
            r@ == VirtualMachine::spec_call(Request::RtcRead { offset }),
    {
        Operation::single(Stage::Call(Request::RtcRead { offset }))
    }

    /// Sets the real-time clock, in seconds.
    pub fn rtc_settime(&self, secs: i64) -> (r: Operation)
        ensures
            r@ == VirtualMachine::spec_call(Request::RtcSettime(vm_rtc_time { secs })),
    {
        Operation::single(Stage::Call(Request::RtcSettime(vm_rtc_time { secs })))
    }

    /// Reads the real-time clock, in seconds.
    pub fn rtc_gettime(&self) -> (r: Operation)
        ensures
            r@ == VirtualMachine::spec_call(Request::RtcGettime),
    {
        Operation::single(Stage::Call(Request::RtcGettime))
    }

    /// Sets the machine's numbers of sockets, cores and threads. The most
    /// CPUs the machine can have is sent as zero, the only value the peer
    /// takes.
    pub fn set_topology(&self, sockets: u16, cores: u16, threads: u16) -> (r: Operation)
        ensures
            r@ == VirtualMachine::spec_call(
                Request::SetTopology(vm_cpu_topology { sockets, cores, threads, maxcpus: 0 }),
            ),
    {
        Operation::single(
            Stage::Call(
                Request::SetTopology(vm_cpu_topology { sockets, cores, threads, maxcpus: 0 }),
            ),
        )
    }

    /// Reads the machine's numbers of sockets, cores and threads and the
    /// most CPUs it can have.
    pub fn get_topology(&self) -> (r: Operation)
        ensures
            r@ == VirtualMachine::spec_call(Request::GetTopology),
    {
        Operation::single(Stage::Call(Request::GetTopology))
    }

    /// Reads the number of statistics entries of a virtual CPU.
    pub fn get_stats(&self, vcpu_id: i32) -> (r: Operation)
        ensures
            r@ == VirtualMachine::spec_vcpu_call(vcpu_id, Request::Stats { cpuid: vcpu_id }),
    {
        VirtualMachine::vcpu_call(vcpu_id, Request::Stats { cpuid: vcpu_id })
    }

    /// Activates a virtual CPU.
    pub fn activate_vcpu(&self, vcpu_id: i32) -> (r: Operation)
        ensures
            r@ == VirtualMachine::spec_vcpu_call(
                vcpu_id,
                Request::ActivateCpu(vm_activate_cpu { vcpuid: vcpu_id }),
            ),
    {
        VirtualMachine::vcpu_call(
            vcpu_id,
            Request::ActivateCpu(vm_activate_cpu { vcpuid: vcpu_id }),
        )
    }

    /// The x2APIC state that switches the mode on or off.
    pub open spec fn spec_x2apic(enable: bool) -> x2apic_state {
        if enable {
            x2apic_state::X2APIC_ENABLED
        } else {
            x2apic_state::X2APIC_DISABLED
        }
    }

    /// Switches the x2APIC mode of a virtual CPU on or off.
    pub fn set_x2apic_state(&self, vcpu_id: i32, enable: bool) -> (r: Operation)
        ensures
            r@ == VirtualMachine::spec_vcpu_call(
                vcpu_id,
                Request::SetX2apicState(
                    vm_x2apic { cpuid: vcpu_id, state: VirtualMachine::spec_x2apic(enable) },
                ),
            ),
    {
        let state = match enable {
            true => x2apic_state::X2APIC_ENABLED,
            false => x2apic_state::X2APIC_DISABLED,
        };
        VirtualMachine::vcpu_call(
            vcpu_id,
            Request::SetX2apicState(vm_x2apic { cpuid: vcpu_id, state }),
        )
    }

    /// Asks whether the x2APIC mode of a virtual CPU is on.
    pub fn get_x2apic_state(&self, vcpu_id: i32) -> (r: Operation)
        ensures
            r@ == VirtualMachine::spec_vcpu_call(
                vcpu_id,
                Request::GetX2apicState { cpuid: vcpu_id },
            ),
    {
        VirtualMachine::vcpu_call(vcpu_id, Request::GetX2apicState { cpuid: vcpu_id })
    }

    /// The writes that put a virtual CPU into the state it has after
    /// power-up or reset (Intel manual, volume 3A, table 9-1), in the order
    /// in which they are sent: flags, instruction pointer and control
    /// registers; the code segment, based at 0xffff0000 with selector 0xf000;
    /// the data segments, based at zero; the sixteen general-purpose
    /// registers, zero but for the processor identification in RDX; the
    /// descriptor tables; the task register and the local descriptor table.
    pub open spec fn spec_reset_writes(vcpu_id: i32) -> Seq<Request> {
        seq![
            VirtualMachine::spec_register_write(vcpu_id, vm_reg_name::VM_REG_GUEST_RFLAGS, 0x2),
            VirtualMachine::spec_register_write(vcpu_id, vm_reg_name::VM_REG_GUEST_RIP, 0xfff0),
            VirtualMachine::spec_register_write(vcpu_id, vm_reg_name::VM_REG_GUEST_CR0, CR0_NE),
            VirtualMachine::spec_register_write(vcpu_id, vm_reg_name::VM_REG_GUEST_CR3, 0),
            VirtualMachine::spec_register_write(vcpu_id, vm_reg_name::VM_REG_GUEST_CR4, 0),
            VirtualMachine::spec_descriptor_write(
                vcpu_id,
                vm_reg_name::VM_REG_GUEST_CS,
                0xffff0000,
                0xffff,
                0x0093,
            ),
            VirtualMachine::spec_register_write(vcpu_id, vm_reg_name::VM_REG_GUEST_CS, 0xf000),
            VirtualMachine::spec_descriptor_write(
                vcpu_id,
                vm_reg_name::VM_REG_GUEST_SS,
                0,
                0xffff,
                0x0093,
            ),
            VirtualMachine::spec_descriptor_write(
                vcpu_id,
                vm_reg_name::VM_REG_GUEST_DS,
                0,
                0xffff,
                0x0093,
            ),
            VirtualMachine::spec_descriptor_write(
                vcpu_id,
                vm_reg_name::VM_REG_GUEST_ES,
                0,
                0xffff,
                0x0093,
            ),
            VirtualMachine::spec_descriptor_write(
                vcpu_id,
                vm_reg_name::VM_REG_GUEST_FS,
                0,
                0xffff,
                0x0093,
            ),
            VirtualMachine::spec_descriptor_write(
                vcpu_id,
                vm_reg_name::VM_REG_GUEST_GS,
                0,
                0xffff,
                0x0093,
            ),
            VirtualMachine::spec_register_write(vcpu_id, vm_reg_name::VM_REG_GUEST_SS, 0),
            VirtualMachine::spec_register_write(vcpu_id, vm_reg_name::VM_REG_GUEST_DS, 0),
            VirtualMachine::spec_register_write(vcpu_id, vm_reg_name::VM_REG_GUEST_ES, 0),
            VirtualMachine::spec_register_write(vcpu_id, vm_reg_name::VM_REG_GUEST_FS, 0),
            VirtualMachine::spec_register_write(vcpu_id, vm_reg_name::VM_REG_GUEST_GS, 0),
            VirtualMachine::spec_register_write(vcpu_id, vm_reg_name::VM_REG_GUEST_RAX, 0),
            VirtualMachine::spec_register_write(vcpu_id, vm_reg_name::VM_REG_GUEST_RBX, 0),
            VirtualMachine::spec_register_write(vcpu_id, vm_reg_name::VM_REG_GUEST_RCX, 0),
            VirtualMachine::spec_register_write(vcpu_id, vm_reg_name::VM_REG_GUEST_RDX, 0xf00),
            VirtualMachine::spec_register_write(vcpu_id, vm_reg_name::VM_REG_GUEST_RSI, 0),
            VirtualMachine::spec_register_write(vcpu_id, vm_reg_name::VM_REG_GUEST_RDI, 0),
            VirtualMachine::spec_register_write(vcpu_id, vm_reg_name::VM_REG_GUEST_RBP, 0),
            VirtualMachine::spec_register_write(vcpu_id, vm_reg_name::VM_REG_GUEST_RSP, 0),
            VirtualMachine::spec_register_write(vcpu_id, vm_reg_name::VM_REG_GUEST_R8, 0),
            VirtualMachine::spec_register_write(vcpu_id, vm_reg_name::VM_REG_GUEST_R9, 0),
            VirtualMachine::spec_register_write(vcpu_id, vm_reg_name::VM_REG_GUEST_R10, 0),
            VirtualMachine::spec_register_write(vcpu_id, vm_reg_name::VM_REG_GUEST_R11, 0),
            VirtualMachine::spec_register_write(vcpu_id, vm_reg_name::VM_REG_GUEST_R12, 0),
            VirtualMachine::spec_register_write(vcpu_id, vm_reg_name::VM_REG_GUEST_R13, 0),
            VirtualMachine::spec_register_write(vcpu_id, vm_reg_name::VM_REG_GUEST_R14, 0),
            VirtualMachine::spec_register_write(vcpu_id, vm_reg_name::VM_REG_GUEST_R15, 0),
            VirtualMachine::spec_descriptor_write(
                vcpu_id,
                vm_reg_name::VM_REG_GUEST_GDTR,
                0,
                0xffff,
                0,
            ),
            VirtualMachine::spec_descriptor_write(
                vcpu_id,
                vm_reg_name::VM_REG_GUEST_IDTR,
                0,
                0xffff,
                0,
            ),
            VirtualMachine::spec_descriptor_write(vcpu_id, vm_reg_name::VM_REG_GUEST_TR, 0, 0, 0x8b),
            VirtualMachine::spec_register_write(vcpu_id, vm_reg_name::VM_REG_GUEST_TR, 0),
            VirtualMachine::spec_descriptor_write(
                vcpu_id,
                vm_reg_name::VM_REG_GUEST_LDTR,
                0,
                0xffff,
                0x82,
            ),
            VirtualMachine::spec_register_write(vcpu_id, vm_reg_name::VM_REG_GUEST_LDTR, 0),
        ]
    }

    /// The plan of a reset: one stage for each write.
    pub open spec fn spec_reset_plan(vcpu_id: i32) -> Seq<Stage> {
        VirtualMachine::spec_reset_writes(vcpu_id).map(|i: int, w: Request| Stage::Call(w))
    }

    /// What [`VirtualMachine::vcpu_reset`] does.
    pub open spec fn spec_vcpu_reset(vcpu_id: i32) -> OperationView {
        if spec_valid_vcpu(vcpu_id) {
            OperationView::start(VirtualMachine::spec_reset_plan(vcpu_id))
        } else {
            OperationView::Finished(Err(Error::InvalidInput))
        }
    }

    /// Puts a virtual CPU into the state it has after power-up or reset.
    ///
    /// The writes are sent one by one in a fixed order. The first that the
    /// peer refuses ends the operation with that error; the writes before it
    /// stay in effect and the ones after it are not sent.
    pub fn vcpu_reset(&self, vcpu_id: i32) -> (r: Operation)
        ensures
            r@ == VirtualMachine::spec_vcpu_reset(vcpu_id),
    {
        if !valid_vcpu(vcpu_id) {
            return Operation::failed(Error::InvalidInput);
        }
        let mut writes: Vec<Request> = Vec::new();
        writes.push(VirtualMachine::register_write(vcpu_id, vm_reg_name::VM_REG_GUEST_RFLAGS, 0x2));
        writes.push(VirtualMachine::register_write(vcpu_id, vm_reg_name::VM_REG_GUEST_RIP, 0xfff0));
        writes.push(VirtualMachine::register_write(vcpu_id, vm_reg_name::VM_REG_GUEST_CR0, CR0_NE));
        writes.push(VirtualMachine::register_write(vcpu_id, vm_reg_name::VM_REG_GUEST_CR3, 0));
        writes.push(VirtualMachine::register_write(vcpu_id, vm_reg_name::VM_REG_GUEST_CR4, 0));

        // CS: present, read/write, accessed, 16-bit, byte granularity, usable
        let cs_base: u64 = 0xffff0000;
        let cs_limit: u32 = 0xffff;
        let cs_access: u32 = 0x0093;
        writes.push(
            VirtualMachine::descriptor_write(
                vcpu_id,
                vm_reg_name::VM_REG_GUEST_CS,
                cs_base,
                cs_limit,
                cs_access,
            ),
        );
        writes.push(VirtualMachine::register_write(vcpu_id, vm_reg_name::VM_REG_GUEST_CS, 0xf000));

        // SS, DS, ES, FS, GS: present, read/write, accessed, 16-bit, byte granularity
        let desc_base: u64 = 0;
        let desc_limit: u32 = 0xffff;
        let desc_access: u32 = 0x0093;
        writes.push(
            VirtualMachine::descriptor_write(
                vcpu_id,
                vm_reg_name::VM_REG_GUEST_SS,
                desc_base,
                desc_limit,
                desc_access,
            ),
        );
        writes.push(
            VirtualMachine::descriptor_write(
                vcpu_id,
                vm_reg_name::VM_REG_GUEST_DS,
                desc_base,
                desc_limit,
                desc_access,
            ),
        );
        writes.push(
            VirtualMachine::descriptor_write(
                vcpu_id,
                vm_reg_name::VM_REG_GUEST_ES,
                desc_base,
                desc_limit,
                desc_access,
            ),
        );
        writes.push(
            VirtualMachine::descriptor_write(
                vcpu_id,
                vm_reg_name::VM_REG_GUEST_FS,
                desc_base,
                desc_limit,
                desc_access,
            ),
        );
        writes.push(
            VirtualMachine::descriptor_write(
                vcpu_id,
                vm_reg_name::VM_REG_GUEST_GS,
                desc_base,
                desc_limit,
                desc_access,
            ),
        );
        writes.push(VirtualMachine::register_write(vcpu_id, vm_reg_name::VM_REG_GUEST_SS, 0));
        writes.push(VirtualMachine::register_write(vcpu_id, vm_reg_name::VM_REG_GUEST_DS, 0));
        writes.push(VirtualMachine::register_write(vcpu_id, vm_reg_name::VM_REG_GUEST_ES, 0));
        writes.push(VirtualMachine::register_write(vcpu_id, vm_reg_name::VM_REG_GUEST_FS, 0));
        writes.push(VirtualMachine::register_write(vcpu_id, vm_reg_name::VM_REG_GUEST_GS, 0));

        // General-purpose registers
        writes.push(VirtualMachine::register_write(vcpu_id, vm_reg_name::VM_REG_GUEST_RAX, 0));
        writes.push(VirtualMachine::register_write(vcpu_id, vm_reg_name::VM_REG_GUEST_RBX, 0));
        writes.push(VirtualMachine::register_write(vcpu_id, vm_reg_name::VM_REG_GUEST_RCX, 0));
        writes.push(VirtualMachine::register_write(vcpu_id, vm_reg_name::VM_REG_GUEST_RDX, 0xf00));
        writes.push(VirtualMachine::register_write(vcpu_id, vm_reg_name::VM_REG_GUEST_RSI, 0));
        writes.push(VirtualMachine::register_write(vcpu_id, vm_reg_name::VM_REG_GUEST_RDI, 0));
        writes.push(VirtualMachine::register_write(vcpu_id, vm_reg_name::VM_REG_GUEST_RBP, 0));
        writes.push(VirtualMachine::register_write(vcpu_id, vm_reg_name::VM_REG_GUEST_RSP, 0));
        writes.push(VirtualMachine::register_write(vcpu_id, vm_reg_name::VM_REG_GUEST_R8, 0));
        writes.push(VirtualMachine::register_write(vcpu_id, vm_reg_name::VM_REG_GUEST_R9, 0));
        writes.push(VirtualMachine::register_write(vcpu_id, vm_reg_name::VM_REG_GUEST_R10, 0));
        writes.push(VirtualMachine::register_write(vcpu_id, vm_reg_name::VM_REG_GUEST_R11, 0));
        writes.push(VirtualMachine::register_write(vcpu_id, vm_reg_name::VM_REG_GUEST_R12, 0));
        writes.push(VirtualMachine::register_write(vcpu_id, vm_reg_name::VM_REG_GUEST_R13, 0));
        writes.push(VirtualMachine::register_write(vcpu_id, vm_reg_name::VM_REG_GUEST_R14, 0));
        writes.push(VirtualMachine::register_write(vcpu_id, vm_reg_name::VM_REG_GUEST_R15, 0));

        // GDTR, IDTR
        writes.push(
            VirtualMachine::descriptor_write(vcpu_id, vm_reg_name::VM_REG_GUEST_GDTR, 0, 0xffff, 0),
        );
        writes.push(
            VirtualMachine::descriptor_write(vcpu_id, vm_reg_name::VM_REG_GUEST_IDTR, 0, 0xffff, 0),
        );

        // TR
        writes.push(
            VirtualMachine::descriptor_write(vcpu_id, vm_reg_name::VM_REG_GUEST_TR, 0, 0, 0x0000008b),
        );
        writes.push(VirtualMachine::register_write(vcpu_id, vm_reg_name::VM_REG_GUEST_TR, 0));

        // LDTR
        writes.push(
            VirtualMachine::descriptor_write(
                vcpu_id,
                vm_reg_name::VM_REG_GUEST_LDTR,
                0,
                0xffff,
                0x00000082,
            ),
        );
        writes.push(VirtualMachine::register_write(vcpu_id, vm_reg_name::VM_REG_GUEST_LDTR, 0));
        assert(writes@ =~= VirtualMachine::spec_reset_writes(vcpu_id));

        let mut stages: Vec<Stage> = Vec::new();
        let mut i: usize = 0;
        while i < writes.len()
            invariant
                i <= writes@.len(),
                stages@ == writes@.subrange(0, i as int).map(|j: int, w: Request| Stage::Call(w)),
            decreases writes@.len() - i,
        {
            stages.push(Stage::Call(writes[i]));
            i = i + 1;
            assert(stages@ =~= writes@.subrange(0, i as int).map(
                |j: int, w: Request| Stage::Call(w),
            ));
        }
        assert(writes@.subrange(0, i as int) =~= writes@);
        Operation::new(stages)
    }

    /// Suspends a virtual CPU.
    pub fn suspend_vcpu(&self, vcpu_id: i32) -> (r: Operation)
        ensures
            r@ == VirtualMachine::spec_vcpu_call(
                vcpu_id,
                Request::SuspendCpu(vm_activate_cpu { vcpuid: vcpu_id }),
            ),
    {
        VirtualMachine::vcpu_call(
            vcpu_id,
            Request::SuspendCpu(vm_activate_cpu { vcpuid: vcpu_id }),
        )
    }

    /// Resumes a virtual CPU.
    pub fn resume_vcpu(&self, vcpu_id: i32) -> (r: Operation)
        ensures
            r@ == VirtualMachine::spec_vcpu_call(
                vcpu_id,
                Request::ResumeCpu(vm_activate_cpu { vcpuid: vcpu_id }),
            ),
    {
        VirtualMachine::vcpu_call(
            vcpu_id,
            Request::ResumeCpu(vm_activate_cpu { vcpuid: vcpu_id }),
        )
    }

    /// Runs a virtual CPU until it exits. This is the one request that may
    /// take as long as the guest likes. The operation's output is the exit,
    /// decoded by [`VmExit::from_exit`]; nothing is kept from one run to the
    /// next.
    pub fn run(&self, vcpu_id: i32) -> (r: Operation)
        ensures
            r@ == VirtualMachine::spec_vcpu_call(vcpu_id, Request::Run { cpuid: vcpu_id }),
    {
        VirtualMachine::vcpu_call(vcpu_id, Request::Run { cpuid: vcpu_id })
    }

    /// The operation that suspends the machine for a reason.
    fn suspend(how: vm_suspend_how) -> (r: Operation)
        ensures
            r@ == VirtualMachine::spec_call(Request::Suspend(vm_suspend { how })),
    {
        Operation::single(Stage::Call(Request::Suspend(vm_suspend { how })))
    }

    /// Resets the machine.
    pub fn reset(&self) -> (r: Operation)
        ensures
            r@ == VirtualMachine::spec_call(
                Request::Suspend(vm_suspend { how: vm_suspend_how::VM_SUSPEND_RESET }),
            ),
    {
        VirtualMachine::suspend(vm_suspend_how::VM_SUSPEND_RESET)
    }

    /// Halts the machine.
    pub fn halt(&self) -> (r: Operation)
        ensures
            r@ == VirtualMachine::spec_call(
                Request::Suspend(vm_suspend { how: vm_suspend_how::VM_SUSPEND_HALT }),
            ),
    {
        VirtualMachine::suspend(vm_suspend_how::VM_SUSPEND_HALT)
    }

    /// Powers the machine off.
    pub fn poweroff(&self) -> (r: Operation)
        ensures
            r@ == VirtualMachine::spec_call(
                Request::Suspend(vm_suspend { how: vm_suspend_how::VM_SUSPEND_POWEROFF }),
            ),
    {
        VirtualMachine::suspend(vm_suspend_how::VM_SUSPEND_POWEROFF)
    }

    /// Suspends the machine as after a triple fault.
    pub fn triplefault(&self) -> (r: Operation)
        ensures
            r@ == VirtualMachine::spec_call(
                Request::Suspend(vm_suspend { how: vm_suspend_how::VM_SUSPEND_TRIPLEFAULT }),
            ),
    {
        VirtualMachine::suspend(vm_suspend_how::VM_SUSPEND_TRIPLEFAULT)
    }

    /// Puts the machine back into the state it was created in.
    pub fn reinit(&self) -> (r: Operation)
        ensures
            r@ == VirtualMachine::spec_call(Request::Reinit),
    {
        Operation::single(Stage::Call(Request::Reinit))
    }

    /// Reads an optional capability of a virtual CPU.
    pub fn get_capability(&self, vcpu_id: i32, cap: vm_cap_type) -> (r: Operation)
        ensures
            r@ == VirtualMachine::spec_vcpu_call(
                vcpu_id,
                Request::GetCapability { cpuid: vcpu_id, captype: cap },
            ),
    {
        VirtualMachine::vcpu_call(vcpu_id, Request::GetCapability { cpuid: vcpu_id, captype: cap })
    }

    /// Sets an optional capability of a virtual CPU.
    pub fn set_capability(&self, vcpu_id: i32, cap: vm_cap_type, val: i32) -> (r: Operation)
        ensures
            r@ == VirtualMachine::spec_vcpu_call(
                vcpu_id,
                Request::SetCapability(
                    vm_capability { cpuid: vcpu_id, captype: cap, capval: val, allcpus: 0 },
                ),
            ),
    {
        VirtualMachine::vcpu_call(
            vcpu_id,
            Request::SetCapability(
                vm_capability { cpuid: vcpu_id, captype: cap, capval: val, allcpus: 0 },
            ),
        )
    }
}

} // verus!
