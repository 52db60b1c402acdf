//! The request records of the machine device.
//!
//! One struct per record, with the fields in the order the peer lays them
//! out. A record is a plain value here; its bytes are the business of
//! [`crate::layout`].
use vstd::prelude::*;
use crate::vmm::{seg_desc, vm_cap_type, vm_exit, vm_suspend_how, x2apic_state, VM_MAXCPU};
use crate::wire::{lemma_array_holds, lemma_array_of, spec_array_of};

verus! {

/// Longest name of a device node, without the zero byte that ends it.
pub const SPECNAMELEN: usize = 63;

/// Size of the name buffer of a segment record: the name and its zero byte.
pub const VM_MEMSEG_NAME_SIZE: usize = SPECNAMELEN + 1;

/// Mapping flag: the mapped memory is wired.
pub const VM_MEMMAP_F_WIRED: i32 = 0x01;

/// Mapping flag: the mapped memory is entered into the IOMMU.
pub const VM_MEMMAP_F_IOMMU: i32 = 0x02;

/// Number of counters in a statistics record.
pub const MAX_VM_STATS: usize = 64 + VM_MAXCPU;

/// A time in seconds and microseconds.
#[derive(Clone, Copy, Debug, Default, PartialEq, Eq, Structural)]
pub struct timeval {
    pub tv_sec: i64,
    pub tv_usec: i64,
}

/// A mapping of part of a segment into the guest-physical address space:
/// `len` bytes of segment `segid` from offset `segoff` appear at `gpa` with
/// protection `prot`.
#[derive(Clone, Copy, Debug, Default, PartialEq, Eq, Structural)]
pub struct vm_memmap {
    pub gpa: u64,
    pub segid: i32,
    pub segoff: i64,
    pub len: usize,
    pub prot: i32,
    pub flags: i32,
}

impl vm_memmap {
    /// The record that asks for the first mapping at or above `gpa`.
    pub open spec fn spec_query(gpa: u64) -> vm_memmap {
        vm_memmap { gpa, segid: 0, segoff: 0, len: 0, prot: 0, flags: 0 }
    }

    /// The record that asks for the first mapping at or above `gpa`.
    pub fn query(gpa: u64) -> (r: vm_memmap)
        ensures
            r == vm_memmap::spec_query(gpa),
    {
        vm_memmap { gpa, segid: 0, segoff: 0, len: 0, prot: 0, flags: 0 }
    }

    /// Whether this mapping is the one that `wanted` asks for: the same
    /// segment at the same offset with the same protection and flags. The
    /// two are compared only when they start at the same address, and the
    /// length does not count.
    pub open spec fn spec_same_as(self, wanted: vm_memmap) -> bool {
        &&& self.segid == wanted.segid
        &&& self.segoff == wanted.segoff
        &&& self.prot == wanted.prot
        &&& self.flags == wanted.flags
    }

    /// Whether this mapping is the one that `wanted` asks for.
    pub fn same_as(&self, wanted: &vm_memmap) -> (r: bool)
        ensures
            r == self.spec_same_as(*wanted),
    {
        self.segid == wanted.segid && self.segoff == wanted.segoff && self.prot == wanted.prot
            && self.flags == wanted.flags
    }
}

/// A range of the guest-physical address space to unmap.
#[derive(Clone, Copy, Debug, Default, PartialEq, Eq, Structural)]
pub struct vm_munmap {
    pub gpa: u64,
    pub len: usize,
}

/// A memory segment: its identifier, its length in bytes (zero while the
/// segment is not allocated), and its name as a zero-terminated string in a
/// fixed buffer. System memory has the empty name.
#[derive(Clone, Copy, Debug, PartialEq, Eq)]
pub struct vm_memseg {
    pub segid: i32,
    pub len: usize,
    pub name: [u8; 64],
}

/// No byte of the sequence is zero, so it can be stored as a zero-terminated
/// string.
pub open spec fn is_c_string(bytes: Seq<u8>) -> bool {
    forall|i: int| 0 <= i < bytes.len() ==> bytes[i] != 0
}

/// Length of the zero-terminated string at the start of a buffer: the number
/// of bytes before the first zero byte, or the buffer's length if it holds
/// none.
pub open spec fn spec_c_len(buf: Seq<u8>) -> nat
    decreases buf.len(),
{
    if buf.len() == 0 || buf[0] == 0 {
        0
    } else {
        1 + spec_c_len(buf.subrange(1, buf.len() as int))
    }
}

/// The zero-terminated string at the start of a buffer.
pub open spec fn spec_c_string(buf: Seq<u8>) -> Seq<u8> {
    buf.subrange(0, spec_c_len(buf) as int)
}

/// A name buffer filled with `name` and then zero bytes.
pub open spec fn spec_name_buffer(name: Seq<u8>) -> Seq<u8> {
    Seq::new(64, |i: int| if i < name.len() { name[i] } else { 0u8 })
}

/// `n` is the length of the string in `buf` if and only if the first `n`
/// bytes are not zero and the buffer ends there or has a zero byte there.
pub proof fn lemma_c_len(buf: Seq<u8>, n: int)
    requires
        0 <= n <= buf.len(),
        forall|i: int| 0 <= i < n ==> buf[i] != 0,
        n == buf.len() || buf[n] == 0,
    ensures
        spec_c_len(buf) == n,
    decreases buf.len(),
{
    if n > 0 {
        let rest = buf.subrange(1, buf.len() as int);
        assert forall|i: int| 0 <= i < n - 1 implies rest[i] != 0 by {
            assert(rest[i] == buf[i + 1]);
        }
        lemma_c_len(rest, n - 1);
    }
}

/// A name without a zero byte that fits its buffer is read back from the
/// buffer unchanged.
pub proof fn lemma_name_round_trip(name: Seq<u8>)
    requires
        is_c_string(name),
        name.len() < 64,
    ensures
        spec_c_string(spec_name_buffer(name)) == name,
{
    lemma_c_len(spec_name_buffer(name), name.len() as int);
    assert(spec_c_string(spec_name_buffer(name)) =~= name);
}

impl vm_memseg {
    /// The segment's name: the zero-terminated string in its buffer.
    pub open spec fn spec_name(self) -> Seq<u8> {
        spec_c_string(self.name@)
    }

    /// The record of a segment of `len` bytes called `name`.
    pub open spec fn spec_named(segid: i32, len: usize, name: Seq<u8>) -> vm_memseg {
        vm_memseg { segid, len, name: spec_name_array(name) }
    }

    /// The record of a segment of `len` bytes without a name.
    pub fn unnamed(segid: i32, len: usize) -> (r: vm_memseg)
        ensures
            r == vm_memseg::spec_named(segid, len, Seq::empty()),
    {
        let r = vm_memseg { segid, len, name: [0u8; 64] };
        proof {
            assert(r.name@ =~= spec_name_buffer(Seq::empty()));
            lemma_name_array(Seq::empty(), r.name);
        }
        r
    }

    /// The record of a segment of `len` bytes called `name`, or `None` if
    /// the name and its zero byte do not fit the buffer. A zero byte inside
    /// `name` ends the name that the record holds.
    pub fn named(segid: i32, len: usize, name: &[u8]) -> (r: Option<vm_memseg>)
        ensures
            name@.len() >= 64 <==> r is None,
            r matches Some(s) ==> s == vm_memseg::spec_named(segid, len, name@),
    {
        if name.len() >= VM_MEMSEG_NAME_SIZE {
            return None;
        }
        let mut buf = [0u8; 64];
        let mut i: usize = 0;
        while i < name.len()
            invariant
                i <= name@.len() < 64,
                forall|j: int| 0 <= j < i ==> buf@[j] == name@[j],
                forall|j: int| i <= j < 64 ==> buf@[j] == 0,
            decreases name@.len() - i,
        {
            buf[i] = name[i];
            i = i + 1;
        }
        assert(buf@ =~= spec_name_buffer(name@));
        proof {
            lemma_name_array(name@, buf);
        }
        Some(vm_memseg { segid, len, name: buf })
    }

    /// Length of the segment's name.
    pub fn name_len(&self) -> (r: usize)
        ensures
            r == spec_c_len(self.name@),
            r == self.spec_name().len(),
            r <= 64,
    {
        let mut i: usize = 0;
        while i < 64 && self.name[i] != 0
            invariant
                i <= 64,
                forall|j: int| 0 <= j < i ==> self.name@[j] != 0,
            decreases 64 - i,
        {
            i = i + 1;
        }
        proof {
            lemma_c_len(self.name@, i as int);
        }
        i
    }

    /// Whether two segments have the same name.
    pub fn same_name(&self, other: &vm_memseg) -> (r: bool)
        ensures
            r == (self.spec_name() == other.spec_name()),
    {
        let n = self.name_len();
        if n != other.name_len() {
            return false;
        }
        let mut i: usize = 0;
        while i < n
            invariant
                i <= n <= 64,
                n == spec_c_len(self.name@),
                n == spec_c_len(other.name@),
                forall|j: int| 0 <= j < i ==> self.name@[j] == other.name@[j],
            decreases n - i,
        {
            if self.name[i] != other.name[i] {
                assert(self.spec_name()[i as int] != other.spec_name()[i as int]);
                return false;
            }
            i = i + 1;
        }
        assert(self.spec_name() =~= other.spec_name());
        true
    }
}

/// The name buffer that holds `name`, as an array.
pub open spec fn spec_name_array(name: Seq<u8>) -> [u8; 64] {
    spec_array_of::<64>(spec_name_buffer(name))
}

/// An array that holds the buffer of `name` is the array of that name.
pub proof fn lemma_name_array(name: Seq<u8>, a: [u8; 64])
    requires
        a@ == spec_name_buffer(name),
    ensures
        a == spec_name_array(name),
{
    lemma_array_of::<64>(spec_name_buffer(name), a);
}

/// What the record of a segment holds for a name that can be stored: the
/// name itself.
pub proof fn lemma_wanted_name(segid: i32, len: usize, name: Seq<u8>)
    requires
        is_c_string(name),
        name.len() < 64,
    ensures
        vm_memseg::spec_named(segid, len, name).spec_name() == name,
        vm_memseg::spec_named(segid, len, name).len == len,
        vm_memseg::spec_named(segid, len, name).segid == segid,
        vm_memseg::spec_named(segid, len, name).name@ == spec_name_buffer(name),
{
    lemma_array_holds::<64>(spec_name_buffer(name));
    lemma_name_round_trip(name);
}

impl Default for vm_memseg {
    /// Segment 0, not allocated, without a name.
    fn default() -> (r: vm_memseg)
        ensures
            r == vm_memseg::spec_named(0, 0, Seq::empty()),
    {
        vm_memseg::unnamed(0, 0)
    }
}

/// The time of the real-time clock, in seconds.
#[derive(Clone, Copy, Debug, Default, PartialEq, Eq, Structural)]
pub struct vm_rtc_time {
    pub secs: i64,
}

/// One byte of the real-time clock's memory, at an offset.
#[derive(Clone, Copy, Debug, Default, PartialEq, Eq, Structural)]
pub struct vm_rtc_data {
    pub offset: i32,
    pub value: u8,
}

/// Where in the machine device a device-memory segment begins.
#[derive(Clone, Copy, Debug, Default, PartialEq, Eq, Structural)]
pub struct vm_devmem_offset {
    pub segid: i32,
    pub offset: i64,
}

/// One register of one virtual CPU. `regnum` is the number of a
/// [`crate::vmm::vm_reg_name`].
#[derive(Clone, Copy, Debug, Default, PartialEq, Eq, Structural)]
pub struct vm_register {
    pub cpuid: i32,
    pub regnum: i32,
    pub regval: u64,
}

/// One segment descriptor of one virtual CPU. `regnum` is the number of a
/// [`crate::vmm::vm_reg_name`].
#[derive(Clone, Copy, Debug, Default, PartialEq, Eq, Structural)]
pub struct vm_seg_desc {
    pub cpuid: i32,
    pub regnum: i32,
    pub desc: seg_desc,
}

/// A run of one virtual CPU and the exit that ended it.
#[derive(Clone, Copy, Debug, PartialEq, Eq)]
pub struct vm_run {
    pub cpuid: i32,
    pub vm_exit: vm_exit,
}

/// One capability of one virtual CPU.
#[derive(Clone, Copy, Debug, PartialEq, Eq, Structural)]
pub struct vm_capability {
    pub cpuid: i32,
    pub captype: vm_cap_type,
    pub capval: i32,
    pub allcpus: i32,
}

impl Default for vm_capability {
    fn default() -> (r: vm_capability)
        ensures
            r == (vm_capability { cpuid: 0, captype: vm_cap_type::VM_CAP_MAX, capval: 0, allcpus: 0 }),
    {
        vm_capability { cpuid: 0, captype: vm_cap_type::VM_CAP_MAX, capval: 0, allcpus: 0 }
    }
}

/// The x2APIC state of one virtual CPU.
#[derive(Clone, Copy, Debug, PartialEq, Eq, Structural)]
pub struct vm_x2apic {
    pub cpuid: i32,
    pub state: x2apic_state,
}

impl Default for vm_x2apic {
    fn default() -> (r: vm_x2apic)
        ensures
            r == (vm_x2apic { cpuid: 0, state: x2apic_state::X2APIC_DISABLED }),
    {
        vm_x2apic { cpuid: 0, state: x2apic_state::X2APIC_DISABLED }
    }
}

/// A request to suspend the machine.
#[derive(Clone, Copy, Debug, PartialEq, Eq, Structural)]
pub struct vm_suspend {
    pub how: vm_suspend_how,
}

/// A virtual CPU to activate, suspend or resume.
#[derive(Clone, Copy, Debug, Default, PartialEq, Eq, Structural)]
pub struct vm_activate_cpu {
    pub vcpuid: i32,
}

/// The CPU topology of the machine.
#[derive(Clone, Copy, Debug, Default, PartialEq, Eq, Structural)]
pub struct vm_cpu_topology {
    pub sockets: u16,
    pub cores: u16,
    pub threads: u16,
    pub maxcpus: u16,
}

/// The statistics of one virtual CPU: the peer fills in `num_entries`, the
/// time and as many counters.
#[derive(Clone, Copy, Debug, PartialEq, Eq)]
pub struct vm_stats {
    pub cpuid: i32,
    pub num_entries: i32,
    pub tv: timeval,
    pub statbuf: [u64; MAX_VM_STATS],
}

impl Default for vm_stats {
    fn default() -> (r: vm_stats)
        ensures
            r.cpuid == 0,
            r.num_entries == 0,
            r.tv == (timeval { tv_sec: 0, tv_usec: 0 }),
            forall|i: int| 0 <= i < MAX_VM_STATS ==> r.statbuf@[i] == 0,
    {
        vm_stats {
            cpuid: 0,
            num_entries: 0,
            tv: timeval { tv_sec: 0, tv_usec: 0 },
            statbuf: [0u64; MAX_VM_STATS],
        }
    }
}

// Command words. A command word holds, from the top: three bits that say
// whether the record goes in, comes out or both; the low eight bits of the
// record's size; the group of the machine device; and the number of the
// request.

/// Only the low eight bits of a record's size go into the command word.
pub const IOCPARM_MASK: u32 = 0xff;

/// Where the size stands in the command word.
pub const IOCPARM_SIZESHIFT: u32 = 16;

/// The request has no record.
pub const IOC_VOID: u32 = 0x20000000;

/// The peer fills the record in.
pub const IOC_OUT: u32 = 0x40000000;

/// The peer reads the record.
pub const IOC_IN: u32 = 0x80000000;

/// The peer reads the record and fills it in.
pub const IOC_INOUT: u32 = IOC_IN | IOC_OUT;

/// The group of the requests to a machine device: the letter `v`.
pub const VMM_IOC_GROUP: u32 = 118 << 8;

/// The command word of a request: its direction, the low eight bits of its
/// record's size, the group and the number.
pub open spec fn spec_ioctl_op(inout: u32, number: u32, size: u32) -> u32 {
    inout | ((size & IOCPARM_MASK) << IOCPARM_SIZESHIFT) | VMM_IOC_GROUP | number
}

/// The command word of a request.
pub fn ioctl_op(inout: u32, number: u32, size: u32) -> (r: u32)
    ensures
        r == spec_ioctl_op(inout, number, size),
        inout & 0x1fffffff == 0 && number < 0x100 ==> {
            &&& r & 0xe0000000 == inout
            &&& (r >> 16) & 0xff == size & 0xff
            &&& (r >> 8) & 0xff == 118
            &&& r & 0xff == number
        },
{
    let sized: u32 = (size & IOCPARM_MASK) << IOCPARM_SIZESHIFT;
    let r: u32 = inout | sized | VMM_IOC_GROUP | number;
    assert(inout & 0x1fffffff == 0 && number < 0x100 ==> {
        &&& (inout | ((size & 0xff) << 16) | (118u32 << 8) | number) & 0xe0000000 == inout
        &&& ((inout | ((size & 0xff) << 16) | (118u32 << 8) | number) >> 16) & 0xff == size & 0xff
        &&& ((inout | ((size & 0xff) << 16) | (118u32 << 8) | number) >> 8) & 0xff == 118
        &&& (inout | ((size & 0xff) << 16) | (118u32 << 8) | number) & 0xff == number
    }) by (bit_vector);
    r
}

// The numbers of the requests.
pub const IOCNUM_RUN: u32 = 1;
pub const IOCNUM_SUSPEND: u32 = 4;
pub const IOCNUM_REINIT: u32 = 5;
pub const IOCNUM_ALLOC_MEMSEG: u32 = 14;
pub const IOCNUM_GET_MEMSEG: u32 = 15;
pub const IOCNUM_MMAP_MEMSEG: u32 = 16;
pub const IOCNUM_MMAP_GETNEXT: u32 = 17;
pub const IOCNUM_MUNMAP_MEMSEG: u32 = 19;
pub const IOCNUM_SET_REGISTER: u32 = 20;
pub const IOCNUM_GET_REGISTER: u32 = 21;
pub const IOCNUM_SET_SEGMENT_DESCRIPTOR: u32 = 22;
pub const IOCNUM_GET_SEGMENT_DESCRIPTOR: u32 = 23;
pub const IOCNUM_SET_CAPABILITY: u32 = 2;
pub const IOCNUM_GET_CAPABILITY: u32 = 3;
pub const IOCNUM_SET_X2APIC_STATE: u32 = 60;
pub const IOCNUM_GET_X2APIC_STATE: u32 = 61;
pub const IOCNUM_SET_TOPOLOGY: u32 = 63;
pub const IOCNUM_GET_TOPOLOGY: u32 = 64;
pub const IOCNUM_VM_STATS: u32 = 50;
pub const IOCNUM_ACTIVATE_CPU: u32 = 90;
pub const IOCNUM_SUSPEND_CPU: u32 = 92;
pub const IOCNUM_RESUME_CPU: u32 = 93;
pub const IOCNUM_RTC_WRITE: u32 = 101;
pub const IOCNUM_RTC_READ: u32 = 100;
pub const IOCNUM_RTC_SETTIME: u32 = 102;
pub const IOCNUM_RTC_GETTIME: u32 = 103;
pub const IOCNUM_DEVMEM_GETOFFSET: u32 = 256;

/// Size in bytes of a `vm_run` record.
pub const VM_RUN_SIZE: u32 = 144;

/// Size in bytes of a `vm_suspend` record.
pub const VM_SUSPEND_SIZE: u32 = 4;

/// Size in bytes of a `vm_memseg` record.
pub const VM_MEMSEG_SIZE: u32 = 80;

/// Size in bytes of a `vm_memmap` record.
pub const VM_MEMMAP_SIZE: u32 = 40;

/// Size in bytes of a `vm_munmap` record.
pub const VM_MUNMAP_SIZE: u32 = 16;

/// Size in bytes of a `vm_register` record.
pub const VM_REGISTER_SIZE: u32 = 16;

/// Size in bytes of a `vm_seg_desc` record.
pub const VM_SEG_DESC_SIZE: u32 = 24;

/// Size in bytes of a `vm_capability` record.
pub const VM_CAPABILITY_SIZE: u32 = 16;

/// Size in bytes of a `vm_x2apic` record.
pub const VM_X2APIC_SIZE: u32 = 8;

/// Size in bytes of a `vm_cpu_topology` record.
pub const VM_CPU_TOPOLOGY_SIZE: u32 = 8;

/// Size in bytes of a `vm_stats` record.
pub const VM_STATS_SIZE: u32 = 792;

/// Size in bytes of a `vm_activate_cpu` record.
pub const VM_ACTIVATE_CPU_SIZE: u32 = 4;

/// Size in bytes of a `vm_rtc_data` record.
pub const VM_RTC_DATA_SIZE: u32 = 8;

/// Size in bytes of a `vm_rtc_time` record.
pub const VM_RTC_TIME_SIZE: u32 = 8;

/// Size in bytes of a `vm_devmem_offset` record.
pub const VM_DEVMEM_OFFSET_SIZE: u32 = 16;

pub const VM_RUN: u32 = IOC_INOUT | ((VM_RUN_SIZE & IOCPARM_MASK) << IOCPARM_SIZESHIFT) | VMM_IOC_GROUP
    | IOCNUM_RUN;

pub const VM_SUSPEND: u32 = IOC_IN | ((VM_SUSPEND_SIZE & IOCPARM_MASK) << IOCPARM_SIZESHIFT) | VMM_IOC_GROUP
    | IOCNUM_SUSPEND;

pub const VM_REINIT: u32 = IOC_VOID | ((0 & IOCPARM_MASK) << IOCPARM_SIZESHIFT) | VMM_IOC_GROUP
    | IOCNUM_REINIT;

pub const VM_ALLOC_MEMSEG: u32 = IOC_IN | ((VM_MEMSEG_SIZE & IOCPARM_MASK) << IOCPARM_SIZESHIFT) | VMM_IOC_GROUP
    | IOCNUM_ALLOC_MEMSEG;

pub const VM_GET_MEMSEG: u32 = IOC_INOUT | ((VM_MEMSEG_SIZE & IOCPARM_MASK) << IOCPARM_SIZESHIFT) | VMM_IOC_GROUP
    | IOCNUM_GET_MEMSEG;

pub const VM_MMAP_MEMSEG: u32 = IOC_IN | ((VM_MEMMAP_SIZE & IOCPARM_MASK) << IOCPARM_SIZESHIFT) | VMM_IOC_GROUP
    | IOCNUM_MMAP_MEMSEG;

pub const VM_MMAP_GETNEXT: u32 = IOC_INOUT | ((VM_MEMMAP_SIZE & IOCPARM_MASK) << IOCPARM_SIZESHIFT) | VMM_IOC_GROUP
    | IOCNUM_MMAP_GETNEXT;

pub const VM_MUNMAP_MEMSEG: u32 = IOC_IN | ((VM_MUNMAP_SIZE & IOCPARM_MASK) << IOCPARM_SIZESHIFT) | VMM_IOC_GROUP
    | IOCNUM_MUNMAP_MEMSEG;

pub const VM_SET_REGISTER: u32 = IOC_IN | ((VM_REGISTER_SIZE & IOCPARM_MASK) << IOCPARM_SIZESHIFT) | VMM_IOC_GROUP
    | IOCNUM_SET_REGISTER;

pub const VM_GET_REGISTER: u32 = IOC_INOUT | ((VM_REGISTER_SIZE & IOCPARM_MASK) << IOCPARM_SIZESHIFT) | VMM_IOC_GROUP
    | IOCNUM_GET_REGISTER;

pub const VM_SET_SEGMENT_DESCRIPTOR: u32 = IOC_IN | ((VM_SEG_DESC_SIZE & IOCPARM_MASK) << IOCPARM_SIZESHIFT) | VMM_IOC_GROUP
    | IOCNUM_SET_SEGMENT_DESCRIPTOR;

pub const VM_GET_SEGMENT_DESCRIPTOR: u32 = IOC_INOUT | ((VM_SEG_DESC_SIZE & IOCPARM_MASK) << IOCPARM_SIZESHIFT) | VMM_IOC_GROUP
    | IOCNUM_GET_SEGMENT_DESCRIPTOR;

pub const VM_SET_CAPABILITY: u32 = IOC_IN | ((VM_CAPABILITY_SIZE & IOCPARM_MASK) << IOCPARM_SIZESHIFT) | VMM_IOC_GROUP
    | IOCNUM_SET_CAPABILITY;

pub const VM_GET_CAPABILITY: u32 = IOC_INOUT | ((VM_CAPABILITY_SIZE & IOCPARM_MASK) << IOCPARM_SIZESHIFT) | VMM_IOC_GROUP
    | IOCNUM_GET_CAPABILITY;

pub const VM_SET_X2APIC_STATE: u32 = IOC_IN | ((VM_X2APIC_SIZE & IOCPARM_MASK) << IOCPARM_SIZESHIFT) | VMM_IOC_GROUP
    | IOCNUM_SET_X2APIC_STATE;

pub const VM_GET_X2APIC_STATE: u32 = IOC_INOUT | ((VM_X2APIC_SIZE & IOCPARM_MASK) << IOCPARM_SIZESHIFT) | VMM_IOC_GROUP
    | IOCNUM_GET_X2APIC_STATE;

pub const VM_SET_TOPOLOGY: u32 = IOC_IN | ((VM_CPU_TOPOLOGY_SIZE & IOCPARM_MASK) << IOCPARM_SIZESHIFT) | VMM_IOC_GROUP
    | IOCNUM_SET_TOPOLOGY;

pub const VM_GET_TOPOLOGY: u32 = IOC_OUT | ((VM_CPU_TOPOLOGY_SIZE & IOCPARM_MASK) << IOCPARM_SIZESHIFT) | VMM_IOC_GROUP
    | IOCNUM_GET_TOPOLOGY;

pub const VM_STATS_IOC: u32 = IOC_INOUT | ((VM_STATS_SIZE & IOCPARM_MASK) << IOCPARM_SIZESHIFT) | VMM_IOC_GROUP
    | IOCNUM_VM_STATS;

pub const VM_ACTIVATE_CPU: u32 = IOC_IN | ((VM_ACTIVATE_CPU_SIZE & IOCPARM_MASK) << IOCPARM_SIZESHIFT) | VMM_IOC_GROUP
    | IOCNUM_ACTIVATE_CPU;

pub const VM_SUSPEND_CPU: u32 = IOC_IN | ((VM_ACTIVATE_CPU_SIZE & IOCPARM_MASK) << IOCPARM_SIZESHIFT) | VMM_IOC_GROUP
    | IOCNUM_SUSPEND_CPU;

pub const VM_RESUME_CPU: u32 = IOC_IN | ((VM_ACTIVATE_CPU_SIZE & IOCPARM_MASK) << IOCPARM_SIZESHIFT) | VMM_IOC_GROUP
    | IOCNUM_RESUME_CPU;

pub const VM_RTC_WRITE: u32 = IOC_IN | ((VM_RTC_DATA_SIZE & IOCPARM_MASK) << IOCPARM_SIZESHIFT) | VMM_IOC_GROUP
    | IOCNUM_RTC_WRITE;

pub const VM_RTC_READ: u32 = IOC_INOUT | ((VM_RTC_DATA_SIZE & IOCPARM_MASK) << IOCPARM_SIZESHIFT) | VMM_IOC_GROUP
    | IOCNUM_RTC_READ;

pub const VM_RTC_SETTIME: u32 = IOC_IN | ((VM_RTC_TIME_SIZE & IOCPARM_MASK) << IOCPARM_SIZESHIFT) | VMM_IOC_GROUP
    | IOCNUM_RTC_SETTIME;

pub const VM_RTC_GETTIME: u32 = IOC_OUT | ((VM_RTC_TIME_SIZE & IOCPARM_MASK) << IOCPARM_SIZESHIFT) | VMM_IOC_GROUP
    | IOCNUM_RTC_GETTIME;

pub const VM_DEVMEM_GETOFFSET: u32 = IOC_IN | ((VM_DEVMEM_OFFSET_SIZE & IOCPARM_MASK) << IOCPARM_SIZESHIFT) | VMM_IOC_GROUP
    | IOCNUM_DEVMEM_GETOFFSET;

// The requests to the control device, which creates and destroys machines.

/// The group of the requests to the control device: the letters `V` and `M`.
pub const VMM_IOC_BASE: u32 = (86 << 16) | (77 << 8);

pub const VMM_CREATE_VM: u32 = VMM_IOC_BASE | 0x01;

pub const VMM_DESTROY_VM: u32 = VMM_IOC_BASE | 0x02;

} // verus!
