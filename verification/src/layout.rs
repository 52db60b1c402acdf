//! The bytes of the request records.
//!
//! The peer reads and writes records as a C compiler for x86-64 lays them
//! out: each field at its natural alignment, with padding before a more
//! strictly aligned field and at the end. The order and width of the fields
//! are part of the interface; this module is the one place that knows them.
use vstd::prelude::*;
use vstd::bytes::{
    lemma_auto_spec_u16_to_from_le_bytes, lemma_auto_spec_u32_to_from_le_bytes,
    lemma_auto_spec_u64_to_from_le_bytes, spec_u16_to_le_bytes, spec_u32_to_le_bytes,
    spec_u64_to_le_bytes,
};
use crate::vmm::{vm_exit, vm_exit_payload, vm_exitcode};
use crate::vmm_dev::{
    vm_activate_cpu, vm_capability, vm_cpu_topology, vm_devmem_offset, vm_memmap, vm_memseg,
    vm_munmap, vm_register, vm_rtc_data, vm_rtc_time, vm_run, vm_seg_desc, vm_suspend, vm_x2apic,
    VM_ACTIVATE_CPU_SIZE, VM_CAPABILITY_SIZE, VM_CPU_TOPOLOGY_SIZE, VM_DEVMEM_OFFSET_SIZE,
    VM_MEMMAP_SIZE, VM_MEMSEG_SIZE, VM_MUNMAP_SIZE, VM_REGISTER_SIZE, VM_RTC_DATA_SIZE,
    VM_RTC_TIME_SIZE, VM_RUN_SIZE, VM_SEG_DESC_SIZE, VM_STATS_SIZE, VM_SUSPEND_SIZE,
    VM_X2APIC_SIZE,
};
use crate::wire::{
    array_at, i32_at, i64_at, lemma_array_of, lemma_signed_round_trip, put_bytes, put_i32, put_i64,
    put_u16, put_u32, put_u64, put_u8, put_usize, put_zeros, spec_array_of, spec_i32_at,
    spec_i32_bytes, spec_i64_at, spec_i64_bytes, spec_u64_at, spec_u8_bytes, spec_usize_bytes,
    spec_zeros, u64_at,
};

verus! {

/// How many bytes each integer takes, and that an integer written is the
/// integer read.
pub proof fn lemma_sizes()
    ensures
        forall|x: u16| #[trigger] spec_u16_to_le_bytes(x).len() == 2,
        forall|x: u32| #[trigger] spec_u32_to_le_bytes(x).len() == 4,
        forall|x: u64| #[trigger] spec_u64_to_le_bytes(x).len() == 8,
        forall|x: u16|
            vstd::bytes::spec_u16_from_le_bytes(#[trigger] spec_u16_to_le_bytes(x)) == x,
        forall|x: u32|
            vstd::bytes::spec_u32_from_le_bytes(#[trigger] spec_u32_to_le_bytes(x)) == x,
        forall|x: u64|
            vstd::bytes::spec_u64_from_le_bytes(#[trigger] spec_u64_to_le_bytes(x)) == x,
{
    lemma_auto_spec_u16_to_from_le_bytes();
    lemma_auto_spec_u32_to_from_le_bytes();
    lemma_auto_spec_u64_to_from_le_bytes();
    assert forall|x: u16|
        vstd::bytes::spec_u16_from_le_bytes(#[trigger] spec_u16_to_le_bytes(x)) == x by {
        assert(spec_u16_to_le_bytes(x).len() == 2);
    }
    assert forall|x: u32|
        vstd::bytes::spec_u32_from_le_bytes(#[trigger] spec_u32_to_le_bytes(x)) == x by {
        assert(spec_u32_to_le_bytes(x).len() == 4);
    }
    assert forall|x: u64|
        vstd::bytes::spec_u64_from_le_bytes(#[trigger] spec_u64_to_le_bytes(x)) == x by {
        assert(spec_u64_to_le_bytes(x).len() == 8);
    }
}

impl vm_memmap {
    /// The bytes of the record: its fields in order, each in its place.
    pub open spec fn spec_encode(self) -> Seq<u8> {
        spec_u64_to_le_bytes(self.gpa)
            + spec_i32_bytes(self.segid)
            + spec_zeros(4)
            + spec_i64_bytes(self.segoff)
            + spec_usize_bytes(self.len)
            + spec_i32_bytes(self.prot)
            + spec_i32_bytes(self.flags)
    }

    /// Writes the record out as the 40 bytes that the peer reads.
    pub fn encode(&self) -> (r: Vec<u8>)
        ensures
            r@ == self.spec_encode(),
            r@.len() == VM_MEMMAP_SIZE,
    {
        let mut out: Vec<u8> = Vec::new();
        put_u64(&mut out, self.gpa);
        put_i32(&mut out, self.segid);
        put_zeros(&mut out, 4);
        put_i64(&mut out, self.segoff);
        put_usize(&mut out, self.len);
        put_i32(&mut out, self.prot);
        put_i32(&mut out, self.flags);
        proof {
            lemma_sizes();
            assert(out@ =~= self.spec_encode());
        }
        out
    }

    /// The record that the first 40 bytes of `s` hold; `None` if `s` is
    /// shorter, or holds a length that this platform cannot address.
    pub open spec fn spec_decode(s: Seq<u8>) -> Option<vm_memmap> {
        if s.len() < 40 || spec_u64_at(s, 24) > usize::MAX {
            None
        } else {
            Some(
                vm_memmap {
                    gpa: spec_u64_at(s, 0),
                    segid: spec_i32_at(s, 8),
                    segoff: spec_i64_at(s, 16),
                    len: (spec_u64_at(s, 24) as usize),
                    prot: spec_i32_at(s, 32),
                    flags: spec_i32_at(s, 36),
                },
            )
        }
    }

    /// Reads the record from the bytes that the peer filled in.
    pub fn decode(s: &[u8]) -> (r: Option<vm_memmap>)
        ensures
            r == vm_memmap::spec_decode(s@),
    {
        if s.len() < 40 {
            return None;
        }
        let len: u64 = u64_at(s, 24);
        if len > usize::MAX as u64 {
            return None;
        }
        Some(
            vm_memmap {
                gpa: u64_at(s, 0),
                segid: i32_at(s, 8),
                segoff: i64_at(s, 16),
                len: len as usize,
                prot: i32_at(s, 32),
                flags: i32_at(s, 36),
            },
        )
    }

    /// A record written out and read back is the same record.
    pub proof fn lemma_round_trip(self)
        ensures
            vm_memmap::spec_decode(self.spec_encode()) == Some(self),
    {
        lemma_sizes();
        let s = self.spec_encode();
        assert(s.len() == 40);
        assert(s.subrange(0, 8) =~= spec_u64_to_le_bytes(self.gpa));
        assert(s.subrange(8, 12) =~= spec_i32_bytes(self.segid));
        assert(s.subrange(16, 24) =~= spec_i64_bytes(self.segoff));
        assert(s.subrange(24, 32) =~= spec_usize_bytes(self.len));
        assert(s.subrange(32, 36) =~= spec_i32_bytes(self.prot));
        assert(s.subrange(36, 40) =~= spec_i32_bytes(self.flags));
        lemma_signed_round_trip(0, 0);
        let d = vm_memmap::spec_decode(s).unwrap();
        assert(d.gpa == self.gpa);
        assert(d.segid == self.segid) by {
            lemma_signed_round_trip(self.segid, 0);
        }
        assert(d.segoff == self.segoff) by {
            lemma_signed_round_trip(0, self.segoff);
        }
        assert(d.len == self.len);
        assert(d.prot == self.prot) by {
            lemma_signed_round_trip(self.prot, 0);
        }
        assert(d.flags == self.flags) by {
            lemma_signed_round_trip(self.flags, 0);
        }
    }
}

impl vm_munmap {
    /// The bytes of the record: its fields in order, each in its place.
    pub open spec fn spec_encode(self) -> Seq<u8> {
        spec_u64_to_le_bytes(self.gpa)
            + spec_usize_bytes(self.len)
    }

    /// Writes the record out as the 16 bytes that the peer reads.
    pub fn encode(&self) -> (r: Vec<u8>)
        ensures
            r@ == self.spec_encode(),
            r@.len() == VM_MUNMAP_SIZE,
    {
        let mut out: Vec<u8> = Vec::new();
        put_u64(&mut out, self.gpa);
        put_usize(&mut out, self.len);
        proof {
            lemma_sizes();
            assert(out@ =~= self.spec_encode());
        }
        out
    }
}

impl vm_memseg {
    /// The bytes of the record: its fields in order, each in its place.
    pub open spec fn spec_encode(self) -> Seq<u8> {
        spec_i32_bytes(self.segid)
            + spec_zeros(4)
            + spec_usize_bytes(self.len)
            + self.name@
    }

    /// Writes the record out as the 80 bytes that the peer reads.
    pub fn encode(&self) -> (r: Vec<u8>)
        ensures
            r@ == self.spec_encode(),
            r@.len() == VM_MEMSEG_SIZE,
    {
        let mut out: Vec<u8> = Vec::new();
        put_i32(&mut out, self.segid);
        put_zeros(&mut out, 4);
        put_usize(&mut out, self.len);
        put_bytes(&mut out, self.name.as_slice());
        proof {
            lemma_sizes();
            assert(out@ =~= self.spec_encode());
        }
        out
    }

    /// The record that the first 80 bytes of `s` hold; `None` if `s` is
    /// shorter, or holds a length that this platform cannot address.
    pub open spec fn spec_decode(s: Seq<u8>) -> Option<vm_memseg> {
        if s.len() < 80 || spec_u64_at(s, 8) > usize::MAX {
            None
        } else {
            Some(
                vm_memseg {
                    segid: spec_i32_at(s, 0),
                    len: (spec_u64_at(s, 8) as usize),
                    name: spec_array_of::<64>(s.subrange(16, 80)),
                },
            )
        }
    }

    /// Reads the record from the bytes that the peer filled in.
    pub fn decode(s: &[u8]) -> (r: Option<vm_memseg>)
        ensures
            r == vm_memseg::spec_decode(s@),
    {
        if s.len() < 80 {
            return None;
        }
        let len: u64 = u64_at(s, 8);
        if len > usize::MAX as u64 {
            return None;
        }
        Some(
            vm_memseg {
                segid: i32_at(s, 0),
                len: len as usize,
                name: array_at::<64>(s, 16),
            },
        )
    }

    /// A record written out and read back is the same record.
    pub proof fn lemma_round_trip(self)
        ensures
            vm_memseg::spec_decode(self.spec_encode()) == Some(self),
    {
        lemma_sizes();
        let s = self.spec_encode();
        assert(s.len() == 80);
        assert(s.subrange(0, 4) =~= spec_i32_bytes(self.segid));
        assert(s.subrange(8, 16) =~= spec_usize_bytes(self.len));
        assert(s.subrange(16, 80) =~= self.name@);
        lemma_array_of::<64>(self.name@, self.name);
        lemma_signed_round_trip(0, 0);
        let d = vm_memseg::spec_decode(s).unwrap();
        assert(d.segid == self.segid) by {
            lemma_signed_round_trip(self.segid, 0);
        }
        assert(d.len == self.len);
        assert(d.name == self.name);
    }
}

impl vm_rtc_time {
    /// The bytes of the record: its fields in order, each in its place.
    pub open spec fn spec_encode(self) -> Seq<u8> {
        spec_i64_bytes(self.secs)
    }

    /// Writes the record out as the 8 bytes that the peer reads.
    pub fn encode(&self) -> (r: Vec<u8>)
        ensures
            r@ == self.spec_encode(),
            r@.len() == VM_RTC_TIME_SIZE,
    {
        let mut out: Vec<u8> = Vec::new();
        put_i64(&mut out, self.secs);
        proof {
            lemma_sizes();
            assert(out@ =~= self.spec_encode());
        }
        out
    }
}

impl vm_rtc_data {
    /// The bytes of the record: its fields in order, each in its place.
    pub open spec fn spec_encode(self) -> Seq<u8> {
        spec_i32_bytes(self.offset)
            + spec_u8_bytes(self.value)
            + spec_zeros(3)
    }

    /// Writes the record out as the 8 bytes that the peer reads.
    pub fn encode(&self) -> (r: Vec<u8>)
        ensures
            r@ == self.spec_encode(),
            r@.len() == VM_RTC_DATA_SIZE,
    {
        let mut out: Vec<u8> = Vec::new();
        put_i32(&mut out, self.offset);
        put_u8(&mut out, self.value);
        put_zeros(&mut out, 3);
        proof {
            lemma_sizes();
            assert(out@ =~= self.spec_encode());
        }
        out
    }
}

impl vm_devmem_offset {
    /// The bytes of the record: its fields in order, each in its place.
    pub open spec fn spec_encode(self) -> Seq<u8> {
        spec_i32_bytes(self.segid)
            + spec_zeros(4)
            + spec_i64_bytes(self.offset)
    }

    /// Writes the record out as the 16 bytes that the peer reads.
    pub fn encode(&self) -> (r: Vec<u8>)
        ensures
            r@ == self.spec_encode(),
            r@.len() == VM_DEVMEM_OFFSET_SIZE,
    {
        let mut out: Vec<u8> = Vec::new();
        put_i32(&mut out, self.segid);
        put_zeros(&mut out, 4);
        put_i64(&mut out, self.offset);
        proof {
            lemma_sizes();
            assert(out@ =~= self.spec_encode());
        }
        out
    }
}

impl vm_register {
    /// The bytes of the record: its fields in order, each in its place.
    pub open spec fn spec_encode(self) -> Seq<u8> {
        spec_i32_bytes(self.cpuid)
            + spec_i32_bytes(self.regnum)
            + spec_u64_to_le_bytes(self.regval)
    }

    /// Writes the record out as the 16 bytes that the peer reads.
    pub fn encode(&self) -> (r: Vec<u8>)
        ensures
            r@ == self.spec_encode(),
            r@.len() == VM_REGISTER_SIZE,
    {
        let mut out: Vec<u8> = Vec::new();
        put_i32(&mut out, self.cpuid);
        put_i32(&mut out, self.regnum);
        put_u64(&mut out, self.regval);
        proof {
            lemma_sizes();
            assert(out@ =~= self.spec_encode());
        }
        out
    }
}

impl vm_seg_desc {
    /// The bytes of the record: its fields in order, each in its place.
    pub open spec fn spec_encode(self) -> Seq<u8> {
        spec_i32_bytes(self.cpuid)
            + spec_i32_bytes(self.regnum)
            + spec_u64_to_le_bytes(self.desc.base)
            + spec_u32_to_le_bytes(self.desc.limit)
            + spec_u32_to_le_bytes(self.desc.access)
    }

    /// Writes the record out as the 24 bytes that the peer reads.
    pub fn encode(&self) -> (r: Vec<u8>)
        ensures
            r@ == self.spec_encode(),
            r@.len() == VM_SEG_DESC_SIZE,
    {
        let mut out: Vec<u8> = Vec::new();
        put_i32(&mut out, self.cpuid);
        put_i32(&mut out, self.regnum);
        put_u64(&mut out, self.desc.base);
        put_u32(&mut out, self.desc.limit);
        put_u32(&mut out, self.desc.access);
        proof {
            lemma_sizes();
            assert(out@ =~= self.spec_encode());
        }
        out
    }
}

impl vm_capability {
    /// The bytes of the record: its fields in order, each in its place.
    pub open spec fn spec_encode(self) -> Seq<u8> {
        spec_i32_bytes(self.cpuid)
            + spec_i32_bytes(self.captype.spec_code())
            + spec_i32_bytes(self.capval)
            + spec_i32_bytes(self.allcpus)
    }

    /// Writes the record out as the 16 bytes that the peer reads.
    pub fn encode(&self) -> (r: Vec<u8>)
        ensures
            r@ == self.spec_encode(),
            r@.len() == VM_CAPABILITY_SIZE,
    {
        let mut out: Vec<u8> = Vec::new();
        put_i32(&mut out, self.cpuid);
        put_i32(&mut out, self.captype.code());
        put_i32(&mut out, self.capval);
        put_i32(&mut out, self.allcpus);
        proof {
            lemma_sizes();
            assert(out@ =~= self.spec_encode());
        }
        out
    }
}

impl vm_x2apic {
    /// The bytes of the record: its fields in order, each in its place.
    pub open spec fn spec_encode(self) -> Seq<u8> {
        spec_i32_bytes(self.cpuid)
            + spec_i32_bytes(self.state.spec_code())
    }

    /// Writes the record out as the 8 bytes that the peer reads.
    pub fn encode(&self) -> (r: Vec<u8>)
        ensures
            r@ == self.spec_encode(),
            r@.len() == VM_X2APIC_SIZE,
    {
        let mut out: Vec<u8> = Vec::new();
        put_i32(&mut out, self.cpuid);
        put_i32(&mut out, self.state.code());
        proof {
            lemma_sizes();
            assert(out@ =~= self.spec_encode());
        }
        out
    }
}

impl vm_suspend {
    /// The bytes of the record: its fields in order, each in its place.
    pub open spec fn spec_encode(self) -> Seq<u8> {
        spec_i32_bytes(self.how.spec_code())
    }

    /// Writes the record out as the 4 bytes that the peer reads.
    pub fn encode(&self) -> (r: Vec<u8>)
        ensures
            r@ == self.spec_encode(),
            r@.len() == VM_SUSPEND_SIZE,
    {
        let mut out: Vec<u8> = Vec::new();
        put_i32(&mut out, self.how.code());
        proof {
            lemma_sizes();
            assert(out@ =~= self.spec_encode());
        }
        out
    }
}

impl vm_activate_cpu {
    /// The bytes of the record: its fields in order, each in its place.
    pub open spec fn spec_encode(self) -> Seq<u8> {
        spec_i32_bytes(self.vcpuid)
    }

    /// Writes the record out as the 4 bytes that the peer reads.
    pub fn encode(&self) -> (r: Vec<u8>)
        ensures
            r@ == self.spec_encode(),
            r@.len() == VM_ACTIVATE_CPU_SIZE,
    {
        let mut out: Vec<u8> = Vec::new();
        put_i32(&mut out, self.vcpuid);
        proof {
            lemma_sizes();
            assert(out@ =~= self.spec_encode());
        }
        out
    }
}

impl vm_cpu_topology {
    /// The bytes of the record: its fields in order, each in its place.
    pub open spec fn spec_encode(self) -> Seq<u8> {
        spec_u16_to_le_bytes(self.sockets)
            + spec_u16_to_le_bytes(self.cores)
            + spec_u16_to_le_bytes(self.threads)
            + spec_u16_to_le_bytes(self.maxcpus)
    }

    /// Writes the record out as the 8 bytes that the peer reads.
    pub fn encode(&self) -> (r: Vec<u8>)
        ensures
            r@ == self.spec_encode(),
            r@.len() == VM_CPU_TOPOLOGY_SIZE,
    {
        let mut out: Vec<u8> = Vec::new();
        put_u16(&mut out, self.sockets);
        put_u16(&mut out, self.cores);
        put_u16(&mut out, self.threads);
        put_u16(&mut out, self.maxcpus);
        proof {
            lemma_sizes();
            assert(out@ =~= self.spec_encode());
        }
        out
    }
}
/// The record of a run request for virtual CPU `cpuid`: the CPU, and an
/// exit record as it is before the peer fills it in.
pub open spec fn spec_run_record(cpuid: i32) -> Seq<u8> {
    spec_i32_bytes(cpuid) + spec_zeros(4) + spec_i32_bytes(
        vm_exitcode::VM_EXITCODE_BOGUS.spec_code(),
    ) + spec_i32_bytes(0) + spec_u64_to_le_bytes(0) + spec_zeros(120)
}

/// Writes out the record of a run request.
pub fn run_record(cpuid: i32) -> (r: Vec<u8>)
    ensures
        r@ == spec_run_record(cpuid),
        r@.len() == VM_RUN_SIZE,
{
    let mut out: Vec<u8> = Vec::new();
    put_i32(&mut out, cpuid);
    put_zeros(&mut out, 4);
    put_i32(&mut out, vm_exitcode::VM_EXITCODE_BOGUS.code());
    put_i32(&mut out, 0);
    put_u64(&mut out, 0);
    put_zeros(&mut out, 120);
    proof {
        lemma_sizes();
        assert(out@ =~= spec_run_record(cpuid));
    }
    out
}

/// The record of a statistics request for virtual CPU `cpuid`: the CPU, and
/// room for the number of entries, the time and the counters.
pub open spec fn spec_stats_record(cpuid: i32) -> Seq<u8> {
    spec_i32_bytes(cpuid) + spec_zeros(788)
}

/// Writes out the record of a statistics request.
pub fn stats_record(cpuid: i32) -> (r: Vec<u8>)
    ensures
        r@ == spec_stats_record(cpuid),
        r@.len() == VM_STATS_SIZE,
{
    let mut out: Vec<u8> = Vec::new();
    put_i32(&mut out, cpuid);
    put_zeros(&mut out, 788);
    proof {
        lemma_sizes();
        assert(out@ =~= spec_stats_record(cpuid));
    }
    out
}

impl vm_run {
    /// The run record that the first 144 bytes of `s` hold; `None` if `s` is
    /// shorter.
    pub open spec fn spec_decode(s: Seq<u8>) -> Option<vm_run> {
        if s.len() < 144 {
            None
        } else {
            Some(
                vm_run {
                    cpuid: spec_i32_at(s, 0),
                    vm_exit: vm_exit {
                        exitcode: spec_i32_at(s, 8),
                        inst_length: spec_i32_at(s, 12),
                        rip: spec_u64_at(s, 16),
                        u: vm_exit_payload { bytes: spec_array_of::<120>(s.subrange(24, 144)) },
                    },
                },
            )
        }
    }

    /// Reads a run record from the bytes that the peer filled in.
    pub fn decode(s: &[u8]) -> (r: Option<vm_run>)
        ensures
            r == vm_run::spec_decode(s@),
            r matches Some(run) ==> run.vm_exit.u.bytes@ == s@.subrange(24, 144),
    {
        if s.len() < 144 {
            return None;
        }
        Some(
            vm_run {
                cpuid: i32_at(s, 0),
                vm_exit: vm_exit {
                    exitcode: i32_at(s, 8),
                    inst_length: i32_at(s, 12),
                    rip: u64_at(s, 16),
                    u: vm_exit_payload { bytes: array_at::<120>(s, 24) },
                },
            },
        )
    }
}

} // verus!
