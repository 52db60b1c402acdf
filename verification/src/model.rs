//! What the hypervisor keeps of a machine, and the laws of the operations.
//!
//! An operation is a function of the answers it gets, and the answers come
//! from a peer that this library cannot see into. To say what the
//! operations achieve, this module describes the peer's side as far as the
//! operations depend on it: a table of allocated segments, the mappings of
//! the guest-physical address space by their start address, and the
//! registers and descriptors of the virtual CPUs. [`Machine::serve`] says
//! how each request is answered and what it changes, and
//! [`Machine::perform`] carries an operation through against it. The laws
//! below are proved of every machine of this description.
use vstd::prelude::*;
use crate::error::Error;
use crate::operation::{host_map, OperationView, Output, Request, Stage};
use crate::specialreg::CR0_NE;
use crate::vm::{spec_bootrom_name, spec_valid_vcpu, MemSegId, VirtualMachine, MAX_BOOTROM_SIZE};
use crate::vmm::{seg_desc, vm_reg_name};
use crate::vmm_dev::{is_c_string, lemma_wanted_name, vm_memmap, vm_memseg, vm_munmap};

verus! {

/// The state of one machine on the peer's side.
pub struct Machine {
    /// The allocated segments, by identifier.
    pub segments: Map<i32, vm_memseg>,
    /// The mappings of the guest-physical address space, by start address.
    pub mappings: Map<u64, vm_memmap>,
    /// The registers that were written, by virtual CPU and register number.
    pub registers: Map<(i32, i32), u64>,
    /// The descriptors that were written, by virtual CPU and register number.
    pub descriptors: Map<(i32, i32), seg_desc>,
    /// Where in the device each device-memory segment begins.
    pub offsets: Map<i32, i64>,
    /// The mappings into the controlling process, in the order made.
    pub placed: Seq<host_map>,
    /// The cause that the machine reports when it refuses a request.
    pub cause: i32,
}

impl Machine {
    /// Every segment in the table is allocated, stands under its own
    /// identifier and has a name that ends inside its buffer, and every
    /// mapping stands under its own start address.
    pub open spec fn wf(self) -> bool {
        &&& forall|id: i32| #[trigger]
            self.segments.dom().contains(id) ==> self.segments[id].segid == id
                && self.segments[id].len != 0 && self.segments[id].spec_name().len() < 64
        &&& forall|gpa: u64| #[trigger]
            self.mappings.dom().contains(gpa) ==> self.mappings[gpa].gpa == gpa
    }

    /// The segment `segid` as the machine reports it: with length zero and
    /// no name while it is not allocated.
    pub open spec fn segment(self, segid: i32) -> vm_memseg {
        if self.segments.dom().contains(segid) {
            self.segments[segid]
        } else {
            vm_memseg::spec_named(segid, 0, Seq::empty())
        }
    }

    /// Whether `start` is the least start address of a mapping at or above
    /// `gpa`.
    pub open spec fn is_next_start(self, gpa: u64, start: u64) -> bool {
        &&& self.mappings.dom().contains(start)
        &&& gpa <= start
        &&& forall|other: u64| #[trigger]
            self.mappings.dom().contains(other) && gpa <= other ==> start <= other
    }

    /// The first mapping that starts at or above `gpa`, if there is one.
    pub open spec fn next_mapping(self, gpa: u64) -> Option<vm_memmap> {
        if exists|start: u64| self.is_next_start(gpa, start) {
            Some(self.mappings[choose|start: u64| self.is_next_start(gpa, start)])
        } else {
            None
        }
    }

    /// The value of a register: what was written last, and zero before the
    /// first write.
    pub open spec fn register(self, cpuid: i32, regnum: i32) -> u64 {
        if self.registers.dom().contains((cpuid, regnum)) {
            self.registers[(cpuid, regnum)]
        } else {
            0
        }
    }

    /// The value of a descriptor: what was written last, and zeros before
    /// the first write.
    pub open spec fn descriptor(self, cpuid: i32, regnum: i32) -> seg_desc {
        if self.descriptors.dom().contains((cpuid, regnum)) {
            self.descriptors[(cpuid, regnum)]
        } else {
            seg_desc { base: 0, limit: 0, access: 0 }
        }
    }

    /// The machine's refusal.
    pub open spec fn refuse(self) -> Result<Output, Error> {
        Err(Error::Channel(self.cause))
    }

    /// How the machine answers a request and what state it is in afterwards;
    /// `None` for the requests that this description leaves out.
    ///
    /// A segment is allocated if it has a length and its identifier is free.
    /// A mapping is made if its segment is allocated and no mapping starts at
    /// its address. A range is unmapped if it is exactly that of a mapping.
    /// Registers and descriptors keep what was written to them. A segment
    /// has an offset in the device if it is allocated under a name. The host
    /// places every mapping it is asked for.
    pub open spec fn serve(self, request: Request) -> Option<(Machine, Result<Output, Error>)> {
        match request {
            Request::GetMemseg { segid } => Some((self, Ok(Output::Segment(self.segment(segid))))),
            Request::AllocMemseg(segment) => if segment.len != 0 && !self.segments.dom().contains(
                segment.segid,
            ) {
                Some(
                    (
                        Machine {
                            segments: self.segments.insert(segment.segid, segment),
                            ..self
                        },
                        Ok(Output::Done),
                    ),
                )
            } else {
                Some((self, self.refuse()))
            },
            Request::MmapGetnext { gpa } => match self.next_mapping(gpa) {
                Some(found) => Some((self, Ok(Output::Mapping(found)))),
                None => Some((self, Err(Error::NotFound))),
            },
            Request::MmapMemseg(mapping) => if self.segments.dom().contains(mapping.segid)
                && !self.mappings.dom().contains(mapping.gpa) {
                Some(
                    (
                        Machine { mappings: self.mappings.insert(mapping.gpa, mapping), ..self },
                        Ok(Output::Done),
                    ),
                )
            } else {
                Some((self, self.refuse()))
            },
            Request::MunmapMemseg(range) => if self.mappings.dom().contains(range.gpa)
                && self.mappings[range.gpa].len == range.len {
                Some(
                    (Machine { mappings: self.mappings.remove(range.gpa), ..self }, Ok(Output::Done)),
                )
            } else {
                Some((self, self.refuse()))
            },
            Request::SetRegister(write) => Some(
                (
                    Machine {
                        registers: self.registers.insert((write.cpuid, write.regnum), write.regval),
                        ..self
                    },
                    Ok(Output::Done),
                ),
            ),
            Request::GetRegister { cpuid, regnum } => Some(
                (self, Ok(Output::Register(self.register(cpuid, regnum)))),
            ),
            Request::SetSegmentDescriptor(write) => Some(
                (
                    Machine {
                        descriptors: self.descriptors.insert((write.cpuid, write.regnum), write.desc),
                        ..self
                    },
                    Ok(Output::Done),
                ),
            ),
            Request::GetSegmentDescriptor { cpuid, regnum } => {
                let desc = self.descriptor(cpuid, regnum);
                Some((self, Ok(Output::Descriptor(desc.base, desc.limit, desc.access))))
            },
            Request::DevmemGetoffset { segid } => if self.segments.dom().contains(segid)
                && self.segments[segid].spec_name().len() > 0 {
                Some((self, Ok(Output::Offset(self.offsets[segid]))))
            } else {
                Some((self, self.refuse()))
            },
            Request::HostMap(mapping) => Some(
                (Machine { placed: self.placed.push(mapping), ..self }, Ok(Output::Done)),
            ),
            _ => None,
        }
    }

    /// Carries an operation through: each request it sends is served, and
    /// the answer handed back, until the operation has finished. The result
    /// is the machine's state at the end and the operation's result; `None`
    /// if the operation sends a request that this description leaves out.
    pub open spec fn perform(self, op: OperationView) -> Option<(Machine, Result<Output, Error>)>
        decreases op.remaining(),
    {
        match op.request() {
            None => match op.outcome() {
                Some(result) => Some((self, result)),
                None => None,
            },
            Some(request) => match self.serve(request) {
                None => None,
                Some((next, answer)) => next.perform(op.resume(answer)),
            },
        }
    }
}

impl Machine {
    /// Whether the machine holds segment `segid` with this length and name.
    pub open spec fn holds_segment(self, segid: MemSegId, len: usize, name: Seq<u8>) -> bool {
        &&& self.segments.dom().contains(segid.spec_code())
        &&& self.segments[segid.spec_code()].len == len
        &&& self.segments[segid.spec_code()].spec_name() == name
    }

    /// What allocating a segment comes to, from any state, for a name
    /// without a zero byte.
    ///
    /// If the machine holds the segment with this length and name, the
    /// operation succeeds and changes nothing. If it holds the segment with
    /// another length or name, the operation fails with `Conflict` and
    /// changes nothing. If it does not hold the segment, a name that does
    /// not fit fails with `InvalidInput`, the length zero is refused by the
    /// machine, and anything else is allocated; afterwards the machine holds
    /// the segment with this length and name.
    pub proof fn law_alloc_memseg(self, segid: MemSegId, len: usize, name: Seq<u8>)
        requires
            self.wf(),
            is_c_string(name),
        ensures
            self.perform(VirtualMachine::spec_alloc_memseg(segid, len, name)) matches Some(
                (after, result),
            ) && after.wf() && {
                if self.holds_segment(segid, len, name) {
                    result == Ok::<Output, Error>(Output::Done) && after == self
                } else if self.segments.dom().contains(segid.spec_code()) {
                    result == Err::<Output, Error>(Error::Conflict) && after == self
                } else if name.len() >= 64 {
                    result == Err::<Output, Error>(Error::InvalidInput) && after == self
                } else if len == 0 {
                    result == self.refuse() && after == self
                } else {
                    &&& result == Ok::<Output, Error>(Output::Done)
                    &&& after.holds_segment(segid, len, name)
                    &&& after == Machine {
                        segments: self.segments.insert(
                            segid.spec_code(),
                            vm_memseg::spec_named(segid.spec_code(), len, name),
                        ),
                        ..self
                    }
                }
            },
    {
        reveal_with_fuel(Machine::perform, 3);
        let code = segid.spec_code();
        if name.len() < 64 {
            lemma_wanted_name(code, len, name);
        } else {
            lemma_wanted_name(code, len, Seq::empty());
        }
        lemma_wanted_name(code, 0, Seq::empty());
    }

    /// Allocating a segment twice with the same arguments: if the first
    /// call succeeds, so does the second, and it leaves the machine as it
    /// was.
    pub proof fn law_alloc_twice(self, segid: MemSegId, len: usize, name: Seq<u8>)
        requires
            self.wf(),
            is_c_string(name),
            self.perform(VirtualMachine::spec_alloc_memseg(segid, len, name)) matches Some(
                (_, Ok(_)),
            ),
        ensures
            ({
                let op = VirtualMachine::spec_alloc_memseg(segid, len, name);
                let first = self.perform(op).unwrap().0;
                first.perform(op) == Some((first, Ok::<Output, Error>(Output::Done)))
            }),
    {
        self.law_alloc_memseg(segid, len, name);
        let op = VirtualMachine::spec_alloc_memseg(segid, len, name);
        let first = self.perform(op).unwrap().0;
        first.law_alloc_memseg(segid, len, name);
    }

    /// Allocating a segment of a valid length under a valid name, on a
    /// machine that does not hold the segment yet or holds it just so,
    /// succeeds, and succeeds again, and the second call changes nothing.
    pub proof fn law_alloc_idempotent(self, segid: MemSegId, len: usize, name: Seq<u8>)
        requires
            self.wf(),
            is_c_string(name),
            name.len() < 64,
            len != 0,
            !self.segments.dom().contains(segid.spec_code()) || self.holds_segment(
                segid,
                len,
                name,
            ),
        ensures
            ({
                let op = VirtualMachine::spec_alloc_memseg(segid, len, name);
                &&& self.perform(op) matches Some((first, Ok(_)))
                &&& first.holds_segment(segid, len, name)
                &&& first.perform(op) == Some((first, Ok::<Output, Error>(Output::Done)))
            }),
    {
        self.law_alloc_memseg(segid, len, name);
        self.law_alloc_twice(segid, len, name);
    }

    /// Allocating a segment that the machine already holds with another
    /// length or name fails with `Conflict` and leaves the segment as it
    /// was: after `alloc_memseg(segid, len, name)` has succeeded,
    /// `alloc_memseg(segid, other_len, other_name)` with a different pair
    /// fails so.
    pub proof fn law_alloc_conflict(
        self,
        segid: MemSegId,
        len: usize,
        name: Seq<u8>,
        other_len: usize,
        other_name: Seq<u8>,
    )
        requires
            self.wf(),
            is_c_string(name),
            is_c_string(other_name),
            len != other_len || name != other_name,
            self.perform(VirtualMachine::spec_alloc_memseg(segid, len, name)) matches Some(
                (_, Ok(_)),
            ),
        ensures
            ({
                let first = self.perform(
                    VirtualMachine::spec_alloc_memseg(segid, len, name),
                ).unwrap().0;
                &&& first.holds_segment(segid, len, name)
                &&& first.perform(VirtualMachine::spec_alloc_memseg(segid, other_len, other_name))
                    == Some((first, Err::<Output, Error>(Error::Conflict)))
            }),
    {
        self.law_alloc_memseg(segid, len, name);
        let first = self.perform(VirtualMachine::spec_alloc_memseg(segid, len, name)).unwrap().0;
        first.law_alloc_memseg(segid, other_len, other_name);
    }
}

impl Machine {
    /// Where a mapping starts at or above `gpa`, one of them starts first.
    pub proof fn lemma_next_start_exists(self, gpa: u64, witness: u64)
        requires
            self.mappings.dom().contains(witness),
            gpa <= witness,
        ensures
            exists|start: u64| self.is_next_start(gpa, start),
        decreases witness - gpa,
    {
        if forall|other: u64| #[trigger]
            self.mappings.dom().contains(other) && gpa <= other ==> witness <= other {
            assert(self.is_next_start(gpa, witness));
        } else {
            let lower = choose|other: u64| #[trigger]
                self.mappings.dom().contains(other) && gpa <= other && !(witness <= other);
            self.lemma_next_start_exists(gpa, lower);
        }
    }

    /// The first mapping at or above an address is the one with the least
    /// start address among those that start there or higher, and there is
    /// none only if no mapping starts there or higher.
    pub proof fn law_next_mapping_is_least(self, gpa: u64)
        requires
            self.wf(),
        ensures
            match self.next_mapping(gpa) {
                Some(found) => {
                    &&& self.mappings.dom().contains(found.gpa)
                    &&& self.mappings[found.gpa] == found
                    &&& gpa <= found.gpa
                    &&& forall|other: u64| #[trigger]
                        self.mappings.dom().contains(other) && gpa <= other ==> found.gpa <= other
                },
                None => forall|other: u64| #[trigger]
                    self.mappings.dom().contains(other) ==> other < gpa,
            },
            self.mappings.dom().contains(gpa) ==> self.next_mapping(gpa) == Some(
                self.mappings[gpa],
            ),
    {
        if !(exists|start: u64| self.is_next_start(gpa, start)) {
            assert forall|other: u64| #[trigger] self.mappings.dom().contains(other) implies other
                < gpa by {
                if gpa <= other {
                    self.lemma_next_start_exists(gpa, other);
                }
            }
        }
    }

    /// Asking for the next mapping brings back the mapping with the least
    /// start address at or above the address given, or fails with
    /// `NotFound` if there is none; it changes nothing.
    pub proof fn law_mmap_getnext(self, gpa: u64)
        requires
            self.wf(),
        ensures
            self.perform(VirtualMachine::spec_call(Request::MmapGetnext { gpa })) == Some(
                (
                    self,
                    match self.next_mapping(gpa) {
                        Some(found) => Ok::<Output, Error>(Output::Mapping(found)),
                        None => Err::<Output, Error>(Error::NotFound),
                    },
                ),
            ),
    {
        self.lemma_perform_call(Request::MmapGetnext { gpa });
    }

    /// What mapping a segment comes to, from any state.
    ///
    /// If a mapping starts at the address, the operation sends no mapping
    /// request: it succeeds if that mapping has the segment, offset,
    /// protection and flags wanted, and fails with `AlreadyExists` if not.
    /// If none starts there, the mapping is made, provided the machine holds
    /// the segment.
    pub proof fn law_mmap_memseg(self, wanted: vm_memmap)
        requires
            self.wf(),
        ensures
            self.perform(OperationView::start(seq![Stage::Mapping(wanted)])) matches Some(
                (after, result),
            ) && after.wf() && {
                if self.mappings.dom().contains(wanted.gpa) {
                    &&& after == self
                    &&& result == if self.mappings[wanted.gpa].spec_same_as(wanted) {
                        Ok::<Output, Error>(Output::Done)
                    } else {
                        Err::<Output, Error>(Error::AlreadyExists)
                    }
                } else if self.segments.dom().contains(wanted.segid) {
                    &&& result == Ok::<Output, Error>(Output::Done)
                    &&& after == Machine {
                        mappings: self.mappings.insert(wanted.gpa, wanted),
                        ..self
                    }
                } else {
                    result == self.refuse() && after == self
                }
            },
    {
        reveal_with_fuel(Machine::perform, 3);
        self.law_next_mapping_is_least(wanted.gpa);
    }

    /// Mapping twice with the same arguments: if the first call succeeds,
    /// so does the second, and it leaves the machine as it was; and a call
    /// for the same address with another protection fails with
    /// `AlreadyExists`, and leaves the machine as it was too.
    pub proof fn law_mmap_twice(
        self,
        vm: VirtualMachine,
        gpa: u64,
        segid: MemSegId,
        off: i64,
        len: usize,
        prot: i32,
        other_prot: i32,
    )
        requires
            self.wf(),
            prot != other_prot,
            self.perform(
                OperationView::start(seq![Stage::Mapping(vm.spec_mapping(gpa, segid, off, len, prot))]),
            ) matches Some((_, Ok(_))),
        ensures
            ({
                let same = OperationView::start(
                    seq![Stage::Mapping(vm.spec_mapping(gpa, segid, off, len, prot))],
                );
                let other = OperationView::start(
                    seq![Stage::Mapping(vm.spec_mapping(gpa, segid, off, len, other_prot))],
                );
                let first = self.perform(same).unwrap().0;
                &&& first.perform(same) == Some((first, Ok::<Output, Error>(Output::Done)))
                &&& first.perform(other) == Some(
                    (first, Err::<Output, Error>(Error::AlreadyExists)),
                )
            }),
    {
        let wanted = vm.spec_mapping(gpa, segid, off, len, prot);
        let other = vm.spec_mapping(gpa, segid, off, len, other_prot);
        self.law_mmap_memseg(wanted);
        let first = self.perform(OperationView::start(seq![Stage::Mapping(wanted)])).unwrap().0;
        first.law_mmap_memseg(wanted);
        first.law_mmap_memseg(other);
    }
}

/// Whether a request writes a register or a descriptor.
pub open spec fn is_write(request: Request) -> bool {
    request is SetRegister || request is SetSegmentDescriptor
}

/// Whether a request writes the register `regnum` of virtual CPU `cpuid`.
pub open spec fn writes_register(request: Request, cpuid: i32, regnum: i32) -> bool {
    request matches Request::SetRegister(write) && write.cpuid == cpuid && write.regnum == regnum
}

/// Whether a request writes the descriptor `regnum` of virtual CPU `cpuid`.
pub open spec fn writes_descriptor(request: Request, cpuid: i32, regnum: i32) -> bool {
    request matches Request::SetSegmentDescriptor(write) && write.cpuid == cpuid && write.regnum
        == regnum
}

impl Machine {
    /// The machine after a row of writes, the first of them applied first.
    pub open spec fn written(self, writes: Seq<Request>) -> Machine
        decreases writes.len(),
    {
        if writes.len() == 0 {
            self
        } else {
            match self.serve(writes[0]) {
                Some((next, _)) => next.written(writes.subrange(1, writes.len() as int)),
                None => self,
            }
        }
    }

    /// A plan of writes succeeds on every machine and leaves the machine
    /// with all of them applied in order.
    pub proof fn lemma_perform_writes(self, writes: Seq<Request>)
        requires
            forall|i: int| 0 <= i < writes.len() ==> is_write(#[trigger] writes[i]),
        ensures
            self.perform(
                OperationView::start(writes.map(|i: int, w: Request| Stage::Call(w))),
            ) == Some((self.written(writes), Ok::<Output, Error>(Output::Done))),
        decreases writes.len(),
    {
        reveal_with_fuel(Machine::perform, 2);
        let stages = writes.map(|i: int, w: Request| Stage::Call(w));
        if writes.len() > 0 {
            let rest = writes.subrange(1, writes.len() as int);
            let rest_stages = rest.map(|i: int, w: Request| Stage::Call(w));
            let next = self.serve(writes[0]).unwrap().0;
            assert(stages.subrange(1, stages.len() as int) =~= rest_stages);
            assert forall|i: int| 0 <= i < rest.len() implies is_write(#[trigger] rest[i]) by {
            }
            next.lemma_perform_writes(rest);
        }
    }

    /// Writes that leave a register alone leave its value as it was, and
    /// likewise for a descriptor. Writes change nothing but registers and
    /// descriptors.
    pub proof fn lemma_written_keeps(self, writes: Seq<Request>, cpuid: i32, regnum: i32)
        requires
            forall|i: int| 0 <= i < writes.len() ==> is_write(#[trigger] writes[i]),
        ensures
            (forall|i: int| 0 <= i < writes.len() ==> !writes_register(#[trigger] writes[i], cpuid, regnum))
                ==> self.written(writes).register(cpuid, regnum) == self.register(cpuid, regnum),
            (forall|i: int| 0 <= i < writes.len() ==> !writes_descriptor(#[trigger] writes[i], cpuid, regnum))
                ==> self.written(writes).descriptor(cpuid, regnum) == self.descriptor(
                cpuid,
                regnum,
            ),
            self.written(writes).segments == self.segments,
            self.written(writes).mappings == self.mappings,
            self.written(writes).offsets == self.offsets,
            self.written(writes).placed == self.placed,
        decreases writes.len(),
    {
        if writes.len() > 0 {
            let rest = writes.subrange(1, writes.len() as int);
            let next = self.serve(writes[0]).unwrap().0;
            assert forall|i: int| 0 <= i < rest.len() implies is_write(#[trigger] rest[i]) by {
            }
            next.lemma_written_keeps(rest, cpuid, regnum);
            assert forall|i: int| 0 <= i < rest.len() implies (writes_register(
                #[trigger] rest[i],
                cpuid,
                regnum,
            ) == writes_register(writes[i + 1], cpuid, regnum)) && (writes_descriptor(
                rest[i],
                cpuid,
                regnum,
            ) == writes_descriptor(writes[i + 1], cpuid, regnum)) by {
            }
        }
    }

    /// After a row of writes a register holds what the last write to it
    /// wrote.
    pub proof fn lemma_written_register(
        self,
        writes: Seq<Request>,
        last: int,
        cpuid: i32,
        regnum: i32,
        value: u64,
    )
        requires
            forall|i: int| 0 <= i < writes.len() ==> is_write(#[trigger] writes[i]),
            0 <= last < writes.len(),
            writes[last] == VirtualMachine::spec_register_write_raw(cpuid, regnum, value),
            forall|i: int| last < i < writes.len() ==> !writes_register(#[trigger] writes[i], cpuid, regnum),
        ensures
            self.written(writes).register(cpuid, regnum) == value,
        decreases writes.len(),
    {
        let rest = writes.subrange(1, writes.len() as int);
        let next = self.serve(writes[0]).unwrap().0;
        assert forall|i: int| 0 <= i < rest.len() implies is_write(#[trigger] rest[i])
            && (last < i + 1 ==> !writes_register(rest[i], cpuid, regnum)) by {
        }
        if last == 0 {
            next.lemma_written_keeps(rest, cpuid, regnum);
        } else {
            next.lemma_written_register(rest, last - 1, cpuid, regnum, value);
        }
    }

    /// After a row of writes a descriptor holds what the last write to it
    /// wrote.
    pub proof fn lemma_written_descriptor(
        self,
        writes: Seq<Request>,
        last: int,
        cpuid: i32,
        regnum: i32,
        desc: seg_desc,
    )
        requires
            forall|i: int| 0 <= i < writes.len() ==> is_write(#[trigger] writes[i]),
            0 <= last < writes.len(),
            writes[last] == VirtualMachine::spec_descriptor_write_raw(cpuid, regnum, desc),
            forall|i: int| last < i < writes.len() ==> !writes_descriptor(#[trigger] writes[i], cpuid, regnum),
        ensures
            self.written(writes).descriptor(cpuid, regnum) == desc,
        decreases writes.len(),
    {
        let rest = writes.subrange(1, writes.len() as int);
        let next = self.serve(writes[0]).unwrap().0;
        assert forall|i: int| 0 <= i < rest.len() implies is_write(#[trigger] rest[i])
            && (last < i + 1 ==> !writes_descriptor(rest[i], cpuid, regnum)) by {
        }
        if last == 0 {
            next.lemma_written_keeps(rest, cpuid, regnum);
        } else {
            next.lemma_written_descriptor(rest, last - 1, cpuid, regnum, desc);
        }
    }
}

impl Machine {
    /// Whether virtual CPU `cpuid` is in the state it has after power-up or
    /// reset: it starts in real mode at 0xfff0 in a code segment based at
    /// 0xffff0000, with flat data segments, all sixteen general-purpose
    /// registers cleared but for the processor identification in RDX, CR0
    /// with the numeric-error bit alone, empty descriptor tables, a busy task
    /// state segment and a null local descriptor table.
    pub open spec fn is_power_up_state(self, cpuid: i32) -> bool {
        &&& self.register(cpuid, vm_reg_name::VM_REG_GUEST_RFLAGS.spec_code()) == 0x2
        &&& self.register(cpuid, vm_reg_name::VM_REG_GUEST_RIP.spec_code()) == 0xfff0
        &&& self.register(cpuid, vm_reg_name::VM_REG_GUEST_CR0.spec_code()) == CR0_NE
        &&& self.register(cpuid, vm_reg_name::VM_REG_GUEST_CR3.spec_code()) == 0
        &&& self.register(cpuid, vm_reg_name::VM_REG_GUEST_CR4.spec_code()) == 0
        &&& self.register(cpuid, vm_reg_name::VM_REG_GUEST_CS.spec_code()) == 0xf000
        &&& self.register(cpuid, vm_reg_name::VM_REG_GUEST_SS.spec_code()) == 0
        &&& self.register(cpuid, vm_reg_name::VM_REG_GUEST_DS.spec_code()) == 0
        &&& self.register(cpuid, vm_reg_name::VM_REG_GUEST_ES.spec_code()) == 0
        &&& self.register(cpuid, vm_reg_name::VM_REG_GUEST_FS.spec_code()) == 0
        &&& self.register(cpuid, vm_reg_name::VM_REG_GUEST_GS.spec_code()) == 0
        &&& self.register(cpuid, vm_reg_name::VM_REG_GUEST_RAX.spec_code()) == 0
        &&& self.register(cpuid, vm_reg_name::VM_REG_GUEST_RBX.spec_code()) == 0
        &&& self.register(cpuid, vm_reg_name::VM_REG_GUEST_RCX.spec_code()) == 0
        &&& self.register(cpuid, vm_reg_name::VM_REG_GUEST_RDX.spec_code()) == 0xf00
        &&& self.register(cpuid, vm_reg_name::VM_REG_GUEST_RSI.spec_code()) == 0
        &&& self.register(cpuid, vm_reg_name::VM_REG_GUEST_RDI.spec_code()) == 0
        &&& self.register(cpuid, vm_reg_name::VM_REG_GUEST_RBP.spec_code()) == 0
        &&& self.register(cpuid, vm_reg_name::VM_REG_GUEST_RSP.spec_code()) == 0
        &&& self.register(cpuid, vm_reg_name::VM_REG_GUEST_R8.spec_code()) == 0
        &&& self.register(cpuid, vm_reg_name::VM_REG_GUEST_R9.spec_code()) == 0
        &&& self.register(cpuid, vm_reg_name::VM_REG_GUEST_R10.spec_code()) == 0
        &&& self.register(cpuid, vm_reg_name::VM_REG_GUEST_R11.spec_code()) == 0
        &&& self.register(cpuid, vm_reg_name::VM_REG_GUEST_R12.spec_code()) == 0
        &&& self.register(cpuid, vm_reg_name::VM_REG_GUEST_R13.spec_code()) == 0
        &&& self.register(cpuid, vm_reg_name::VM_REG_GUEST_R14.spec_code()) == 0
        &&& self.register(cpuid, vm_reg_name::VM_REG_GUEST_R15.spec_code()) == 0
        &&& self.register(cpuid, vm_reg_name::VM_REG_GUEST_TR.spec_code()) == 0
        &&& self.register(cpuid, vm_reg_name::VM_REG_GUEST_LDTR.spec_code()) == 0
        &&& self.descriptor(cpuid, vm_reg_name::VM_REG_GUEST_CS.spec_code()) == (seg_desc { base: 0xffff0000, limit: 0xffff, access: 0x93 })
        &&& self.descriptor(cpuid, vm_reg_name::VM_REG_GUEST_SS.spec_code()) == (seg_desc { base: 0, limit: 0xffff, access: 0x93 })
        &&& self.descriptor(cpuid, vm_reg_name::VM_REG_GUEST_DS.spec_code()) == (seg_desc { base: 0, limit: 0xffff, access: 0x93 })
        &&& self.descriptor(cpuid, vm_reg_name::VM_REG_GUEST_ES.spec_code()) == (seg_desc { base: 0, limit: 0xffff, access: 0x93 })
        &&& self.descriptor(cpuid, vm_reg_name::VM_REG_GUEST_FS.spec_code()) == (seg_desc { base: 0, limit: 0xffff, access: 0x93 })
        &&& self.descriptor(cpuid, vm_reg_name::VM_REG_GUEST_GS.spec_code()) == (seg_desc { base: 0, limit: 0xffff, access: 0x93 })
        &&& self.descriptor(cpuid, vm_reg_name::VM_REG_GUEST_GDTR.spec_code()) == (seg_desc { base: 0, limit: 0xffff, access: 0 })
        &&& self.descriptor(cpuid, vm_reg_name::VM_REG_GUEST_IDTR.spec_code()) == (seg_desc { base: 0, limit: 0xffff, access: 0 })
        &&& self.descriptor(cpuid, vm_reg_name::VM_REG_GUEST_TR.spec_code()) == (seg_desc { base: 0, limit: 0, access: 0x8b })
        &&& self.descriptor(cpuid, vm_reg_name::VM_REG_GUEST_LDTR.spec_code()) == (seg_desc { base: 0, limit: 0xffff, access: 0x82 })
    }

    /// Resetting a virtual CPU succeeds and leaves it in the power-up
    /// state; the segments and mappings of the machine stay as they were.
    /// Read back afterwards, the CS selector is 0xf000, the instruction
    /// pointer 0xfff0, CR0 the numeric-error bit alone, and RDX 0xf00.
    pub proof fn law_vcpu_reset(self, cpuid: i32)
        requires
            spec_valid_vcpu(cpuid),
        ensures
            self.perform(VirtualMachine::spec_vcpu_reset(cpuid)) matches Some((after, result))
                && {
                &&& result == Ok::<Output, Error>(Output::Done)
                &&& after.is_power_up_state(cpuid)
                &&& after.segments == self.segments
                &&& after.mappings == self.mappings
                &&& after.perform(
                    VirtualMachine::spec_vcpu_call(
                        cpuid,
                        Request::GetRegister {
                            cpuid,
                            regnum: vm_reg_name::VM_REG_GUEST_CS.spec_code(),
                        },
                    ),
                ) == Some((after, Ok::<Output, Error>(Output::Register(0xf000))))
                &&& after.perform(
                    VirtualMachine::spec_vcpu_call(
                        cpuid,
                        Request::GetRegister {
                            cpuid,
                            regnum: vm_reg_name::VM_REG_GUEST_RIP.spec_code(),
                        },
                    ),
                ) == Some((after, Ok::<Output, Error>(Output::Register(0xfff0))))
                &&& after.perform(
                    VirtualMachine::spec_vcpu_call(
                        cpuid,
                        Request::GetRegister {
                            cpuid,
                            regnum: vm_reg_name::VM_REG_GUEST_CR0.spec_code(),
                        },
                    ),
                ) == Some((after, Ok::<Output, Error>(Output::Register(CR0_NE))))
                &&& after.perform(
                    VirtualMachine::spec_vcpu_call(
                        cpuid,
                        Request::GetRegister {
                            cpuid,
                            regnum: vm_reg_name::VM_REG_GUEST_RDX.spec_code(),
                        },
                    ),
                ) == Some((after, Ok::<Output, Error>(Output::Register(0xf00))))
            },
    {
        let writes = VirtualMachine::spec_reset_writes(cpuid);
        assert forall|i: int| 0 <= i < writes.len() implies is_write(#[trigger] writes[i]) by {}
        self.lemma_perform_writes(writes);
        self.lemma_written_keeps(writes, 0, 0);
        let after = self.written(writes);
        self.lemma_written_register(writes, 0, cpuid, vm_reg_name::VM_REG_GUEST_RFLAGS.spec_code(), 0x2);
        self.lemma_written_register(writes, 1, cpuid, vm_reg_name::VM_REG_GUEST_RIP.spec_code(), 0xfff0);
        self.lemma_written_register(writes, 2, cpuid, vm_reg_name::VM_REG_GUEST_CR0.spec_code(), CR0_NE);
        self.lemma_written_register(writes, 3, cpuid, vm_reg_name::VM_REG_GUEST_CR3.spec_code(), 0);
        self.lemma_written_register(writes, 4, cpuid, vm_reg_name::VM_REG_GUEST_CR4.spec_code(), 0);
        self.lemma_written_register(writes, 6, cpuid, vm_reg_name::VM_REG_GUEST_CS.spec_code(), 0xf000);
        self.lemma_written_register(writes, 12, cpuid, vm_reg_name::VM_REG_GUEST_SS.spec_code(), 0);
        self.lemma_written_register(writes, 13, cpuid, vm_reg_name::VM_REG_GUEST_DS.spec_code(), 0);
        self.lemma_written_register(writes, 14, cpuid, vm_reg_name::VM_REG_GUEST_ES.spec_code(), 0);
        self.lemma_written_register(writes, 15, cpuid, vm_reg_name::VM_REG_GUEST_FS.spec_code(), 0);
        self.lemma_written_register(writes, 16, cpuid, vm_reg_name::VM_REG_GUEST_GS.spec_code(), 0);
        self.lemma_written_register(writes, 17, cpuid, vm_reg_name::VM_REG_GUEST_RAX.spec_code(), 0);
        self.lemma_written_register(writes, 18, cpuid, vm_reg_name::VM_REG_GUEST_RBX.spec_code(), 0);
        self.lemma_written_register(writes, 19, cpuid, vm_reg_name::VM_REG_GUEST_RCX.spec_code(), 0);
        self.lemma_written_register(writes, 20, cpuid, vm_reg_name::VM_REG_GUEST_RDX.spec_code(), 0xf00);
        self.lemma_written_register(writes, 21, cpuid, vm_reg_name::VM_REG_GUEST_RSI.spec_code(), 0);
        self.lemma_written_register(writes, 22, cpuid, vm_reg_name::VM_REG_GUEST_RDI.spec_code(), 0);
        self.lemma_written_register(writes, 23, cpuid, vm_reg_name::VM_REG_GUEST_RBP.spec_code(), 0);
        self.lemma_written_register(writes, 24, cpuid, vm_reg_name::VM_REG_GUEST_RSP.spec_code(), 0);
        self.lemma_written_register(writes, 25, cpuid, vm_reg_name::VM_REG_GUEST_R8.spec_code(), 0);
        self.lemma_written_register(writes, 26, cpuid, vm_reg_name::VM_REG_GUEST_R9.spec_code(), 0);
        self.lemma_written_register(writes, 27, cpuid, vm_reg_name::VM_REG_GUEST_R10.spec_code(), 0);
        self.lemma_written_register(writes, 28, cpuid, vm_reg_name::VM_REG_GUEST_R11.spec_code(), 0);
        self.lemma_written_register(writes, 29, cpuid, vm_reg_name::VM_REG_GUEST_R12.spec_code(), 0);
        self.lemma_written_register(writes, 30, cpuid, vm_reg_name::VM_REG_GUEST_R13.spec_code(), 0);
        self.lemma_written_register(writes, 31, cpuid, vm_reg_name::VM_REG_GUEST_R14.spec_code(), 0);
        self.lemma_written_register(writes, 32, cpuid, vm_reg_name::VM_REG_GUEST_R15.spec_code(), 0);
        self.lemma_written_register(writes, 36, cpuid, vm_reg_name::VM_REG_GUEST_TR.spec_code(), 0);
        self.lemma_written_register(writes, 38, cpuid, vm_reg_name::VM_REG_GUEST_LDTR.spec_code(), 0);
        self.lemma_written_descriptor(writes, 5, cpuid, vm_reg_name::VM_REG_GUEST_CS.spec_code(), seg_desc { base: 0xffff0000, limit: 0xffff, access: 0x93 });
        self.lemma_written_descriptor(writes, 7, cpuid, vm_reg_name::VM_REG_GUEST_SS.spec_code(), seg_desc { base: 0, limit: 0xffff, access: 0x93 });
        self.lemma_written_descriptor(writes, 8, cpuid, vm_reg_name::VM_REG_GUEST_DS.spec_code(), seg_desc { base: 0, limit: 0xffff, access: 0x93 });
        self.lemma_written_descriptor(writes, 9, cpuid, vm_reg_name::VM_REG_GUEST_ES.spec_code(), seg_desc { base: 0, limit: 0xffff, access: 0x93 });
        self.lemma_written_descriptor(writes, 10, cpuid, vm_reg_name::VM_REG_GUEST_FS.spec_code(), seg_desc { base: 0, limit: 0xffff, access: 0x93 });
        self.lemma_written_descriptor(writes, 11, cpuid, vm_reg_name::VM_REG_GUEST_GS.spec_code(), seg_desc { base: 0, limit: 0xffff, access: 0x93 });
        self.lemma_written_descriptor(writes, 33, cpuid, vm_reg_name::VM_REG_GUEST_GDTR.spec_code(), seg_desc { base: 0, limit: 0xffff, access: 0 });
        self.lemma_written_descriptor(writes, 34, cpuid, vm_reg_name::VM_REG_GUEST_IDTR.spec_code(), seg_desc { base: 0, limit: 0xffff, access: 0 });
        self.lemma_written_descriptor(writes, 35, cpuid, vm_reg_name::VM_REG_GUEST_TR.spec_code(), seg_desc { base: 0, limit: 0, access: 0x8b });
        self.lemma_written_descriptor(writes, 37, cpuid, vm_reg_name::VM_REG_GUEST_LDTR.spec_code(), seg_desc { base: 0, limit: 0xffff, access: 0x82 });
        after.lemma_read_register(cpuid, vm_reg_name::VM_REG_GUEST_CS.spec_code());
        after.lemma_read_register(cpuid, vm_reg_name::VM_REG_GUEST_RIP.spec_code());
        after.lemma_read_register(cpuid, vm_reg_name::VM_REG_GUEST_CR0.spec_code());
        after.lemma_read_register(cpuid, vm_reg_name::VM_REG_GUEST_RDX.spec_code());
    }

    /// Resetting a virtual CPU leaves the registers and descriptors of every
    /// other virtual CPU as they were.
    pub proof fn law_vcpu_reset_elsewhere(self, cpuid: i32, other: i32, regnum: i32)
        requires
            spec_valid_vcpu(cpuid),
            other != cpuid,
        ensures
            self.perform(VirtualMachine::spec_vcpu_reset(cpuid)) matches Some((after, _)) && {
                &&& after.register(other, regnum) == self.register(other, regnum)
                &&& after.descriptor(other, regnum) == self.descriptor(other, regnum)
            },
    {
        let writes = VirtualMachine::spec_reset_writes(cpuid);
        assert forall|i: int| 0 <= i < writes.len() implies is_write(#[trigger] writes[i])
            && !writes_register(writes[i], other, regnum) && !writes_descriptor(
            writes[i],
            other,
            regnum,
        ) by {}
        self.lemma_perform_writes(writes);
        self.lemma_written_keeps(writes, other, regnum);
    }

    /// The writes of a reset are sent in their order, and the first that the
    /// peer refuses ends the reset with the peer's error; the writes after
    /// it are not sent.
    pub proof fn law_vcpu_reset_stops(cpuid: i32, done: int, e: Error)
        requires
            spec_valid_vcpu(cpuid),
            0 <= done < VirtualMachine::spec_reset_writes(cpuid).len(),
        ensures
            VirtualMachine::spec_vcpu_reset(cpuid).answered(
                OperationView::carried_out(done),
            ).request() == Some(VirtualMachine::spec_reset_writes(cpuid)[done]),
            VirtualMachine::spec_vcpu_reset(cpuid).answered(
                OperationView::carried_out(done).push(Err(e)),
            ) == OperationView::Finished(Err(e)),
    {
        OperationView::law_calls_stop_at_first_failure(
            VirtualMachine::spec_reset_writes(cpuid),
            done,
            e,
        );
    }

    /// Reading a register brings back its value and changes nothing.
    pub proof fn lemma_read_register(self, cpuid: i32, regnum: i32)
        requires
            spec_valid_vcpu(cpuid),
        ensures
            self.perform(
                VirtualMachine::spec_vcpu_call(cpuid, Request::GetRegister { cpuid, regnum }),
            ) == Some((self, Ok::<Output, Error>(Output::Register(self.register(cpuid, regnum))))),
    {
        self.lemma_perform_call(Request::GetRegister { cpuid, regnum });
    }
}

impl OperationView {
    /// The operation with more stages to do after its own.
    pub open spec fn followed_by(self, more: Seq<Stage>) -> OperationView {
        match self {
            OperationView::Running { pending, second, offset } => OperationView::Running {
                pending: pending + more,
                second,
                offset,
            },
            OperationView::Finished(Ok(_)) => OperationView::start(more),
            OperationView::Finished(Err(e)) => self,
        }
    }
}

impl Machine {
    /// What follows a first part of a plan: if it succeeded, the rest is
    /// performed on the machine as the first part left it; if it failed, the
    /// rest is not performed, and what the first part did stays done.
    pub open spec fn and_then(
        first: Option<(Machine, Result<Output, Error>)>,
        rest: Seq<Stage>,
    ) -> Option<(Machine, Result<Output, Error>)> {
        match first {
            Some((machine, Ok(_))) => machine.perform(OperationView::start(rest)),
            _ => first,
        }
    }

    /// An operation followed by more stages does what the operation does
    /// and afterwards, if that went well, what the further stages do.
    pub proof fn lemma_perform_followed(self, op: OperationView, rest: Seq<Stage>)
        requires
            op.request() is Some,
            rest.len() > 0,
        ensures
            self.perform(op.followed_by(rest)) == Machine::and_then(self.perform(op), rest),
        decreases op.remaining(),
    {
        reveal_with_fuel(Machine::perform, 2);
        let pending = op->pending;
        let request = op.request().unwrap();
        match self.serve(request) {
            None => {},
            Some((next, answer)) => {
                let op1 = op.resume(answer);
                assert((pending + rest).subrange(1, (pending + rest).len() as int) =~= pending.subrange(
                    1,
                    pending.len() as int,
                ) + rest);
                if op1.request() is Some {
                    next.lemma_perform_followed(op1, rest);
                }
            },
        }
    }

    /// A plan of two parts does what the first part does and afterwards, if that
    /// went well, what the second does. A failure in the first part ends the
    /// plan, and what was done before it stays done.
    pub proof fn law_perform_in_order(self, first: Seq<Stage>, rest: Seq<Stage>)
        requires
            first.len() > 0,
            rest.len() > 0,
        ensures
            self.perform(OperationView::start(first + rest)) == Machine::and_then(
                self.perform(OperationView::start(first)),
                rest,
            ),
    {
        self.lemma_perform_followed(OperationView::start(first), rest);
    }
}

impl Machine {
    /// A mapping into the controlling process is placed, and changes
    /// nothing else.
    pub proof fn lemma_host_map(self, mapping: host_map)
        ensures
            self.perform(OperationView::start(seq![Stage::Call(Request::HostMap(mapping))]))
                == Some(
                (
                    Machine { placed: self.placed.push(mapping), ..self },
                    Ok::<Output, Error>(Output::Done),
                ),
            ),
    {
        reveal_with_fuel(Machine::perform, 2);
    }

    /// Mapping a device-memory segment into the controlling process: if the
    /// machine holds the segment under a name, it is mapped from where it
    /// begins in the device; if not, the machine refuses to say where it
    /// begins, and nothing is mapped.
    pub proof fn lemma_device_memory(
        self,
        segid: i32,
        base: u64,
        len: usize,
        prot: i32,
        flags: i32,
    )
        ensures
            self.perform(
                OperationView::start(seq![Stage::DeviceMemory { segid, base, len, prot, flags }]),
            ) == if self.segments.dom().contains(segid) && self.segments[segid].spec_name().len()
                > 0 {
                Some(
                    (
                        Machine {
                            placed: self.placed.push(
                                host_map { base, len, prot, flags, offset: self.offsets[segid] },
                            ),
                            ..self
                        },
                        Ok::<Output, Error>(Output::Done),
                    ),
                )
            } else {
                Some((self, self.refuse()))
            },
    {
        reveal_with_fuel(Machine::perform, 3);
    }

    /// Setting up low memory on a machine that has none: for a length
    /// within the limit, the segment is allocated without a name, mapped at
    /// guest-physical address zero with every protection, and mapped into
    /// the controlling process. Done again, the set-up succeeds again; it
    /// allocates nothing and maps nothing into the guest, and only repeats
    /// the mapping into the controlling process.
    pub proof fn law_setup_lowmem(self, vm: VirtualMachine, base: u64, len: usize)
        requires
            self.wf(),
            0 < len <= vm.lowmem_limit,
            !self.segments.dom().contains(MemSegId::VM_LOWMEM.spec_code()),
            !self.mappings.dom().contains(0),
        ensures
            ({
                let segment = vm_memseg::spec_named(MemSegId::VM_LOWMEM.spec_code(), len, Seq::empty());
                let mapping = vm.spec_mapping(
                    0,
                    MemSegId::VM_LOWMEM,
                    0,
                    len,
                    vm.host.spec_guest_memory_prot(),
                );
                let placed = host_map {
                    base,
                    len,
                    prot: vm.host.spec_host_prot(),
                    flags: vm.host.spec_host_flags(),
                    offset: 0,
                };
                let after = Machine {
                    segments: self.segments.insert(MemSegId::VM_LOWMEM.spec_code(), segment),
                    mappings: self.mappings.insert(0, mapping),
                    placed: self.placed.push(placed),
                    ..self
                };
                &&& self.perform(vm.spec_setup_lowmem(base, len)) == Some(
                    (after, Ok::<Output, Error>(Output::Done)),
                )
                &&& after.perform(vm.spec_setup_lowmem(base, len)) == Some(
                    (
                        Machine { placed: after.placed.push(placed), ..after },
                        Ok::<Output, Error>(Output::Done),
                    ),
                )
            }),
    {
        let segid = MemSegId::VM_LOWMEM;
        let plan = vm.spec_guest_memory_plan(segid, 0, base, len);
        let allocate = VirtualMachine::spec_segment_stage(segid, len, Seq::empty());
        let mapping = vm.spec_mapping(0, segid, 0, len, vm.host.spec_guest_memory_prot());
        let placed = host_map {
            base,
            len,
            prot: vm.host.spec_host_prot(),
            flags: vm.host.spec_host_flags(),
            offset: 0,
        };
        let place = Stage::Call(Request::HostMap(placed));
        let tail = seq![Stage::Mapping(mapping)] + seq![place];
        assert(plan =~= seq![allocate] + tail);

        self.law_perform_in_order(seq![allocate], tail);
        self.law_alloc_memseg(segid, len, Seq::empty());
        let one = self.perform(OperationView::start(seq![allocate])).unwrap().0;
        one.law_perform_in_order(seq![Stage::Mapping(mapping)], seq![place]);
        one.law_mmap_memseg(mapping);
        let two = one.perform(OperationView::start(seq![Stage::Mapping(mapping)])).unwrap().0;
        two.lemma_host_map(placed);
        let after = two.perform(OperationView::start(seq![place])).unwrap().0;

        after.law_perform_in_order(seq![allocate], tail);
        after.law_alloc_memseg(segid, len, Seq::empty());
        after.law_perform_in_order(seq![Stage::Mapping(mapping)], seq![place]);
        after.law_mmap_memseg(mapping);
        after.lemma_host_map(placed);
    }

    /// A length above the limit of low memory is turned down before
    /// anything is sent, so the machine never holds more low memory than the
    /// limit through this operation.
    pub proof fn law_lowmem_limit(self, vm: VirtualMachine, base: u64, len: usize)
        requires
            len > vm.lowmem_limit,
        ensures
            vm.spec_setup_lowmem(base, len).request() is None,
            self.perform(vm.spec_setup_lowmem(base, len)) == Some(
                (self, Err::<Output, Error>(Error::InvalidInput)),
            ),
    {
        reveal_with_fuel(Machine::perform, 1);
    }

    /// A boot ROM shorter than a page or longer than 16 MiB is turned down
    /// before anything is sent: nothing is allocated and nothing is mapped.
    pub proof fn law_bootrom_bounds(
        self,
        vm: VirtualMachine,
        base: u64,
        len: usize,
        page_size: usize,
    )
        requires
            len < page_size || len > MAX_BOOTROM_SIZE,
        ensures
            vm.spec_setup_bootrom(base, len, page_size).request() is None,
            self.perform(vm.spec_setup_bootrom(base, len, page_size)) == Some(
                (self, Err::<Output, Error>(Error::InvalidInput)),
            ),
    {
        reveal_with_fuel(Machine::perform, 1);
    }

    /// Setting up a boot ROM on a machine that has none: for a length
    /// within the bounds, the segment is allocated under the name
    /// `bootrom`, mapped into the controlling process from where it begins
    /// in the device, and mapped into the guest, readable and executable, so
    /// that it ends at 4 GiB.
    pub proof fn law_setup_bootrom(
        self,
        vm: VirtualMachine,
        base: u64,
        len: usize,
        page_size: usize,
    )
        requires
            self.wf(),
            0 < len,
            page_size <= len <= MAX_BOOTROM_SIZE,
            !self.segments.dom().contains(MemSegId::VM_BOOTROM.spec_code()),
            !self.mappings.dom().contains((0x1_0000_0000 - len) as u64),
        ensures
            ({
                let code = MemSegId::VM_BOOTROM.spec_code();
                let segment = vm_memseg::spec_named(code, len, spec_bootrom_name());
                let gpa = (0x1_0000_0000 - len) as u64;
                let mapping = vm.spec_mapping(
                    gpa,
                    MemSegId::VM_BOOTROM,
                    0,
                    len,
                    vm.host.spec_bootrom_prot(),
                );
                let placed = host_map {
                    base,
                    len,
                    prot: vm.host.spec_host_prot(),
                    flags: vm.host.spec_host_flags(),
                    offset: self.offsets[code],
                };
                self.perform(vm.spec_setup_bootrom(base, len, page_size)) == Some(
                    (
                        Machine {
                            segments: self.segments.insert(code, segment),
                            mappings: self.mappings.insert(gpa, mapping),
                            placed: self.placed.push(placed),
                            ..self
                        },
                        Ok::<Output, Error>(Output::Done),
                    ),
                )
            }),
    {
        let segid = MemSegId::VM_BOOTROM;
        let code = segid.spec_code();
        let name = spec_bootrom_name();
        let gpa = (0x1_0000_0000 - len) as u64;
        let allocate = VirtualMachine::spec_segment_stage(segid, len, name);
        let place = vm.spec_device_memory_stage(segid, base, len);
        let mapping = vm.spec_mapping(gpa, segid, 0, len, vm.host.spec_bootrom_prot());
        let tail = seq![place] + seq![Stage::Mapping(mapping)];
        assert(vm.spec_bootrom_plan(base, len) =~= seq![allocate] + tail);

        self.law_perform_in_order(seq![allocate], tail);
        self.law_alloc_memseg(segid, len, name);
        let one = self.perform(OperationView::start(seq![allocate])).unwrap().0;
        one.law_perform_in_order(seq![place], seq![Stage::Mapping(mapping)]);
        one.lemma_device_memory(
            code,
            base,
            len,
            vm.host.spec_host_prot(),
            vm.host.spec_host_flags(),
        );
        let two = one.perform(OperationView::start(seq![place])).unwrap().0;
        two.law_mmap_memseg(mapping);
    }
}

impl Machine {
    /// The result of an operation of one request: what the machine answers,
    /// on the machine as the request left it.
    pub proof fn lemma_perform_call(self, request: Request)
        requires
            self.serve(request) is Some,
        ensures
            self.perform(VirtualMachine::spec_call(request)) == self.serve(request),
    {
        reveal_with_fuel(Machine::perform, 2);
    }

    /// A register that was set is read back with the value it was set to,
    /// and a descriptor with its base, limit and access rights.
    pub proof fn law_set_and_get(
        self,
        vcpu_id: i32,
        reg: vm_reg_name,
        val: u64,
        base: u64,
        limit: u32,
        access: u32,
    )
        requires
            spec_valid_vcpu(vcpu_id),
        ensures
            ({
                let set = VirtualMachine::spec_vcpu_call(
                    vcpu_id,
                    VirtualMachine::spec_register_write(vcpu_id, reg, val),
                );
                let get = VirtualMachine::spec_vcpu_call(
                    vcpu_id,
                    Request::GetRegister { cpuid: vcpu_id, regnum: reg.spec_code() },
                );
                &&& self.perform(set) matches Some((after, Ok(_)))
                &&& after.perform(get) == Some((after, Ok::<Output, Error>(Output::Register(val))))
            }),
            ({
                let set = VirtualMachine::spec_vcpu_call(
                    vcpu_id,
                    VirtualMachine::spec_descriptor_write(vcpu_id, reg, base, limit, access),
                );
                let get = VirtualMachine::spec_vcpu_call(
                    vcpu_id,
                    Request::GetSegmentDescriptor { cpuid: vcpu_id, regnum: reg.spec_code() },
                );
                &&& self.perform(set) matches Some((after, Ok(_)))
                &&& after.perform(get) == Some(
                    (after, Ok::<Output, Error>(Output::Descriptor(base, limit, access))),
                )
            }),
    {
        let code = reg.spec_code();
        let write = VirtualMachine::spec_register_write(vcpu_id, reg, val);
        self.lemma_perform_call(write);
        let after = self.serve(write).unwrap().0;
        after.lemma_perform_call(Request::GetRegister { cpuid: vcpu_id, regnum: code });
        let write = VirtualMachine::spec_descriptor_write(vcpu_id, reg, base, limit, access);
        self.lemma_perform_call(write);
        let after = self.serve(write).unwrap().0;
        after.lemma_perform_call(Request::GetSegmentDescriptor { cpuid: vcpu_id, regnum: code });
    }

    /// Unmapping removes the mapping that covers exactly the range given,
    /// and is refused for any other range: no part of a mapping is unmapped.
    pub proof fn law_munmap_memseg(self, gpa: u64, len: usize)
        ensures
            self.perform(
                VirtualMachine::spec_call(Request::MunmapMemseg(vm_munmap { gpa, len })),
            ) == if self.mappings.dom().contains(gpa) && self.mappings[gpa].len == len {
                Some(
                    (
                        Machine { mappings: self.mappings.remove(gpa), ..self },
                        Ok::<Output, Error>(Output::Done),
                    ),
                )
            } else {
                Some((self, self.refuse()))
            },
    {
        self.lemma_perform_call(Request::MunmapMemseg(vm_munmap { gpa, len }));
    }
}

} // verus!
