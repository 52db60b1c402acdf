//! What goes over the channel: commands out, replies in.
//!
//! A [`Request`] becomes a [`Command`]: a command word and the bytes of a
//! record for the machine device, or a mapping for the host to make. What
//! comes back is a [`Reply`]: the status of the call, the cause of a
//! failure, and the record as the peer left it. [`interpret`] reads a reply
//! as the answer to its request.
use vstd::prelude::*;
use crate::error::Error;
use crate::layout::{run_record, spec_run_record, spec_stats_record, stats_record};
use crate::operation::{host_map, Operation, OperationView, Output, Request};
use crate::vm::VmExit;
use crate::vmm::{seg_desc, x2apic_state};
use crate::vmm_dev::{
    vm_capability, vm_cpu_topology, vm_devmem_offset, vm_memmap, vm_memseg, vm_register,
    vm_rtc_data, vm_rtc_time, vm_run, vm_seg_desc, vm_x2apic, VM_ACTIVATE_CPU, VM_ALLOC_MEMSEG,
    VM_DEVMEM_GETOFFSET, VM_GET_CAPABILITY, VM_GET_MEMSEG, VM_GET_REGISTER,
    VM_GET_SEGMENT_DESCRIPTOR, VM_GET_TOPOLOGY, VM_GET_X2APIC_STATE, VM_MMAP_GETNEXT,
    VM_MMAP_MEMSEG, VM_MUNMAP_MEMSEG, VM_REINIT, VM_RESUME_CPU, VM_RTC_GETTIME, VM_RTC_READ,
    VM_RTC_SETTIME, VM_RTC_WRITE, VM_RUN, VM_SET_CAPABILITY, VM_SET_REGISTER,
    VM_SET_SEGMENT_DESCRIPTOR, VM_SET_TOPOLOGY, VM_SET_X2APIC_STATE, VM_STATS_IOC, VM_SUSPEND,
    VM_SUSPEND_CPU,
};
use crate::wire::{
    i32_at, i64_at, spec_i32_at, spec_i64_at, spec_u16_at, spec_u32_at, spec_u64_at, u16_at,
    u32_at, u64_at,
};

verus! {

/// What the owner of the channel is asked to do.
#[derive(Debug, PartialEq, Eq)]
pub enum Command {
    /// Send `record` to the device under the command word `command`, and
    /// bring back the status and the record as the peer left it.
    Control { command: i32, record: Vec<u8> },
    /// Map part of the machine device into the controlling process.
    HostMap(host_map),
}

/// What came back.
#[derive(Debug, PartialEq, Eq)]
pub struct Reply {
    /// What the call returned: zero if the request was carried out.
    pub status: i32,
    /// The cause of the failure, if the call failed.
    pub errno: i32,
    /// The record after the call. A host mapping has none.
    pub record: Vec<u8>,
}

/// A reply, with its record as a sequence of bytes.
pub struct ReplyView {
    pub status: i32,
    pub errno: i32,
    pub record: Seq<u8>,
}

impl View for Reply {
    type V = ReplyView;

    open spec fn view(&self) -> ReplyView {
        ReplyView { status: self.status, errno: self.errno, record: self.record@ }
    }
}

impl Command {
    /// Whether the command is the one that carries `request`.
    pub open spec fn carries(self, request: Request) -> bool {
        match self {
            Command::HostMap(mapping) => request == Request::HostMap(mapping),
            Command::Control { command, record } => {
                &&& request !is HostMap
                &&& command == request.spec_word() as i32
                &&& record@ == request.spec_record()
            },
        }
    }
}

impl Request {
    /// The command word of the request; zero for a host mapping, which has
    /// none.
    pub open spec fn spec_word(self) -> u32 {
        match self {
            Request::Run { .. } => VM_RUN,
            Request::Suspend(_) => VM_SUSPEND,
            Request::Reinit => VM_REINIT,
            Request::AllocMemseg(_) => VM_ALLOC_MEMSEG,
            Request::GetMemseg { .. } => VM_GET_MEMSEG,
            Request::MmapMemseg(_) => VM_MMAP_MEMSEG,
            Request::MmapGetnext { .. } => VM_MMAP_GETNEXT,
            Request::MunmapMemseg(_) => VM_MUNMAP_MEMSEG,
            Request::SetRegister(_) => VM_SET_REGISTER,
            Request::GetRegister { .. } => VM_GET_REGISTER,
            Request::SetSegmentDescriptor(_) => VM_SET_SEGMENT_DESCRIPTOR,
            Request::GetSegmentDescriptor { .. } => VM_GET_SEGMENT_DESCRIPTOR,
            Request::SetCapability(_) => VM_SET_CAPABILITY,
            Request::GetCapability { .. } => VM_GET_CAPABILITY,
            Request::SetX2apicState(_) => VM_SET_X2APIC_STATE,
            Request::GetX2apicState { .. } => VM_GET_X2APIC_STATE,
            Request::SetTopology(_) => VM_SET_TOPOLOGY,
            Request::GetTopology => VM_GET_TOPOLOGY,
            Request::Stats { .. } => VM_STATS_IOC,
            Request::ActivateCpu(_) => VM_ACTIVATE_CPU,
            Request::SuspendCpu(_) => VM_SUSPEND_CPU,
            Request::ResumeCpu(_) => VM_RESUME_CPU,
            Request::RtcWrite(_) => VM_RTC_WRITE,
            Request::RtcRead { .. } => VM_RTC_READ,
            Request::RtcSettime(_) => VM_RTC_SETTIME,
            Request::RtcGettime => VM_RTC_GETTIME,
            Request::DevmemGetoffset { .. } => VM_DEVMEM_GETOFFSET,
            Request::HostMap(_) => 0,
        }
    }

    /// The bytes of the request's record. A request that asks for something
    /// sends what it asks for and zeros where the peer is to fill in.
    pub open spec fn spec_record(self) -> Seq<u8> {
        match self {
            Request::Run { cpuid } => spec_run_record(cpuid),
            Request::Suspend(record) => record.spec_encode(),
            Request::Reinit => Seq::empty(),
            Request::AllocMemseg(record) => record.spec_encode(),
            Request::GetMemseg { segid } => vm_memseg::spec_named(
                segid,
                0,
                Seq::empty(),
            ).spec_encode(),
            Request::MmapMemseg(record) => record.spec_encode(),
            Request::MmapGetnext { gpa } => vm_memmap::spec_query(gpa).spec_encode(),
            Request::MunmapMemseg(record) => record.spec_encode(),
            Request::SetRegister(record) => record.spec_encode(),
            Request::GetRegister { cpuid, regnum } => (vm_register {
                cpuid,
                regnum,
                regval: 0,
            }).spec_encode(),
            Request::SetSegmentDescriptor(record) => record.spec_encode(),
            Request::GetSegmentDescriptor { cpuid, regnum } => (vm_seg_desc {
                cpuid,
                regnum,
                desc: seg_desc { base: 0, limit: 0, access: 0 },
            }).spec_encode(),
            Request::SetCapability(record) => record.spec_encode(),
            Request::GetCapability { cpuid, captype } => (vm_capability {
                cpuid,
                captype,
                capval: 0,
                allcpus: 0,
            }).spec_encode(),
            Request::SetX2apicState(record) => record.spec_encode(),
            Request::GetX2apicState { cpuid } => (vm_x2apic {
                cpuid,
                state: x2apic_state::X2APIC_DISABLED,
            }).spec_encode(),
            Request::SetTopology(record) => record.spec_encode(),
            Request::GetTopology => (vm_cpu_topology {
                sockets: 0,
                cores: 0,
                threads: 0,
                maxcpus: 0,
            }).spec_encode(),
            Request::Stats { cpuid } => spec_stats_record(cpuid),
            Request::ActivateCpu(record) => record.spec_encode(),
            Request::SuspendCpu(record) => record.spec_encode(),
            Request::ResumeCpu(record) => record.spec_encode(),
            Request::RtcWrite(record) => record.spec_encode(),
            Request::RtcRead { offset } => (vm_rtc_data { offset, value: 0 }).spec_encode(),
            Request::RtcSettime(record) => record.spec_encode(),
            Request::RtcGettime => (vm_rtc_time { secs: 0 }).spec_encode(),
            Request::DevmemGetoffset { segid } => (vm_devmem_offset {
                segid,
                offset: 0,
            }).spec_encode(),
            Request::HostMap(_) => Seq::empty(),
        }
    }

    /// The command word of the request.
    pub fn word(&self) -> (r: u32)
        ensures
            r == self.spec_word(),
    {
        match self {
            Request::Run { .. } => VM_RUN,
            Request::Suspend(_) => VM_SUSPEND,
            Request::Reinit => VM_REINIT,
            Request::AllocMemseg(_) => VM_ALLOC_MEMSEG,
            Request::GetMemseg { .. } => VM_GET_MEMSEG,
            Request::MmapMemseg(_) => VM_MMAP_MEMSEG,
            Request::MmapGetnext { .. } => VM_MMAP_GETNEXT,
            Request::MunmapMemseg(_) => VM_MUNMAP_MEMSEG,
            Request::SetRegister(_) => VM_SET_REGISTER,
            Request::GetRegister { .. } => VM_GET_REGISTER,
            Request::SetSegmentDescriptor(_) => VM_SET_SEGMENT_DESCRIPTOR,
            Request::GetSegmentDescriptor { .. } => VM_GET_SEGMENT_DESCRIPTOR,
            Request::SetCapability(_) => VM_SET_CAPABILITY,
            Request::GetCapability { .. } => VM_GET_CAPABILITY,
            Request::SetX2apicState(_) => VM_SET_X2APIC_STATE,
            Request::GetX2apicState { .. } => VM_GET_X2APIC_STATE,
            Request::SetTopology(_) => VM_SET_TOPOLOGY,
            Request::GetTopology => VM_GET_TOPOLOGY,
            Request::Stats { .. } => VM_STATS_IOC,
            Request::ActivateCpu(_) => VM_ACTIVATE_CPU,
            Request::SuspendCpu(_) => VM_SUSPEND_CPU,
            Request::ResumeCpu(_) => VM_RESUME_CPU,
            Request::RtcWrite(_) => VM_RTC_WRITE,
            Request::RtcRead { .. } => VM_RTC_READ,
            Request::RtcSettime(_) => VM_RTC_SETTIME,
            Request::RtcGettime => VM_RTC_GETTIME,
            Request::DevmemGetoffset { .. } => VM_DEVMEM_GETOFFSET,
            Request::HostMap(_) => 0,
        }
    }

    /// Writes out the request's record.
    pub fn record(&self) -> (r: Vec<u8>)
        ensures
            r@ == self.spec_record(),
    {
        match self {
            Request::Run { cpuid } => run_record(*cpuid),
            Request::Suspend(record) => record.encode(),
            Request::Reinit => Vec::new(),
            Request::AllocMemseg(record) => record.encode(),
            Request::GetMemseg { segid } => vm_memseg::unnamed(*segid, 0).encode(),
            Request::MmapMemseg(record) => record.encode(),
            Request::MmapGetnext { gpa } => vm_memmap::query(*gpa).encode(),
            Request::MunmapMemseg(record) => record.encode(),
            Request::SetRegister(record) => record.encode(),
            Request::GetRegister { cpuid, regnum } => (vm_register {
                cpuid: *cpuid,
                regnum: *regnum,
                regval: 0,
            }).encode(),
            Request::SetSegmentDescriptor(record) => record.encode(),
            Request::GetSegmentDescriptor { cpuid, regnum } => (vm_seg_desc {
                cpuid: *cpuid,
                regnum: *regnum,
                desc: seg_desc { base: 0, limit: 0, access: 0 },
            }).encode(),
            Request::SetCapability(record) => record.encode(),
            Request::GetCapability { cpuid, captype } => (vm_capability {
                cpuid: *cpuid,
                captype: *captype,
                capval: 0,
                allcpus: 0,
            }).encode(),
            Request::SetX2apicState(record) => record.encode(),
            Request::GetX2apicState { cpuid } => (vm_x2apic {
                cpuid: *cpuid,
                state: x2apic_state::X2APIC_DISABLED,
            }).encode(),
            Request::SetTopology(record) => record.encode(),
            Request::GetTopology => (vm_cpu_topology {
                sockets: 0,
                cores: 0,
                threads: 0,
                maxcpus: 0,
            }).encode(),
            Request::Stats { cpuid } => stats_record(*cpuid),
            Request::ActivateCpu(record) => record.encode(),
            Request::SuspendCpu(record) => record.encode(),
            Request::ResumeCpu(record) => record.encode(),
            Request::RtcWrite(record) => record.encode(),
            Request::RtcRead { offset } => (vm_rtc_data { offset: *offset, value: 0 }).encode(),
            Request::RtcSettime(record) => record.encode(),
            Request::RtcGettime => (vm_rtc_time { secs: 0 }).encode(),
            Request::DevmemGetoffset { segid } => (vm_devmem_offset {
                segid: *segid,
                offset: 0,
            }).encode(),
            Request::HostMap(_) => Vec::new(),
        }
    }

    /// The command that carries the request.
    pub fn command(&self) -> (r: Command)
        ensures
            r.carries(*self),
    {
        match self {
            Request::HostMap(mapping) => Command::HostMap(*mapping),
            _ => Command::Control { command: self.word() as i32, record: self.record() },
        }
    }
}

/// What the record of a reply says in answer to a request that was carried
/// out. A record too short to hold what was asked for, or an x2APIC state
/// that is neither on nor off, gives `InvalidData`. A request that asks for
/// nothing is answered by its being carried out.
pub open spec fn spec_read(request: Request, s: Seq<u8>) -> Result<Output, Error> {
    match request {
        Request::Run { .. } => match vm_run::spec_decode(s) {
            Some(run) => Ok(Output::Exit(VmExit::spec_from_exit(run.vm_exit))),
            None => Err(Error::InvalidData),
        },
        Request::Suspend(_) | Request::Reinit => Ok(Output::Status(0)),
        Request::GetMemseg { .. } => match vm_memseg::spec_decode(s) {
            Some(segment) => Ok(Output::Segment(segment)),
            None => Err(Error::InvalidData),
        },
        Request::MmapGetnext { .. } => match vm_memmap::spec_decode(s) {
            Some(mapping) => Ok(Output::Mapping(mapping)),
            None => Err(Error::InvalidData),
        },
        Request::GetRegister { .. } => if s.len() < 16 {
            Err(Error::InvalidData)
        } else {
            Ok(Output::Register(spec_u64_at(s, 8)))
        },
        Request::GetSegmentDescriptor { .. } => if s.len() < 24 {
            Err(Error::InvalidData)
        } else {
            Ok(Output::Descriptor(spec_u64_at(s, 8), spec_u32_at(s, 16), spec_u32_at(s, 20)))
        },
        Request::GetCapability { .. } => if s.len() < 16 {
            Err(Error::InvalidData)
        } else {
            Ok(Output::Capability(spec_i32_at(s, 8)))
        },
        Request::GetX2apicState { .. } => if s.len() < 8 {
            Err(Error::InvalidData)
        } else if spec_i32_at(s, 4) == x2apic_state::X2APIC_ENABLED.spec_code() {
            Ok(Output::X2apic(true))
        } else if spec_i32_at(s, 4) == x2apic_state::X2APIC_DISABLED.spec_code() {
            Ok(Output::X2apic(false))
        } else {
            Err(Error::InvalidData)
        },
        Request::GetTopology => if s.len() < 8 {
            Err(Error::InvalidData)
        } else {
            Ok(
                Output::Topology(
                    spec_u16_at(s, 0),
                    spec_u16_at(s, 2),
                    spec_u16_at(s, 4),
                    spec_u16_at(s, 6),
                ),
            )
        },
        Request::Stats { .. } => if s.len() < 792 {
            Err(Error::InvalidData)
        } else {
            Ok(Output::Entries(spec_i32_at(s, 4)))
        },
        Request::RtcRead { .. } => if s.len() < 8 {
            Err(Error::InvalidData)
        } else {
            Ok(Output::RtcByte(s[4]))
        },
        Request::RtcGettime => if s.len() < 8 {
            Err(Error::InvalidData)
        } else {
            Ok(Output::RtcTime(spec_i64_at(s, 0)))
        },
        Request::DevmemGetoffset { .. } => if s.len() < 16 {
            Err(Error::InvalidData)
        } else {
            Ok(Output::Offset(spec_i64_at(s, 8)))
        },
        _ => Ok(Output::Done),
    }
}

/// What a reply means as the answer to a request.
///
/// A host mapping that failed gives `AddressUnavailable`. A search for the
/// next mapping that failed gives `NotFound`. Any other request that failed
/// gives `Channel` with the cause the peer reported. A request that was
/// carried out gives what its record says.
pub open spec fn spec_interpret(request: Request, reply: ReplyView) -> Result<Output, Error> {
    if reply.status == 0 {
        spec_read(request, reply.record)
    } else if request is HostMap {
        Err(Error::AddressUnavailable)
    } else if request is MmapGetnext {
        Err(Error::NotFound)
    } else {
        Err(Error::Channel(reply.errno))
    }
}

/// Reads the record of a reply in answer to a request that was carried out.
pub fn read(request: &Request, s: &[u8]) -> (r: Result<Output, Error>)
    ensures
        r == spec_read(*request, s@),
{
    match request {
        Request::Run { .. } => match vm_run::decode(s) {
            Some(run) => Ok(Output::Exit(VmExit::from_exit(&run.vm_exit))),
            None => Err(Error::InvalidData),
        },
        Request::Suspend(_) | Request::Reinit => Ok(Output::Status(0)),
        Request::GetMemseg { .. } => match vm_memseg::decode(s) {
            Some(segment) => Ok(Output::Segment(segment)),
            None => Err(Error::InvalidData),
        },
        Request::MmapGetnext { .. } => match vm_memmap::decode(s) {
            Some(mapping) => Ok(Output::Mapping(mapping)),
            None => Err(Error::InvalidData),
        },
        Request::GetRegister { .. } => if s.len() < 16 {
            Err(Error::InvalidData)
        } else {
            Ok(Output::Register(u64_at(s, 8)))
        },
        Request::GetSegmentDescriptor { .. } => if s.len() < 24 {
            Err(Error::InvalidData)
        } else {
            Ok(Output::Descriptor(u64_at(s, 8), u32_at(s, 16), u32_at(s, 20)))
        },
        Request::GetCapability { .. } => if s.len() < 16 {
            Err(Error::InvalidData)
        } else {
            Ok(Output::Capability(i32_at(s, 8)))
        },
        Request::GetX2apicState { .. } => if s.len() < 8 {
            Err(Error::InvalidData)
        } else {
            match x2apic_state::from_code(i32_at(s, 4)) {
                Some(x2apic_state::X2APIC_ENABLED) => Ok(Output::X2apic(true)),
                Some(x2apic_state::X2APIC_DISABLED) => Ok(Output::X2apic(false)),
                Some(x2apic_state::X2APIC_STATE_LAST) => Err(Error::InvalidData),
                None => Err(Error::InvalidData),
            }
        },
        Request::GetTopology => if s.len() < 8 {
            Err(Error::InvalidData)
        } else {
            Ok(Output::Topology(u16_at(s, 0), u16_at(s, 2), u16_at(s, 4), u16_at(s, 6)))
        },
        Request::Stats { .. } => if s.len() < 792 {
            Err(Error::InvalidData)
        } else {
            Ok(Output::Entries(i32_at(s, 4)))
        },
        Request::RtcRead { .. } => if s.len() < 8 {
            Err(Error::InvalidData)
        } else {
            Ok(Output::RtcByte(s[4]))
        },
        Request::RtcGettime => if s.len() < 8 {
            Err(Error::InvalidData)
        } else {
            Ok(Output::RtcTime(i64_at(s, 0)))
        },
        Request::DevmemGetoffset { .. } => if s.len() < 16 {
            Err(Error::InvalidData)
        } else {
            Ok(Output::Offset(i64_at(s, 8)))
        },
        _ => Ok(Output::Done),
    }
}

/// Reads a reply as the answer to a request.
pub fn interpret(request: &Request, reply: &Reply) -> (r: Result<Output, Error>)
    ensures
        r == spec_interpret(*request, reply@),
{
    if reply.status == 0 {
        read(request, reply.record.as_slice())
    } else {
        match request {
            Request::HostMap(_) => Err(Error::AddressUnavailable),
            Request::MmapGetnext { .. } => Err(Error::NotFound),
            _ => Err(Error::Channel(reply.errno)),
        }
    }
}

/// A segment or a mapping that the peer writes into its reply is the
/// segment or mapping that the reply is read as.
pub proof fn law_reply_round_trip(segment: vm_memseg, mapping: vm_memmap, errno: i32)
    ensures
        spec_interpret(
            Request::GetMemseg { segid: segment.segid },
            ReplyView { status: 0, errno, record: segment.spec_encode() },
        ) == Ok::<Output, Error>(Output::Segment(segment)),
        spec_interpret(
            Request::MmapGetnext { gpa: mapping.gpa },
            ReplyView { status: 0, errno, record: mapping.spec_encode() },
        ) == Ok::<Output, Error>(Output::Mapping(mapping)),
{
    segment.lemma_round_trip();
    mapping.lemma_round_trip();
}

impl OperationView {
    /// The state after a reply: the reply is read as the answer to the
    /// request that the operation waits to have answered. An operation that
    /// has finished stays as it is.
    pub open spec fn advance(self, reply: ReplyView) -> OperationView {
        match self.request() {
            Some(request) => self.resume(spec_interpret(request, reply)),
            None => self,
        }
    }
}

impl Operation {
    /// The command to carry out now, or `None` if the operation has
    /// finished.
    pub fn command(&self) -> (r: Option<Command>)
        ensures
            r is None <==> self@.request() is None,
            r matches Some(command) ==> command.carries(self@.request().unwrap()),
    {
        match self.request() {
            Some(request) => Some(request.command()),
            None => None,
        }
    }

    /// Takes the reply to the command that [`Operation::command`] gave and
    /// moves on.
    pub fn advance(self, reply: &Reply) -> (r: Operation)
        ensures
            r@ == self@.advance(reply@),
    {
        match self.request() {
            Some(request) => {
                let answer = interpret(&request, reply);
                self.resume(answer)
            },
            None => self,
        }
    }
}

} // verus!
