//! Requests, answers and the stages of an operation.
//!
//! An [`Operation`] is a short plan: a list of [`Stage`]s, worked through in
//! order. Each stage sends one request or two. Whoever owns the channel to
//! the hypervisor asks the operation for its next [`Request`], sends it, and
//! hands the answer to [`Operation::resume`], until the operation has
//! finished with an [`Output`] or an [`Error`]. The operation itself never
//! touches the channel, so what it does is a function of the answers alone:
//! [`OperationView`] is that function.
use vstd::prelude::*;
use crate::error::Error;
use crate::vm::VmExit;
use crate::vmm::vm_cap_type;
use crate::vmm_dev::{
    vm_activate_cpu, vm_capability, vm_cpu_topology, vm_memmap, vm_memseg, vm_munmap, vm_register,
    vm_rtc_data, vm_rtc_time, vm_seg_desc, vm_suspend, vm_x2apic,
};

verus! {

/// A mapping of part of the machine device into the address space of the
/// controlling process: `len` bytes at the fixed address `base`, backed by
/// the device from `offset` on.
#[derive(Clone, Copy, Debug, PartialEq, Eq, Structural)]
pub struct host_map {
    pub base: u64,
    pub len: usize,
    pub prot: i32,
    pub flags: i32,
    pub offset: i64,
}

/// One request to the hypervisor. A request that changes something carries
/// the whole record; one that asks for something carries what it asks for,
/// and the peer fills in the rest of the record.
#[derive(Clone, Copy, Debug, PartialEq, Eq)]
pub enum Request {
    /// Run a virtual CPU until it exits.
    Run { cpuid: i32 },
    /// Suspend the machine.
    Suspend(vm_suspend),
    /// Put the machine back into the state it was created in.
    Reinit,
    /// Allocate a memory segment.
    AllocMemseg(vm_memseg),
    /// Ask for the length and name of a memory segment.
    GetMemseg { segid: i32 },
    /// Map part of a segment into the guest-physical address space.
    MmapMemseg(vm_memmap),
    /// Ask for the first mapping that starts at or above an address.
    MmapGetnext { gpa: u64 },
    /// Remove the mapping of a guest-physical range.
    MunmapMemseg(vm_munmap),
    /// Write a register.
    SetRegister(vm_register),
    /// Read a register.
    GetRegister { cpuid: i32, regnum: i32 },
    /// Write a segment descriptor.
    SetSegmentDescriptor(vm_seg_desc),
    /// Read a segment descriptor.
    GetSegmentDescriptor { cpuid: i32, regnum: i32 },
    /// Set a capability.
    SetCapability(vm_capability),
    /// Read a capability.
    GetCapability { cpuid: i32, captype: vm_cap_type },
    /// Switch x2APIC mode on or off.
    SetX2apicState(vm_x2apic),
    /// Ask whether x2APIC mode is on.
    GetX2apicState { cpuid: i32 },
    /// Set the CPU topology.
    SetTopology(vm_cpu_topology),
    /// Read the CPU topology.
    GetTopology,
    /// Read the statistics of a virtual CPU.
    Stats { cpuid: i32 },
    /// Activate a virtual CPU.
    ActivateCpu(vm_activate_cpu),
    /// Suspend a virtual CPU.
    SuspendCpu(vm_activate_cpu),
    /// Resume a virtual CPU.
    ResumeCpu(vm_activate_cpu),
    /// Write a byte of the real-time clock's memory.
    RtcWrite(vm_rtc_data),
    /// Read a byte of the real-time clock's memory.
    RtcRead { offset: i32 },
    /// Set the real-time clock.
    RtcSettime(vm_rtc_time),
    /// Read the real-time clock.
    RtcGettime,
    /// Ask where in the device a device-memory segment begins.
    DevmemGetoffset { segid: i32 },
    /// Map part of the device into the controlling process. This one is not
    /// a record for the peer: the host's memory mapping call serves it.
    HostMap(host_map),
}

/// What an operation brings back.
#[derive(Clone, Copy, Debug, PartialEq, Eq)]
pub enum Output {
    /// The request was carried out; there is nothing to read.
    Done,
    /// The status that the peer returned for a request on the whole machine.
    Status(i32),
    /// A memory segment as the machine holds it.
    Segment(vm_memseg),
    /// A mapping of the guest-physical address space.
    Mapping(vm_memmap),
    /// The offset of a device-memory segment in the device.
    Offset(i64),
    /// The value of a register.
    Register(u64),
    /// Base, limit and access rights of a segment descriptor.
    Descriptor(u64, u32, u32),
    /// A byte of the real-time clock's memory.
    RtcByte(u8),
    /// The real-time clock in seconds.
    RtcTime(i64),
    /// Sockets, cores, threads and the most CPUs the machine can have.
    Topology(u16, u16, u16, u16),
    /// The number of statistics entries.
    Entries(i32),
    /// Whether x2APIC mode is on.
    X2apic(bool),
    /// The value of a capability.
    Capability(i32),
    /// Why a virtual CPU stopped running.
    Exit(VmExit),
}

/// One step of a plan.
#[derive(Clone, Copy, Debug, PartialEq, Eq)]
pub enum Stage {
    /// Send one request. Its answer is the output of the stage.
    Call(Request),
    /// Allocate the segment `wanted` unless the machine has it already: ask
    /// for the segment, and allocate it only if it is not there. `fits` says
    /// whether the name asked for fits the record's buffer; if it does not,
    /// `wanted` holds the empty name and is never sent.
    Segment { wanted: vm_memseg, fits: bool },
    /// Map a segment into the guest unless that mapping is there already: ask
    /// for the mapping at the address, and create it only if none starts
    /// there.
    Mapping(vm_memmap),
    /// Map a device-memory segment into the controlling process: ask for the
    /// segment's offset in the device, then map the device from there.
    DeviceMemory { segid: i32, base: u64, len: usize, prot: i32, flags: i32 },
}

/// What an answer means for the stage that is under way.
#[derive(Clone, Copy, Debug, PartialEq, Eq)]
pub enum Progress {
    /// The stage is complete, with this output.
    Complete(Output),
    /// The stage needs its second request. The number is the offset that a
    /// device-memory stage has learned, and zero for the other stages.
    Follow(i64),
    /// The stage has failed, and the operation with it.
    Abort(Error),
}

impl Stage {
    /// The request that the stage sends: its first, or if `second` is set
    /// its second, for which `offset` is the offset learned from the first.
    pub open spec fn spec_request(self, second: bool, offset: i64) -> Request {
        match self {
            Stage::Call(request) => request,
            Stage::Segment { wanted, fits } => if second {
                Request::AllocMemseg(wanted)
            } else {
                Request::GetMemseg { segid: wanted.segid }
            },
            Stage::Mapping(wanted) => if second {
                Request::MmapMemseg(wanted)
            } else {
                Request::MmapGetnext { gpa: wanted.gpa }
            },
            Stage::DeviceMemory { segid, base, len, prot, flags } => if second {
                Request::HostMap(host_map { base, len, prot, flags, offset })
            } else {
                Request::DevmemGetoffset { segid }
            },
        }
    }

    /// Whether the stage completes with its first answer whatever it is.
    pub open spec fn spec_single(self) -> bool {
        self is Call
    }

    /// Whether the machine already holds the segment that a segment stage
    /// asks for: `found` is allocated, with the length and the name wanted.
    pub open spec fn spec_segment_present(found: vm_memseg, wanted: vm_memseg, fits: bool) -> bool {
        &&& found.len != 0
        &&& fits
        &&& found.len == wanted.len
        &&& found.spec_name() == wanted.spec_name()
    }

    /// What the answer to the stage's first request means.
    pub open spec fn spec_first(self, answer: Result<Output, Error>) -> Progress {
        match self {
            Stage::Call(_) => match answer {
                Ok(output) => Progress::Complete(output),
                Err(e) => Progress::Abort(e),
            },
            Stage::Segment { wanted, fits } => match answer {
                Err(e) => Progress::Abort(e),
                Ok(Output::Segment(found)) => if Stage::spec_segment_present(found, wanted, fits) {
                    Progress::Complete(Output::Done)
                } else if found.len != 0 {
                    Progress::Abort(Error::Conflict)
                } else if !fits {
                    Progress::Abort(Error::InvalidInput)
                } else {
                    Progress::Follow(0)
                },
                Ok(_) => Progress::Abort(Error::InvalidData),
            },
            Stage::Mapping(wanted) => match answer {
                Ok(Output::Mapping(found)) => if found.gpa != wanted.gpa {
                    Progress::Follow(0)
                } else if found.spec_same_as(wanted) {
                    Progress::Complete(Output::Done)
                } else {
                    Progress::Abort(Error::AlreadyExists)
                },
                _ => Progress::Follow(0),
            },
            Stage::DeviceMemory { .. } => match answer {
                Err(e) => Progress::Abort(e),
                Ok(Output::Offset(offset)) => Progress::Follow(offset),
                Ok(_) => Progress::Abort(Error::InvalidData),
            },
        }
    }

    /// What the answer to the stage's second request means: the stage is
    /// complete if the request was carried out, and fails as the request
    /// did.
    pub open spec fn spec_second(self, answer: Result<Output, Error>) -> Progress {
        match answer {
            Ok(_) => Progress::Complete(Output::Done),
            Err(e) => Progress::Abort(e),
        }
    }

    /// What an answer means for the stage.
    pub open spec fn spec_progress(self, second: bool, answer: Result<Output, Error>) -> Progress {
        if second && !self.spec_single() {
            self.spec_second(answer)
        } else {
            self.spec_first(answer)
        }
    }

    /// The request that the stage sends next.
    pub fn request(&self, second: bool, offset: i64) -> (r: Request)
        ensures
            r == self.spec_request(second, offset),
    {
        match self {
            Stage::Call(request) => *request,
            Stage::Segment { wanted, fits } => if second {
                Request::AllocMemseg(*wanted)
            } else {
                Request::GetMemseg { segid: wanted.segid }
            },
            Stage::Mapping(wanted) => if second {
                Request::MmapMemseg(*wanted)
            } else {
                Request::MmapGetnext { gpa: wanted.gpa }
            },
            Stage::DeviceMemory { segid, base, len, prot, flags } => if second {
                Request::HostMap(
                    host_map { base: *base, len: *len, prot: *prot, flags: *flags, offset },
                )
            } else {
                Request::DevmemGetoffset { segid: *segid }
            },
        }
    }

    /// Decides what an answer means for the stage.
    ///
    /// A segment stage ends well without a second request if the machine
    /// holds the segment with the length and name wanted, and fails with
    /// `Conflict` if it holds it with another length or name. A mapping
    /// stage ends well without a second request if the mapping that starts
    /// at the address is the one wanted, and fails with `AlreadyExists` if
    /// it is another.
    pub fn progress(&self, second: bool, answer: Result<Output, Error>) -> (r: Progress)
        ensures
            r == self.spec_progress(second, answer),
    {
        match self {
            Stage::Call(_) => match answer {
                Ok(output) => Progress::Complete(output),
                Err(e) => Progress::Abort(e),
            },
            _ => if second {
                match answer {
                    Ok(_) => Progress::Complete(Output::Done),
                    Err(e) => Progress::Abort(e),
                }
            } else {
                match self {
                    Stage::Segment { wanted, fits } => match answer {
                        Err(e) => Progress::Abort(e),
                        Ok(Output::Segment(found)) => if found.len != 0 {
                            if *fits && found.len == wanted.len && found.same_name(wanted) {
                                Progress::Complete(Output::Done)
                            } else {
                                Progress::Abort(Error::Conflict)
                            }
                        } else if !*fits {
                            Progress::Abort(Error::InvalidInput)
                        } else {
                            Progress::Follow(0)
                        },
                        Ok(_) => Progress::Abort(Error::InvalidData),
                    },
                    Stage::Mapping(wanted) => match answer {
                        Ok(Output::Mapping(found)) => if found.gpa != wanted.gpa {
                            Progress::Follow(0)
                        } else if found.same_as(wanted) {
                            Progress::Complete(Output::Done)
                        } else {
                            Progress::Abort(Error::AlreadyExists)
                        },
                        _ => Progress::Follow(0),
                    },
                    Stage::DeviceMemory { .. } => match answer {
                        Err(e) => Progress::Abort(e),
                        Ok(Output::Offset(offset)) => Progress::Follow(offset),
                        Ok(_) => Progress::Abort(Error::InvalidData),
                    },
                    Stage::Call(_) => match answer {
                        Ok(output) => Progress::Complete(output),
                        Err(e) => Progress::Abort(e),
                    },
                }
            },
        }
    }
}

/// The state of an operation: finished with a result, or under way with the
/// stages still to do, the first of which is the one in progress.
pub enum OperationView {
    /// The operation has ended.
    Finished(Result<Output, Error>),
    /// The operation waits for the answer to a request of the first stage in
    /// `pending`: to the stage's second request if `second` is set, with
    /// `offset` as what the first answer brought.
    Running { pending: Seq<Stage>, second: bool, offset: i64 },
}

impl OperationView {
    /// The state in which a plan starts. An empty plan has nothing to do.
    pub open spec fn start(stages: Seq<Stage>) -> OperationView {
        if stages.len() == 0 {
            OperationView::Finished(Ok(Output::Done))
        } else {
            OperationView::Running { pending: stages, second: false, offset: 0 }
        }
    }

    /// The request that the operation waits to have answered, if it has not
    /// finished.
    pub open spec fn request(self) -> Option<Request> {
        match self {
            OperationView::Running { pending, second, offset } if pending.len() > 0 => Some(
                pending[0].spec_request(second, offset),
            ),
            _ => None,
        }
    }

    /// The result, if the operation has finished.
    pub open spec fn outcome(self) -> Option<Result<Output, Error>> {
        match self {
            OperationView::Finished(result) => Some(result),
            OperationView::Running { pending, .. } => if pending.len() > 0 {
                None
            } else {
                Some(Ok(Output::Done))
            },
        }
    }

    /// The state after an answer. A stage that fails ends the operation with
    /// its error, and no later stage sends anything. The operation's output
    /// is that of its last stage.
    pub open spec fn resume(self, answer: Result<Output, Error>) -> OperationView {
        match self {
            OperationView::Running { pending, second, offset } if pending.len() > 0 => {
                match pending[0].spec_progress(second, answer) {
                    Progress::Abort(e) => OperationView::Finished(Err(e)),
                    Progress::Follow(learned) => OperationView::Running {
                        pending,
                        second: true,
                        offset: learned,
                    },
                    Progress::Complete(output) => if pending.len() == 1 {
                        OperationView::Finished(Ok(output))
                    } else {
                        OperationView::Running {
                            pending: pending.subrange(1, pending.len() as int),
                            second: false,
                            offset: 0,
                        }
                    },
                }
            },
            _ => self,
        }
    }

    /// A bound on the number of requests that the operation still sends.
    pub open spec fn remaining(self) -> nat {
        match self {
            OperationView::Running { pending, second, offset } if pending.len() > 0 => if second {
                (2 * pending.len() - 1) as nat
            } else {
                2 * pending.len()
            },
            _ => 0,
        }
    }

    /// The state after a row of answers, the first of them taken first.
    pub open spec fn answered(self, answers: Seq<Result<Output, Error>>) -> OperationView
        decreases answers.len(),
    {
        if answers.len() == 0 {
            self
        } else {
            self.resume(answers[0]).answered(answers.subrange(1, answers.len() as int))
        }
    }

    /// A row of `n` answers that say a request was carried out.
    pub open spec fn carried_out(n: int) -> Seq<Result<Output, Error>> {
        Seq::new(n as nat, |i: int| Ok(Output::Done))
    }

    /// The plan that sends the given requests one after the other.
    pub open spec fn calls(requests: Seq<Request>) -> OperationView {
        OperationView::start(requests.map(|i: int, request: Request| Stage::Call(request)))
    }

    /// One more answer at the end of a row is taken last.
    pub proof fn lemma_answered_push(
        self,
        answers: Seq<Result<Output, Error>>,
        last: Result<Output, Error>,
    )
        ensures
            self.answered(answers.push(last)) == self.answered(answers).resume(last),
        decreases answers.len(),
    {
        reveal_with_fuel(OperationView::answered, 2);
        let longer = answers.push(last);
        if answers.len() == 0 {
            assert(longer.subrange(1, 1) =~= Seq::<Result<Output, Error>>::empty());
        } else {
            assert(longer.subrange(1, longer.len() as int) =~= answers.subrange(
                1,
                answers.len() as int,
            ).push(last));
            self.resume(answers[0]).lemma_answered_push(
                answers.subrange(1, answers.len() as int),
                last,
            );
        }
    }

    /// After `done` requests of a plan of calls were carried out, the plan
    /// is the plan of the calls that are left.
    pub proof fn lemma_calls_carried_out(requests: Seq<Request>, done: int)
        requires
            0 <= done < requests.len(),
        ensures
            OperationView::calls(requests).answered(OperationView::carried_out(done))
                == OperationView::calls(requests.subrange(done, requests.len() as int)),
        decreases done,
    {
        let stages = requests.map(|i: int, request: Request| Stage::Call(request));
        if done == 0 {
            assert(requests.subrange(0, requests.len() as int) =~= requests);
        } else {
            let rest = requests.subrange(1, requests.len() as int);
            let answers = OperationView::carried_out(done);
            assert(answers.subrange(1, answers.len() as int) =~= OperationView::carried_out(
                done - 1,
            ));
            assert(stages.subrange(1, stages.len() as int) =~= rest.map(
                |i: int, request: Request| Stage::Call(request),
            ));
            assert(OperationView::calls(requests).resume(answers[0]) == OperationView::calls(rest));
            OperationView::lemma_calls_carried_out(rest, done - 1);
            assert(rest.subrange(done - 1, rest.len() as int) =~= requests.subrange(
                done,
                requests.len() as int,
            ));
        }
    }

    /// A plan of calls sends its requests in order, each after the one
    /// before it was carried out, and the first request that fails ends the
    /// plan with its error: nothing is sent after it, and nothing is tried
    /// again.
    pub proof fn law_calls_stop_at_first_failure(requests: Seq<Request>, done: int, e: Error)
        requires
            0 <= done < requests.len(),
        ensures
            OperationView::calls(requests).answered(OperationView::carried_out(done)).request()
                == Some(requests[done]),
            OperationView::calls(requests).answered(
                OperationView::carried_out(done).push(Err(e)),
            ) == OperationView::Finished(Err(e)),
            OperationView::calls(requests).answered(
                OperationView::carried_out(done).push(Err(e)),
            ).request() is None,
    {
        OperationView::lemma_calls_carried_out(requests, done);
        OperationView::calls(requests).lemma_answered_push(
            OperationView::carried_out(done),
            Err(e),
        );
        let left = requests.subrange(done, requests.len() as int);
        assert(left[0] == requests[done]);
    }

    /// Every answer brings the operation nearer to its end.
    pub proof fn law_resume_decreases(self, answer: Result<Output, Error>)
        requires
            self.request() is Some,
        ensures
            self.resume(answer).remaining() < self.remaining(),
    {
    }
}

/// An operation on a machine, under way or finished.
pub struct Operation {
    stages: Vec<Stage>,
    index: usize,
    second: bool,
    offset: i64,
    failure: Option<Error>,
    output: Output,
}

impl View for Operation {
    type V = OperationView;

    closed spec fn view(&self) -> OperationView {
        if let Some(e) = self.failure {
            OperationView::Finished(Err(e))
        } else if self.index >= self.stages@.len() {
            OperationView::Finished(Ok(self.output))
        } else {
            OperationView::Running {
                pending: self.stages@.subrange(self.index as int, self.stages@.len() as int),
                second: self.second,
                offset: self.offset,
            }
        }
    }
}

impl Operation {
    /// An operation that works through `stages` in order.
    pub fn new(stages: Vec<Stage>) -> (r: Operation)
        ensures
            r@ == OperationView::start(stages@),
    {
        let r = Operation {
            stages,
            index: 0,
            second: false,
            offset: 0,
            failure: None,
            output: Output::Done,
        };
        assert(r.stages@.subrange(0, r.stages@.len() as int) =~= r.stages@);
        r
    }

    /// An operation of the single stage `stage`.
    pub fn single(stage: Stage) -> (r: Operation)
        ensures
            r@ == OperationView::start(seq![stage]),
    {
        let mut stages = Vec::new();
        stages.push(stage);
        assert(stages@ =~= seq![stage]);
        Operation::new(stages)
    }

    /// An operation that has failed before it sent anything.
    pub fn failed(e: Error) -> (r: Operation)
        ensures
            r@ == OperationView::Finished(Err(e)),
    {
        Operation {
            stages: Vec::new(),
            index: 0,
            second: false,
            offset: 0,
            failure: Some(e),
            output: Output::Done,
        }
    }

    /// The request to send now, or `None` if the operation has finished.
    pub fn request(&self) -> (r: Option<Request>)
        ensures
            r == self@.request(),
    {
        if self.failure.is_some() || self.index >= self.stages.len() {
            None
        } else {
            Some(self.stages[self.index].request(self.second, self.offset))
        }
    }

    /// The result, or `None` while the operation is under way.
    pub fn outcome(&self) -> (r: Option<Result<Output, Error>>)
        ensures
            r == self@.outcome(),
    {
        match self.failure {
            Some(e) => Some(Err(e)),
            None => if self.index >= self.stages.len() {
                Some(Ok(self.output))
            } else {
                None
            },
        }
    }

    /// Takes the answer to the request that [`Operation::request`] gave and
    /// moves on. An operation that has finished stays as it is.
    pub fn resume(self, answer: Result<Output, Error>) -> (r: Operation)
        ensures
            r@ == self@.resume(answer),
    {
        if self.failure.is_some() || self.index >= self.stages.len() {
            return self;
        }
        let ghost before = self@;
        let progress = self.stages[self.index].progress(self.second, answer);
        let Operation { stages, index, second, offset, failure, output } = self;
        match progress {
            Progress::Abort(e) => Operation {
                stages,
                index,
                second,
                offset,
                failure: Some(e),
                output,
            },
            Progress::Follow(learned) => Operation {
                stages,
                index,
                second: true,
                offset: learned,
                failure,
                output,
            },
            Progress::Complete(done) => {
                let r = Operation {
                    stages,
                    index: index + 1,
                    second: false,
                    offset: 0,
                    failure,
                    output: done,
                };
                assert(r@ == before.resume(answer)) by {
                    let n = stages@.len() as int;
                    let pending = stages@.subrange(index as int, n);
                    assert(pending.subrange(1, pending.len() as int) =~= stages@.subrange(
                        index + 1,
                        n,
                    ));
                }
                r
            },
        }
    }
}

} // verus!
