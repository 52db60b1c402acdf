//! Values of the hypervisor's interface: the closed enumerations that requests
//! and exit records carry as numbers, and the payloads of an exit record.
//!
//! Each enumeration lists its values in the order the peer numbers them, so a
//! value's number is its position in the list.
use vstd::prelude::*;
use crate::wire::{
    i32_at, spec_i32_at, spec_u16_at, spec_u32_at, spec_u64_at, spec_zeros, u16_at, u32_at, u64_at,
};

verus! {

/// Most virtual CPUs one machine can have; a vCPU index is below this.
pub const VM_MAXCPU: usize = 32;

/// Why a machine is suspended.
#[derive(Clone, Copy, Debug, PartialEq, Eq, Structural)]
pub enum vm_suspend_how {
    VM_SUSPEND_NONE,
    VM_SUSPEND_RESET,
    VM_SUSPEND_POWEROFF,
    VM_SUSPEND_HALT,
    VM_SUSPEND_TRIPLEFAULT,
    VM_SUSPEND_LAST,
}

impl vm_suspend_how {
    /// The number that stands for this value in a record: its place in the
    /// enumeration, counted from zero.
    pub open spec fn spec_code(self) -> i32 {
        match self {
            vm_suspend_how::VM_SUSPEND_NONE => 0,
            vm_suspend_how::VM_SUSPEND_RESET => 1,
            vm_suspend_how::VM_SUSPEND_POWEROFF => 2,
            vm_suspend_how::VM_SUSPEND_HALT => 3,
            vm_suspend_how::VM_SUSPEND_TRIPLEFAULT => 4,
            vm_suspend_how::VM_SUSPEND_LAST => 5,
        }
    }

    /// The number that stands for this value in a record.
    pub fn code(self) -> (r: i32)
        ensures
            r == self.spec_code(),
    {
        match self {
            vm_suspend_how::VM_SUSPEND_NONE => 0,
            vm_suspend_how::VM_SUSPEND_RESET => 1,
            vm_suspend_how::VM_SUSPEND_POWEROFF => 2,
            vm_suspend_how::VM_SUSPEND_HALT => 3,
            vm_suspend_how::VM_SUSPEND_TRIPLEFAULT => 4,
            vm_suspend_how::VM_SUSPEND_LAST => 5,
        }
    }

    /// The value that a number stands for: the one whose place in the
    /// enumeration it is, if there is one.
    pub open spec fn spec_from_code(code: i32) -> Option<vm_suspend_how> {
        match code {
            0 => Some(vm_suspend_how::VM_SUSPEND_NONE),
            1 => Some(vm_suspend_how::VM_SUSPEND_RESET),
            2 => Some(vm_suspend_how::VM_SUSPEND_POWEROFF),
            3 => Some(vm_suspend_how::VM_SUSPEND_HALT),
            4 => Some(vm_suspend_how::VM_SUSPEND_TRIPLEFAULT),
            5 => Some(vm_suspend_how::VM_SUSPEND_LAST),
            _ => None,
        }
    }

    /// A value is found again from its number, and no other number finds it.
    pub proof fn law_code_round_trip(value: vm_suspend_how, code: i32)
        ensures
            vm_suspend_how::spec_from_code(value.spec_code()) == Some(value),
            vm_suspend_how::spec_from_code(code) == Some(value) ==> value.spec_code() == code,
    {
    }

    /// The value that a number read from a record stands for, if there is one.
    pub fn from_code(code: i32) -> (r: Option<vm_suspend_how>)
        ensures
            r == vm_suspend_how::spec_from_code(code),
    {
        match code {
            0 => Some(vm_suspend_how::VM_SUSPEND_NONE),
            1 => Some(vm_suspend_how::VM_SUSPEND_RESET),
            2 => Some(vm_suspend_how::VM_SUSPEND_POWEROFF),
            3 => Some(vm_suspend_how::VM_SUSPEND_HALT),
            4 => Some(vm_suspend_how::VM_SUSPEND_TRIPLEFAULT),
            5 => Some(vm_suspend_how::VM_SUSPEND_LAST),
            _ => None,
        }
    }
}

/// The architecturally defined registers of a virtual CPU.
#[derive(Clone, Copy, Debug, PartialEq, Eq, Structural)]
pub enum vm_reg_name {
    VM_REG_GUEST_RAX,
    VM_REG_GUEST_RBX,
    VM_REG_GUEST_RCX,
    VM_REG_GUEST_RDX,
    VM_REG_GUEST_RSI,
    VM_REG_GUEST_RDI,
    VM_REG_GUEST_RBP,
    VM_REG_GUEST_R8,
    VM_REG_GUEST_R9,
    VM_REG_GUEST_R10,
    VM_REG_GUEST_R11,
    VM_REG_GUEST_R12,
    VM_REG_GUEST_R13,
    VM_REG_GUEST_R14,
    VM_REG_GUEST_R15,
    VM_REG_GUEST_CR0,
    VM_REG_GUEST_CR3,
    VM_REG_GUEST_CR4,
    VM_REG_GUEST_DR7,
    VM_REG_GUEST_RSP,
    VM_REG_GUEST_RIP,
    VM_REG_GUEST_RFLAGS,
    VM_REG_GUEST_ES,
    VM_REG_GUEST_CS,
    VM_REG_GUEST_SS,
    VM_REG_GUEST_DS,
    VM_REG_GUEST_FS,
    VM_REG_GUEST_GS,
    VM_REG_GUEST_LDTR,
    VM_REG_GUEST_TR,
    VM_REG_GUEST_IDTR,
    VM_REG_GUEST_GDTR,
    VM_REG_GUEST_EFER,
    VM_REG_GUEST_CR2,
    VM_REG_GUEST_PDPTE0,
    VM_REG_GUEST_PDPTE1,
    VM_REG_GUEST_PDPTE2,
    VM_REG_GUEST_PDPTE3,
    VM_REG_GUEST_INTR_SHADOW,
    VM_REG_GUEST_DR0,
    VM_REG_GUEST_DR1,
    VM_REG_GUEST_DR2,
    VM_REG_GUEST_DR3,
    VM_REG_GUEST_DR6,
    VM_REG_LAST,
}

impl vm_reg_name {
    /// The number that stands for this value in a record: its place in the
    /// enumeration, counted from zero.
    pub open spec fn spec_code(self) -> i32 {
        match self {
            vm_reg_name::VM_REG_GUEST_RAX => 0,
            vm_reg_name::VM_REG_GUEST_RBX => 1,
            vm_reg_name::VM_REG_GUEST_RCX => 2,
            vm_reg_name::VM_REG_GUEST_RDX => 3,
            vm_reg_name::VM_REG_GUEST_RSI => 4,
            vm_reg_name::VM_REG_GUEST_RDI => 5,
            vm_reg_name::VM_REG_GUEST_RBP => 6,
            vm_reg_name::VM_REG_GUEST_R8 => 7,
            vm_reg_name::VM_REG_GUEST_R9 => 8,
            vm_reg_name::VM_REG_GUEST_R10 => 9,
            vm_reg_name::VM_REG_GUEST_R11 => 10,
            vm_reg_name::VM_REG_GUEST_R12 => 11,
            vm_reg_name::VM_REG_GUEST_R13 => 12,
            vm_reg_name::VM_REG_GUEST_R14 => 13,
            vm_reg_name::VM_REG_GUEST_R15 => 14,
            vm_reg_name::VM_REG_GUEST_CR0 => 15,
            vm_reg_name::VM_REG_GUEST_CR3 => 16,
            vm_reg_name::VM_REG_GUEST_CR4 => 17,
            vm_reg_name::VM_REG_GUEST_DR7 => 18,
            vm_reg_name::VM_REG_GUEST_RSP => 19,
            vm_reg_name::VM_REG_GUEST_RIP => 20,
            vm_reg_name::VM_REG_GUEST_RFLAGS => 21,
            vm_reg_name::VM_REG_GUEST_ES => 22,
            vm_reg_name::VM_REG_GUEST_CS => 23,
            vm_reg_name::VM_REG_GUEST_SS => 24,
            vm_reg_name::VM_REG_GUEST_DS => 25,
            vm_reg_name::VM_REG_GUEST_FS => 26,
            vm_reg_name::VM_REG_GUEST_GS => 27,
            vm_reg_name::VM_REG_GUEST_LDTR => 28,
            vm_reg_name::VM_REG_GUEST_TR => 29,
            vm_reg_name::VM_REG_GUEST_IDTR => 30,
            vm_reg_name::VM_REG_GUEST_GDTR => 31,
            vm_reg_name::VM_REG_GUEST_EFER => 32,
            vm_reg_name::VM_REG_GUEST_CR2 => 33,
            vm_reg_name::VM_REG_GUEST_PDPTE0 => 34,
            vm_reg_name::VM_REG_GUEST_PDPTE1 => 35,
            vm_reg_name::VM_REG_GUEST_PDPTE2 => 36,
            vm_reg_name::VM_REG_GUEST_PDPTE3 => 37,
            vm_reg_name::VM_REG_GUEST_INTR_SHADOW => 38,
            vm_reg_name::VM_REG_GUEST_DR0 => 39,
            vm_reg_name::VM_REG_GUEST_DR1 => 40,
            vm_reg_name::VM_REG_GUEST_DR2 => 41,
            vm_reg_name::VM_REG_GUEST_DR3 => 42,
            vm_reg_name::VM_REG_GUEST_DR6 => 43,
            vm_reg_name::VM_REG_LAST => 44,
        }
    }

    /// The number that stands for this value in a record.
    pub fn code(self) -> (r: i32)
        ensures
            r == self.spec_code(),
    {
        match self {
            vm_reg_name::VM_REG_GUEST_RAX => 0,
            vm_reg_name::VM_REG_GUEST_RBX => 1,
            vm_reg_name::VM_REG_GUEST_RCX => 2,
            vm_reg_name::VM_REG_GUEST_RDX => 3,
            vm_reg_name::VM_REG_GUEST_RSI => 4,
            vm_reg_name::VM_REG_GUEST_RDI => 5,
            vm_reg_name::VM_REG_GUEST_RBP => 6,
            vm_reg_name::VM_REG_GUEST_R8 => 7,
            vm_reg_name::VM_REG_GUEST_R9 => 8,
            vm_reg_name::VM_REG_GUEST_R10 => 9,
            vm_reg_name::VM_REG_GUEST_R11 => 10,
            vm_reg_name::VM_REG_GUEST_R12 => 11,
            vm_reg_name::VM_REG_GUEST_R13 => 12,
            vm_reg_name::VM_REG_GUEST_R14 => 13,
            vm_reg_name::VM_REG_GUEST_R15 => 14,
            vm_reg_name::VM_REG_GUEST_CR0 => 15,
            vm_reg_name::VM_REG_GUEST_CR3 => 16,
            vm_reg_name::VM_REG_GUEST_CR4 => 17,
            vm_reg_name::VM_REG_GUEST_DR7 => 18,
            vm_reg_name::VM_REG_GUEST_RSP => 19,
            vm_reg_name::VM_REG_GUEST_RIP => 20,
            vm_reg_name::VM_REG_GUEST_RFLAGS => 21,
            vm_reg_name::VM_REG_GUEST_ES => 22,
            vm_reg_name::VM_REG_GUEST_CS => 23,
            vm_reg_name::VM_REG_GUEST_SS => 24,
            vm_reg_name::VM_REG_GUEST_DS => 25,
            vm_reg_name::VM_REG_GUEST_FS => 26,
            vm_reg_name::VM_REG_GUEST_GS => 27,
            vm_reg_name::VM_REG_GUEST_LDTR => 28,
            vm_reg_name::VM_REG_GUEST_TR => 29,
            vm_reg_name::VM_REG_GUEST_IDTR => 30,
            vm_reg_name::VM_REG_GUEST_GDTR => 31,
            vm_reg_name::VM_REG_GUEST_EFER => 32,
            vm_reg_name::VM_REG_GUEST_CR2 => 33,
            vm_reg_name::VM_REG_GUEST_PDPTE0 => 34,
            vm_reg_name::VM_REG_GUEST_PDPTE1 => 35,
            vm_reg_name::VM_REG_GUEST_PDPTE2 => 36,
            vm_reg_name::VM_REG_GUEST_PDPTE3 => 37,
            vm_reg_name::VM_REG_GUEST_INTR_SHADOW => 38,
            vm_reg_name::VM_REG_GUEST_DR0 => 39,
            vm_reg_name::VM_REG_GUEST_DR1 => 40,
            vm_reg_name::VM_REG_GUEST_DR2 => 41,
            vm_reg_name::VM_REG_GUEST_DR3 => 42,
            vm_reg_name::VM_REG_GUEST_DR6 => 43,
            vm_reg_name::VM_REG_LAST => 44,
        }
    }
}

/// The optional capabilities of a virtual CPU.
#[derive(Clone, Copy, Debug, PartialEq, Eq, Structural)]
pub enum vm_cap_type {
    VM_CAP_HALT_EXIT,
    VM_CAP_MTRAP_EXIT,
    VM_CAP_PAUSE_EXIT,
    VM_CAP_UNRESTRICTED_GUEST,
    VM_CAP_ENABLE_INVPCID,
    VM_CAP_MAX,
}

impl vm_cap_type {
    /// The number that stands for this value in a record: its place in the
    /// enumeration, counted from zero.
    pub open spec fn spec_code(self) -> i32 {
        match self {
            vm_cap_type::VM_CAP_HALT_EXIT => 0,
            vm_cap_type::VM_CAP_MTRAP_EXIT => 1,
            vm_cap_type::VM_CAP_PAUSE_EXIT => 2,
            vm_cap_type::VM_CAP_UNRESTRICTED_GUEST => 3,
            vm_cap_type::VM_CAP_ENABLE_INVPCID => 4,
            vm_cap_type::VM_CAP_MAX => 5,
        }
    }

    /// The number that stands for this value in a record.
    pub fn code(self) -> (r: i32)
        ensures
            r == self.spec_code(),
    {
        match self {
            vm_cap_type::VM_CAP_HALT_EXIT => 0,
            vm_cap_type::VM_CAP_MTRAP_EXIT => 1,
            vm_cap_type::VM_CAP_PAUSE_EXIT => 2,
            vm_cap_type::VM_CAP_UNRESTRICTED_GUEST => 3,
            vm_cap_type::VM_CAP_ENABLE_INVPCID => 4,
            vm_cap_type::VM_CAP_MAX => 5,
        }
    }
}

/// Whether a virtual CPU's local APIC runs in x2APIC mode.
#[derive(Clone, Copy, Debug, PartialEq, Eq, Structural)]
pub enum x2apic_state {
    X2APIC_DISABLED,
    X2APIC_ENABLED,
    X2APIC_STATE_LAST,
}

impl x2apic_state {
    /// The number that stands for this value in a record: its place in the
    /// enumeration, counted from zero.
    pub open spec fn spec_code(self) -> i32 {
        match self {
            x2apic_state::X2APIC_DISABLED => 0,
            x2apic_state::X2APIC_ENABLED => 1,
            x2apic_state::X2APIC_STATE_LAST => 2,
        }
    }

    /// The number that stands for this value in a record.
    pub fn code(self) -> (r: i32)
        ensures
            r == self.spec_code(),
    {
        match self {
            x2apic_state::X2APIC_DISABLED => 0,
            x2apic_state::X2APIC_ENABLED => 1,
            x2apic_state::X2APIC_STATE_LAST => 2,
        }
    }

    /// The value that a number stands for: the one whose place in the
    /// enumeration it is, if there is one.
    pub open spec fn spec_from_code(code: i32) -> Option<x2apic_state> {
        match code {
            0 => Some(x2apic_state::X2APIC_DISABLED),
            1 => Some(x2apic_state::X2APIC_ENABLED),
            2 => Some(x2apic_state::X2APIC_STATE_LAST),
            _ => None,
        }
    }

    /// A value is found again from its number, and no other number finds it.
    pub proof fn law_code_round_trip(value: x2apic_state, code: i32)
        ensures
            x2apic_state::spec_from_code(value.spec_code()) == Some(value),
            x2apic_state::spec_from_code(code) == Some(value) ==> value.spec_code() == code,
    {
    }

    /// The value that a number read from a record stands for, if there is one.
    pub fn from_code(code: i32) -> (r: Option<x2apic_state>)
        ensures
            r == x2apic_state::spec_from_code(code),
            match r {
                Some(v) => v.spec_code() == code,
                None => forall|v: x2apic_state| v.spec_code() != code,
            },
    {
        match code {
            0 => Some(x2apic_state::X2APIC_DISABLED),
            1 => Some(x2apic_state::X2APIC_ENABLED),
            2 => Some(x2apic_state::X2APIC_STATE_LAST),
            _ => None,
        }
    }
}

/// Why a virtual CPU stopped running and gave control back.
#[derive(Clone, Copy, Debug, PartialEq, Eq, Structural)]
pub enum vm_exitcode {
    VM_EXITCODE_INOUT,
    VM_EXITCODE_VMX,
    VM_EXITCODE_BOGUS,
    VM_EXITCODE_RDMSR,
    VM_EXITCODE_WRMSR,
    VM_EXITCODE_HLT,
    VM_EXITCODE_MTRAP,
    VM_EXITCODE_PAUSE,
    VM_EXITCODE_PAGING,
    VM_EXITCODE_INST_EMUL,
    VM_EXITCODE_SPINUP_AP,
    /// Once the exit for spinning a CPU down; no longer raised.
    VM_EXITCODE_DEPRECATED1,
    VM_EXITCODE_RUNBLOCK,
    VM_EXITCODE_IOAPIC_EOI,
    VM_EXITCODE_SUSPENDED,
    VM_EXITCODE_INOUT_STR,
    VM_EXITCODE_TASK_SWITCH,
    VM_EXITCODE_MONITOR,
    VM_EXITCODE_MWAIT,
    VM_EXITCODE_SVM,
    VM_EXITCODE_REQIDLE,
    VM_EXITCODE_DEBUG,
    VM_EXITCODE_VMINSN,
    VM_EXITCODE_HT,
    VM_EXITCODE_MAX,
}

impl vm_exitcode {
    /// The number that stands for this value in a record: its place in the
    /// enumeration, counted from zero.
    pub open spec fn spec_code(self) -> i32 {
        match self {
            vm_exitcode::VM_EXITCODE_INOUT => 0,
            vm_exitcode::VM_EXITCODE_VMX => 1,
            vm_exitcode::VM_EXITCODE_BOGUS => 2,
            vm_exitcode::VM_EXITCODE_RDMSR => 3,
            vm_exitcode::VM_EXITCODE_WRMSR => 4,
            vm_exitcode::VM_EXITCODE_HLT => 5,
            vm_exitcode::VM_EXITCODE_MTRAP => 6,
            vm_exitcode::VM_EXITCODE_PAUSE => 7,
            vm_exitcode::VM_EXITCODE_PAGING => 8,
            vm_exitcode::VM_EXITCODE_INST_EMUL => 9,
            vm_exitcode::VM_EXITCODE_SPINUP_AP => 10,
            vm_exitcode::VM_EXITCODE_DEPRECATED1 => 11,
            vm_exitcode::VM_EXITCODE_RUNBLOCK => 12,
            vm_exitcode::VM_EXITCODE_IOAPIC_EOI => 13,
            vm_exitcode::VM_EXITCODE_SUSPENDED => 14,
            vm_exitcode::VM_EXITCODE_INOUT_STR => 15,
            vm_exitcode::VM_EXITCODE_TASK_SWITCH => 16,
            vm_exitcode::VM_EXITCODE_MONITOR => 17,
            vm_exitcode::VM_EXITCODE_MWAIT => 18,
            vm_exitcode::VM_EXITCODE_SVM => 19,
            vm_exitcode::VM_EXITCODE_REQIDLE => 20,
            vm_exitcode::VM_EXITCODE_DEBUG => 21,
            vm_exitcode::VM_EXITCODE_VMINSN => 22,
            vm_exitcode::VM_EXITCODE_HT => 23,
            vm_exitcode::VM_EXITCODE_MAX => 24,
        }
    }

    /// The number that stands for this value in a record.
    pub fn code(self) -> (r: i32)
        ensures
            r == self.spec_code(),
    {
        match self {
            vm_exitcode::VM_EXITCODE_INOUT => 0,
            vm_exitcode::VM_EXITCODE_VMX => 1,
            vm_exitcode::VM_EXITCODE_BOGUS => 2,
            vm_exitcode::VM_EXITCODE_RDMSR => 3,
            vm_exitcode::VM_EXITCODE_WRMSR => 4,
            vm_exitcode::VM_EXITCODE_HLT => 5,
            vm_exitcode::VM_EXITCODE_MTRAP => 6,
            vm_exitcode::VM_EXITCODE_PAUSE => 7,
            vm_exitcode::VM_EXITCODE_PAGING => 8,
            vm_exitcode::VM_EXITCODE_INST_EMUL => 9,
            vm_exitcode::VM_EXITCODE_SPINUP_AP => 10,
            vm_exitcode::VM_EXITCODE_DEPRECATED1 => 11,
            vm_exitcode::VM_EXITCODE_RUNBLOCK => 12,
            vm_exitcode::VM_EXITCODE_IOAPIC_EOI => 13,
            vm_exitcode::VM_EXITCODE_SUSPENDED => 14,
            vm_exitcode::VM_EXITCODE_INOUT_STR => 15,
            vm_exitcode::VM_EXITCODE_TASK_SWITCH => 16,
            vm_exitcode::VM_EXITCODE_MONITOR => 17,
            vm_exitcode::VM_EXITCODE_MWAIT => 18,
            vm_exitcode::VM_EXITCODE_SVM => 19,
            vm_exitcode::VM_EXITCODE_REQIDLE => 20,
            vm_exitcode::VM_EXITCODE_DEBUG => 21,
            vm_exitcode::VM_EXITCODE_VMINSN => 22,
            vm_exitcode::VM_EXITCODE_HT => 23,
            vm_exitcode::VM_EXITCODE_MAX => 24,
        }
    }

    /// The value that a number stands for: the one whose place in the
    /// enumeration it is, if there is one.
    pub open spec fn spec_from_code(code: i32) -> Option<vm_exitcode> {
        match code {
            0 => Some(vm_exitcode::VM_EXITCODE_INOUT),
            1 => Some(vm_exitcode::VM_EXITCODE_VMX),
            2 => Some(vm_exitcode::VM_EXITCODE_BOGUS),
            3 => Some(vm_exitcode::VM_EXITCODE_RDMSR),
            4 => Some(vm_exitcode::VM_EXITCODE_WRMSR),
            5 => Some(vm_exitcode::VM_EXITCODE_HLT),
            6 => Some(vm_exitcode::VM_EXITCODE_MTRAP),
            7 => Some(vm_exitcode::VM_EXITCODE_PAUSE),
            8 => Some(vm_exitcode::VM_EXITCODE_PAGING),
            9 => Some(vm_exitcode::VM_EXITCODE_INST_EMUL),
            10 => Some(vm_exitcode::VM_EXITCODE_SPINUP_AP),
            11 => Some(vm_exitcode::VM_EXITCODE_DEPRECATED1),
            12 => Some(vm_exitcode::VM_EXITCODE_RUNBLOCK),
            13 => Some(vm_exitcode::VM_EXITCODE_IOAPIC_EOI),
            14 => Some(vm_exitcode::VM_EXITCODE_SUSPENDED),
            15 => Some(vm_exitcode::VM_EXITCODE_INOUT_STR),
            16 => Some(vm_exitcode::VM_EXITCODE_TASK_SWITCH),
            17 => Some(vm_exitcode::VM_EXITCODE_MONITOR),
            18 => Some(vm_exitcode::VM_EXITCODE_MWAIT),
            19 => Some(vm_exitcode::VM_EXITCODE_SVM),
            20 => Some(vm_exitcode::VM_EXITCODE_REQIDLE),
            21 => Some(vm_exitcode::VM_EXITCODE_DEBUG),
            22 => Some(vm_exitcode::VM_EXITCODE_VMINSN),
            23 => Some(vm_exitcode::VM_EXITCODE_HT),
            24 => Some(vm_exitcode::VM_EXITCODE_MAX),
            _ => None,
        }
    }

    /// A value is found again from its number, and no other number finds it.
    pub proof fn law_code_round_trip(value: vm_exitcode, code: i32)
        ensures
            vm_exitcode::spec_from_code(value.spec_code()) == Some(value),
            vm_exitcode::spec_from_code(code) == Some(value) ==> value.spec_code() == code,
    {
    }

    /// The value that a number read from a record stands for, if there is one.
    pub fn from_code(code: i32) -> (r: Option<vm_exitcode>)
        ensures
            r == vm_exitcode::spec_from_code(code),
            match r {
                Some(v) => v.spec_code() == code,
                None => forall|v: vm_exitcode| v.spec_code() != code,
            },
    {
        match code {
            0 => Some(vm_exitcode::VM_EXITCODE_INOUT),
            1 => Some(vm_exitcode::VM_EXITCODE_VMX),
            2 => Some(vm_exitcode::VM_EXITCODE_BOGUS),
            3 => Some(vm_exitcode::VM_EXITCODE_RDMSR),
            4 => Some(vm_exitcode::VM_EXITCODE_WRMSR),
            5 => Some(vm_exitcode::VM_EXITCODE_HLT),
            6 => Some(vm_exitcode::VM_EXITCODE_MTRAP),
            7 => Some(vm_exitcode::VM_EXITCODE_PAUSE),
            8 => Some(vm_exitcode::VM_EXITCODE_PAGING),
            9 => Some(vm_exitcode::VM_EXITCODE_INST_EMUL),
            10 => Some(vm_exitcode::VM_EXITCODE_SPINUP_AP),
            11 => Some(vm_exitcode::VM_EXITCODE_DEPRECATED1),
            12 => Some(vm_exitcode::VM_EXITCODE_RUNBLOCK),
            13 => Some(vm_exitcode::VM_EXITCODE_IOAPIC_EOI),
            14 => Some(vm_exitcode::VM_EXITCODE_SUSPENDED),
            15 => Some(vm_exitcode::VM_EXITCODE_INOUT_STR),
            16 => Some(vm_exitcode::VM_EXITCODE_TASK_SWITCH),
            17 => Some(vm_exitcode::VM_EXITCODE_MONITOR),
            18 => Some(vm_exitcode::VM_EXITCODE_MWAIT),
            19 => Some(vm_exitcode::VM_EXITCODE_SVM),
            20 => Some(vm_exitcode::VM_EXITCODE_REQIDLE),
            21 => Some(vm_exitcode::VM_EXITCODE_DEBUG),
            22 => Some(vm_exitcode::VM_EXITCODE_VMINSN),
            23 => Some(vm_exitcode::VM_EXITCODE_HT),
            24 => Some(vm_exitcode::VM_EXITCODE_MAX),
            _ => None,
        }
    }
}

/// The operating mode of a virtual CPU.
#[derive(Clone, Copy, Debug, PartialEq, Eq, Structural)]
pub enum vm_cpu_mode {
    CPU_MODE_REAL,
    CPU_MODE_PROTECTED,
    /// IA-32E mode with CS.L = 0.
    CPU_MODE_COMPATIBILITY,
    /// IA-32E mode with CS.L = 1.
    CPU_MODE_64BIT,
}

impl vm_cpu_mode {
    /// The number that stands for this value in a record: its place in the
    /// enumeration, counted from zero.
    pub open spec fn spec_code(self) -> i32 {
        match self {
            vm_cpu_mode::CPU_MODE_REAL => 0,
            vm_cpu_mode::CPU_MODE_PROTECTED => 1,
            vm_cpu_mode::CPU_MODE_COMPATIBILITY => 2,
            vm_cpu_mode::CPU_MODE_64BIT => 3,
        }
    }

    /// The value that a number stands for: the one whose place in the
    /// enumeration it is, if there is one.
    pub open spec fn spec_from_code(code: i32) -> Option<vm_cpu_mode> {
        match code {
            0 => Some(vm_cpu_mode::CPU_MODE_REAL),
            1 => Some(vm_cpu_mode::CPU_MODE_PROTECTED),
            2 => Some(vm_cpu_mode::CPU_MODE_COMPATIBILITY),
            3 => Some(vm_cpu_mode::CPU_MODE_64BIT),
            _ => None,
        }
    }

    /// A value is found again from its number, and no other number finds it.
    pub proof fn law_code_round_trip(value: vm_cpu_mode, code: i32)
        ensures
            vm_cpu_mode::spec_from_code(value.spec_code()) == Some(value),
            vm_cpu_mode::spec_from_code(code) == Some(value) ==> value.spec_code() == code,
    {
    }

    /// The value that a number read from a record stands for, if there is one.
    pub fn from_code(code: i32) -> (r: Option<vm_cpu_mode>)
        ensures
            r == vm_cpu_mode::spec_from_code(code),
    {
        match code {
            0 => Some(vm_cpu_mode::CPU_MODE_REAL),
            1 => Some(vm_cpu_mode::CPU_MODE_PROTECTED),
            2 => Some(vm_cpu_mode::CPU_MODE_COMPATIBILITY),
            3 => Some(vm_cpu_mode::CPU_MODE_64BIT),
            _ => None,
        }
    }
}

/// The paging mode of a virtual CPU.
#[derive(Clone, Copy, Debug, PartialEq, Eq, Structural)]
pub enum vm_paging_mode {
    PAGING_MODE_FLAT,
    PAGING_MODE_32,
    PAGING_MODE_PAE,
    PAGING_MODE_64,
}

impl vm_paging_mode {
    /// The number that stands for this value in a record: its place in the
    /// enumeration, counted from zero.
    pub open spec fn spec_code(self) -> i32 {
        match self {
            vm_paging_mode::PAGING_MODE_FLAT => 0,
            vm_paging_mode::PAGING_MODE_32 => 1,
            vm_paging_mode::PAGING_MODE_PAE => 2,
            vm_paging_mode::PAGING_MODE_64 => 3,
        }
    }

    /// The value that a number stands for: the one whose place in the
    /// enumeration it is, if there is one.
    pub open spec fn spec_from_code(code: i32) -> Option<vm_paging_mode> {
        match code {
            0 => Some(vm_paging_mode::PAGING_MODE_FLAT),
            1 => Some(vm_paging_mode::PAGING_MODE_32),
            2 => Some(vm_paging_mode::PAGING_MODE_PAE),
            3 => Some(vm_paging_mode::PAGING_MODE_64),
            _ => None,
        }
    }

    /// A value is found again from its number, and no other number finds it.
    pub proof fn law_code_round_trip(value: vm_paging_mode, code: i32)
        ensures
            vm_paging_mode::spec_from_code(value.spec_code()) == Some(value),
            vm_paging_mode::spec_from_code(code) == Some(value) ==> value.spec_code() == code,
    {
    }

    /// The value that a number read from a record stands for, if there is one.
    pub fn from_code(code: i32) -> (r: Option<vm_paging_mode>)
        ensures
            r == vm_paging_mode::spec_from_code(code),
    {
        match code {
            0 => Some(vm_paging_mode::PAGING_MODE_FLAT),
            1 => Some(vm_paging_mode::PAGING_MODE_32),
            2 => Some(vm_paging_mode::PAGING_MODE_PAE),
            3 => Some(vm_paging_mode::PAGING_MODE_64),
            _ => None,
        }
    }
}

/// What made a virtual CPU switch tasks.
#[derive(Clone, Copy, Debug, PartialEq, Eq, Structural)]
pub enum task_switch_reason {
    TSR_CALL,
    TSR_IRET,
    TSR_JMP,
    /// A task gate in the interrupt descriptor table.
    TSR_IDT_GATE,
}

impl task_switch_reason {
    /// The number that stands for this value in a record: its place in the
    /// enumeration, counted from zero.
    pub open spec fn spec_code(self) -> i32 {
        match self {
            task_switch_reason::TSR_CALL => 0,
            task_switch_reason::TSR_IRET => 1,
            task_switch_reason::TSR_JMP => 2,
            task_switch_reason::TSR_IDT_GATE => 3,
        }
    }

    /// The value that a number stands for: the one whose place in the
    /// enumeration it is, if there is one.
    pub open spec fn spec_from_code(code: i32) -> Option<task_switch_reason> {
        match code {
            0 => Some(task_switch_reason::TSR_CALL),
            1 => Some(task_switch_reason::TSR_IRET),
            2 => Some(task_switch_reason::TSR_JMP),
            3 => Some(task_switch_reason::TSR_IDT_GATE),
            _ => None,
        }
    }

    /// A value is found again from its number, and no other number finds it.
    pub proof fn law_code_round_trip(value: task_switch_reason, code: i32)
        ensures
            task_switch_reason::spec_from_code(value.spec_code()) == Some(value),
            task_switch_reason::spec_from_code(code) == Some(value) ==> value.spec_code() == code,
    {
    }

    /// The value that a number read from a record stands for, if there is one.
    pub fn from_code(code: i32) -> (r: Option<task_switch_reason>)
        ensures
            r == task_switch_reason::spec_from_code(code),
    {
        match code {
            0 => Some(task_switch_reason::TSR_CALL),
            1 => Some(task_switch_reason::TSR_IRET),
            2 => Some(task_switch_reason::TSR_JMP),
            3 => Some(task_switch_reason::TSR_IDT_GATE),
            _ => None,
        }
    }
}

/// The descriptor of a segment register. The access rights have the format of
/// the Intel manual's table of VMCS segment access rights; bit 16 marks a
/// segment as unusable.
#[derive(Clone, Copy, Debug, Default, PartialEq, Eq, Structural)]
pub struct seg_desc {
    pub base: u64,
    pub limit: u32,
    pub access: u32,
}

/// The payload of a port I/O exit.
#[derive(Clone, Copy, Debug, Default, PartialEq, Eq, Structural)]
pub struct vm_inout {
    /// Width, direction, string and repeat flags, packed by the peer.
    pub bitfields: u8,
    /// The I/O port.
    pub port: u16,
    /// The accumulator: the value written, or room for the value read.
    pub eax: u32,
}

/// The payload of an exit that no other exit code describes better.
#[derive(Clone, Copy, Debug, Default, PartialEq, Eq, Structural)]
pub struct vm_exit_vmx {
    /// Status of the VMX instruction; zero when the exit is a real VM exit.
    pub status: i32,
    /// Valid only if `status` is zero.
    pub exit_reason: u32,
    /// Valid only if `status` is zero.
    pub exit_qualification: u64,
    /// Valid only if `status` is not zero.
    pub inst_type: i32,
    /// Valid only if `status` is not zero.
    pub inst_error: i32,
}

/// How the guest translates addresses: the root of its page tables, its
/// privilege level, and its CPU and paging modes.
#[derive(Clone, Copy, Debug, PartialEq, Eq, Structural)]
pub struct vm_guest_paging {
    pub cr3: u64,
    pub cpl: i32,
    pub cpu_mode: vm_cpu_mode,
    pub paging_mode: vm_paging_mode,
}

/// The payload of a task switch exit.
#[derive(Clone, Copy, Debug, PartialEq, Eq, Structural)]
pub struct vm_task_switch {
    /// The selector of the new task state segment.
    pub tsssel: u16,
    /// Whether an event from outside caused the task switch.
    pub ext: i32,
    pub errcode: u32,
    /// Whether `errcode` is to be pushed on the new stack.
    pub errcode_valid: i32,
    pub reason: task_switch_reason,
    pub paging: vm_guest_paging,
}

/// The payload of a paging exit.
#[derive(Clone, Copy, Debug, Default, PartialEq, Eq, Structural)]
pub struct vm_exit_paging {
    pub gpa: u64,
    pub fault_type: i32,
}

/// The payload of an exit for an instruction to emulate. The bytes of the
/// instruction follow these fields in the payload area.
#[derive(Clone, Copy, Debug, PartialEq, Eq, Structural)]
pub struct vm_exit_inst_emul {
    pub gpa: u64,
    pub gla: u64,
    pub cs_base: u64,
    /// The default operand size bit of the code segment.
    pub cs_d: i32,
    pub paging: vm_guest_paging,
}

/// The payload of an SVM exit.
#[derive(Clone, Copy, Debug, Default, PartialEq, Eq, Structural)]
pub struct vm_exit_svm {
    pub exitcode: u64,
    pub exitinfo1: u64,
    pub exitinfo2: u64,
}

/// The payload of an exit for reading or writing a model-specific register:
/// the register's number, from ECX, and the value to write.
#[derive(Clone, Copy, Debug, Default, PartialEq, Eq, Structural)]
pub struct vm_exit_msr {
    pub code: u32,
    pub wval: u64,
}

/// The payload of an exit for starting another virtual CPU.
#[derive(Clone, Copy, Debug, Default, PartialEq, Eq, Structural)]
pub struct vm_exit_spinup_ap {
    pub vcpu: i32,
    pub rip: u64,
}

/// The payload of a halt exit.
#[derive(Clone, Copy, Debug, Default, PartialEq, Eq, Structural)]
pub struct vm_exit_hlt {
    pub rflags: u64,
    pub intr_status: u64,
}

/// The payload of an exit for an end of interrupt at the I/O APIC.
#[derive(Clone, Copy, Debug, Default, PartialEq, Eq, Structural)]
pub struct vm_exit_ioapic_eoi {
    pub vector: i32,
}

/// The payload of an exit taken because the machine was suspended.
#[derive(Clone, Copy, Debug, PartialEq, Eq, Structural)]
pub struct vm_exit_suspended {
    pub how: vm_suspend_how,
}

/// The payload area of an exit record. The peer lays one of several payloads
/// over the same bytes, and the exit code says which; the area is kept as
/// the bytes it is, and each reader takes its fields from their offsets.
#[derive(Clone, Copy, Debug, PartialEq, Eq)]
pub struct vm_exit_payload {
    pub bytes: [u8; 120],
}

impl vm_exit_payload {
    /// The area read as a port I/O payload.
    pub open spec fn spec_inout(self) -> vm_inout {
        vm_inout {
            bitfields: self.bytes@[0],
            port: spec_u16_at(self.bytes@, 2),
            eax: spec_u32_at(self.bytes@, 4),
        }
    }

    /// The area read as a VMX payload.
    pub open spec fn spec_vmx(self) -> vm_exit_vmx {
        vm_exit_vmx {
            status: spec_i32_at(self.bytes@, 0),
            exit_reason: spec_u32_at(self.bytes@, 4),
            exit_qualification: spec_u64_at(self.bytes@, 8),
            inst_type: spec_i32_at(self.bytes@, 16),
            inst_error: spec_i32_at(self.bytes@, 20),
        }
    }

    /// An area of zero bytes.
    pub fn empty() -> (r: vm_exit_payload)
        ensures
            r.bytes@ == spec_zeros(120),
    {
        let r = vm_exit_payload { bytes: [0u8; 120] };
        assert(r.bytes@ =~= spec_zeros(120));
        r
    }

    /// Reads the area as a port I/O payload. A string port I/O payload
    /// begins with the same fields.
    pub fn inout(&self) -> (r: vm_inout)
        ensures
            r == self.spec_inout(),
    {
        let s = self.bytes.as_slice();
        vm_inout { bitfields: s[0], port: u16_at(s, 2), eax: u32_at(s, 4) }
    }

    /// Reads the area as a VMX payload.
    pub fn vmx(&self) -> (r: vm_exit_vmx)
        ensures
            r == self.spec_vmx(),
    {
        let s = self.bytes.as_slice();
        vm_exit_vmx {
            status: i32_at(s, 0),
            exit_reason: u32_at(s, 4),
            exit_qualification: u64_at(s, 8),
            inst_type: i32_at(s, 16),
            inst_error: i32_at(s, 20),
        }
    }

    /// The paging state stored at offset `at` of the area; `None` if a mode
    /// is a number that names none.
    pub open spec fn spec_guest_paging(self, at: int) -> Option<vm_guest_paging> {
        match (
            vm_cpu_mode::spec_from_code(spec_i32_at(self.bytes@, at + 12)),
            vm_paging_mode::spec_from_code(spec_i32_at(self.bytes@, at + 16)),
        ) {
            (Some(cpu_mode), Some(paging_mode)) => Some(
                vm_guest_paging {
                    cr3: spec_u64_at(self.bytes@, at),
                    cpl: spec_i32_at(self.bytes@, at + 8),
                    cpu_mode,
                    paging_mode,
                },
            ),
            _ => None,
        }
    }

    /// The area read as a paging payload.
    pub open spec fn spec_paging(self) -> vm_exit_paging {
        vm_exit_paging { gpa: spec_u64_at(self.bytes@, 0), fault_type: spec_i32_at(self.bytes@, 8) }
    }

    /// The area read as the payload of an instruction to emulate.
    pub open spec fn spec_inst_emul(self) -> Option<vm_exit_inst_emul> {
        match self.spec_guest_paging(32) {
            Some(paging) => Some(
                vm_exit_inst_emul {
                    gpa: spec_u64_at(self.bytes@, 0),
                    gla: spec_u64_at(self.bytes@, 8),
                    cs_base: spec_u64_at(self.bytes@, 16),
                    cs_d: spec_i32_at(self.bytes@, 24),
                    paging,
                },
            ),
            None => None,
        }
    }

    /// The area read as an SVM payload.
    pub open spec fn spec_svm(self) -> vm_exit_svm {
        vm_exit_svm {
            exitcode: spec_u64_at(self.bytes@, 0),
            exitinfo1: spec_u64_at(self.bytes@, 8),
            exitinfo2: spec_u64_at(self.bytes@, 16),
        }
    }

    /// The area read as the payload of a model-specific register exit.
    pub open spec fn spec_msr(self) -> vm_exit_msr {
        vm_exit_msr { code: spec_u32_at(self.bytes@, 0), wval: spec_u64_at(self.bytes@, 8) }
    }

    /// The area read as the payload of an exit for starting a virtual CPU.
    pub open spec fn spec_spinup_ap(self) -> vm_exit_spinup_ap {
        vm_exit_spinup_ap { vcpu: spec_i32_at(self.bytes@, 0), rip: spec_u64_at(self.bytes@, 8) }
    }

    /// The area read as a halt payload.
    pub open spec fn spec_hlt(self) -> vm_exit_hlt {
        vm_exit_hlt { rflags: spec_u64_at(self.bytes@, 0), intr_status: spec_u64_at(self.bytes@, 8) }
    }

    /// The area read as the payload of an end of interrupt.
    pub open spec fn spec_ioapic_eoi(self) -> vm_exit_ioapic_eoi {
        vm_exit_ioapic_eoi { vector: spec_i32_at(self.bytes@, 0) }
    }

    /// The area read as the payload of a suspension; `None` if the reason is
    /// a number that names none.
    pub open spec fn spec_suspended(self) -> Option<vm_exit_suspended> {
        match vm_suspend_how::spec_from_code(spec_i32_at(self.bytes@, 0)) {
            Some(how) => Some(vm_exit_suspended { how }),
            None => None,
        }
    }

    /// The area read as a task switch payload; `None` if the reason or a
    /// mode is a number that names none.
    pub open spec fn spec_task_switch(self) -> Option<vm_task_switch> {
        match (
            task_switch_reason::spec_from_code(spec_i32_at(self.bytes@, 16)),
            self.spec_guest_paging(24),
        ) {
            (Some(reason), Some(paging)) => Some(
                vm_task_switch {
                    tsssel: spec_u16_at(self.bytes@, 0),
                    ext: spec_i32_at(self.bytes@, 4),
                    errcode: spec_u32_at(self.bytes@, 8),
                    errcode_valid: spec_i32_at(self.bytes@, 12),
                    reason,
                    paging,
                },
            ),
            _ => None,
        }
    }

    /// Reads the paging state stored at offset `at` of the area.
    fn guest_paging(&self, at: usize) -> (r: Option<vm_guest_paging>)
        requires
            at + 24 <= 120,
        ensures
            r == self.spec_guest_paging(at as int),
    {
        let s = self.bytes.as_slice();
        let cpu_mode = vm_cpu_mode::from_code(i32_at(s, at + 12));
        let paging_mode = vm_paging_mode::from_code(i32_at(s, at + 16));
        match (cpu_mode, paging_mode) {
            (Some(cpu_mode), Some(paging_mode)) => Some(
                vm_guest_paging { cr3: u64_at(s, at), cpl: i32_at(s, at + 8), cpu_mode, paging_mode },
            ),
            _ => None,
        }
    }

    /// Reads the area as a paging payload.
    pub fn paging(&self) -> (r: vm_exit_paging)
        ensures
            r == self.spec_paging(),
    {
        let s = self.bytes.as_slice();
        vm_exit_paging { gpa: u64_at(s, 0), fault_type: i32_at(s, 8) }
    }

    /// Reads the area as the payload of an instruction to emulate.
    pub fn inst_emul(&self) -> (r: Option<vm_exit_inst_emul>)
        ensures
            r == self.spec_inst_emul(),
    {
        let s = self.bytes.as_slice();
        match self.guest_paging(32) {
            Some(paging) => Some(
                vm_exit_inst_emul {
                    gpa: u64_at(s, 0),
                    gla: u64_at(s, 8),
                    cs_base: u64_at(s, 16),
                    cs_d: i32_at(s, 24),
                    paging,
                },
            ),
            None => None,
        }
    }

    /// Reads the area as an SVM payload.
    pub fn svm(&self) -> (r: vm_exit_svm)
        ensures
            r == self.spec_svm(),
    {
        let s = self.bytes.as_slice();
        vm_exit_svm { exitcode: u64_at(s, 0), exitinfo1: u64_at(s, 8), exitinfo2: u64_at(s, 16) }
    }

    /// Reads the area as the payload of a model-specific register exit.
    pub fn msr(&self) -> (r: vm_exit_msr)
        ensures
            r == self.spec_msr(),
    {
        let s = self.bytes.as_slice();
        vm_exit_msr { code: u32_at(s, 0), wval: u64_at(s, 8) }
    }

    /// Reads the area as the payload of an exit for starting a virtual CPU.
    pub fn spinup_ap(&self) -> (r: vm_exit_spinup_ap)
        ensures
            r == self.spec_spinup_ap(),
    {
        let s = self.bytes.as_slice();
        vm_exit_spinup_ap { vcpu: i32_at(s, 0), rip: u64_at(s, 8) }
    }

    /// Reads the area as a halt payload.
    pub fn hlt(&self) -> (r: vm_exit_hlt)
        ensures
            r == self.spec_hlt(),
    {
        let s = self.bytes.as_slice();
        vm_exit_hlt { rflags: u64_at(s, 0), intr_status: u64_at(s, 8) }
    }

    /// Reads the area as the payload of an end of interrupt.
    pub fn ioapic_eoi(&self) -> (r: vm_exit_ioapic_eoi)
        ensures
            r == self.spec_ioapic_eoi(),
    {
        let s = self.bytes.as_slice();
        vm_exit_ioapic_eoi { vector: i32_at(s, 0) }
    }

    /// Reads the area as the payload of a suspension.
    pub fn suspended(&self) -> (r: Option<vm_exit_suspended>)
        ensures
            r == self.spec_suspended(),
    {
        let s = self.bytes.as_slice();
        match vm_suspend_how::from_code(i32_at(s, 0)) {
            Some(how) => Some(vm_exit_suspended { how }),
            None => None,
        }
    }

    /// Reads the area as a task switch payload.
    pub fn task_switch(&self) -> (r: Option<vm_task_switch>)
        ensures
            r == self.spec_task_switch(),
    {
        let s = self.bytes.as_slice();
        match (task_switch_reason::from_code(i32_at(s, 16)), self.guest_paging(24)) {
            (Some(reason), Some(paging)) => Some(
                vm_task_switch {
                    tsssel: u16_at(s, 0),
                    ext: i32_at(s, 4),
                    errcode: u32_at(s, 8),
                    errcode_valid: i32_at(s, 12),
                    reason,
                    paging,
                },
            ),
            _ => None,
        }
    }
}

/// What a run request brings back: the exit code as the number the peer
/// wrote, the length of the instruction that caused the exit (zero if
/// unknown), the instruction pointer, and the payload area.
#[derive(Clone, Copy, Debug, PartialEq, Eq)]
pub struct vm_exit {
    pub exitcode: i32,
    pub inst_length: i32,
    pub rip: u64,
    pub u: vm_exit_payload,
}

impl Default for vm_exit {
    /// The record as it is before the peer fills it in: a bogus exit with an
    /// empty payload.
    fn default() -> (r: vm_exit)
        ensures
            r.exitcode == vm_exitcode::VM_EXITCODE_BOGUS.spec_code(),
            r.inst_length == 0,
            r.rip == 0,
            r.u.bytes@ == spec_zeros(120),
    {
        vm_exit {
            exitcode: vm_exitcode::VM_EXITCODE_BOGUS.code(),
            inst_length: 0,
            rip: 0,
            u: vm_exit_payload::empty(),
        }
    }
}

} // verus!
