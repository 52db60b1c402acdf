//! Creating and destroying machines.
//!
//! Machines are made and unmade through the control device. Its two
//! requests carry the machine's name as a zero-terminated string.
use vstd::prelude::*;
use vstd::string::StringExecFns;
use vstd::string::StringSliceAdditionalSpecFns;
use crate::channel::{Command, Reply};
use crate::error::Error;
use crate::vm::has_zero_byte;
use crate::vmm_dev::{is_c_string, VMM_CREATE_VM, VMM_DESTROY_VM};
use crate::wire::{put_bytes, put_u8};

verus! {

/// The bytes of a name followed by the zero byte that ends it.
pub open spec fn spec_terminated(name: Seq<u8>) -> Seq<u8> {
    name + seq![0u8]
}

/// The handle of the hypervisor as a whole. It holds no channel: its methods
/// give the commands for whoever holds the open control device.
pub struct VMMSystem {}

impl VMMSystem {
    /// Makes the handle.
    pub fn new() -> VMMSystem {
        VMMSystem {  }
    }

    /// The path of the control device.
    pub fn device_path(&self) -> (r: String)
        ensures
            r@ == "/dev/vmmctl"@,
    {
        String::from_str("/dev/vmmctl")
    }

    /// Whether `made` is what naming a machine under the command word `word`
    /// comes to: for a name without a zero byte, the command that sends the
    /// name and the zero byte that ends it under that word; for a name that
    /// holds a zero byte, `InvalidInput`.
    pub open spec fn spec_names(made: Result<Command, Error>, word: u32, name: Seq<u8>) -> bool {
        if is_c_string(name) {
            made matches Ok(Command::Control { command, record }) && command == word as i32
                && record@ == spec_terminated(name)
        } else {
            made == Err::<Command, Error>(Error::InvalidInput)
        }
    }

    /// The command of a request that names a machine, or `InvalidInput` if
    /// the name holds a zero byte.
    fn named_command(word: u32, name: &str) -> (r: Result<Command, Error>)
        ensures
            VMMSystem::spec_names(r, word, name.spec_bytes()),
    {
        let bytes = name.as_bytes();
        if has_zero_byte(bytes) {
            return Err(Error::InvalidInput);
        }
        let mut record: Vec<u8> = Vec::new();
        put_bytes(&mut record, bytes);
        put_u8(&mut record, 0);
        assert(record@ =~= spec_terminated(name.spec_bytes()));
        Ok(Command::Control { command: word as i32, record })
    }

    /// The command that creates the machine called `name`, whose device
    /// node then appears under `/dev/vmm`. Every name without a zero byte
    /// gives the command; a name with a zero byte fails with `InvalidInput`.
    pub fn create_vm(&self, name: &str) -> (r: Result<Command, Error>)
        ensures
            VMMSystem::spec_names(r, VMM_CREATE_VM, name.spec_bytes()),
    {
        VMMSystem::named_command(VMM_CREATE_VM, name)
    }

    /// The command that destroys the machine called `name`. Every name
    /// without a zero byte gives the command; a name with a zero byte fails
    /// with `InvalidInput`.
    pub fn destroy_vm(&self, name: &str) -> (r: Result<Command, Error>)
        ensures
            VMMSystem::spec_names(r, VMM_DESTROY_VM, name.spec_bytes()),
    {
        VMMSystem::named_command(VMM_DESTROY_VM, name)
    }

    /// What the reply to a command of the control device means: the status
    /// -1 is a failure with the cause reported, and any other status is
    /// handed on.
    pub fn outcome(&self, reply: &Reply) -> (r: Result<i32, Error>)
        ensures
            reply.status == -1 ==> r == Err::<i32, Error>(Error::Channel(reply.errno)),
            reply.status != -1 ==> r == Ok::<i32, Error>(reply.status),
    {
        if reply.status == -1 {
            Err(Error::Channel(reply.errno))
        } else {
            Ok(reply.status)
        }
    }
}

} // verus!
