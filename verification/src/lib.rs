//! A control layer for the bhyve hypervisor that performs no input or output.
//!
//! The hypervisor is reached through two device nodes that take fixed-size
//! request records. This library decides everything that happens on that
//! channel: which request is sent, what its record holds byte for byte, how
//! the reply is read, and what follows from it. Sending is left to the caller.
//! A call such as [`vm::VirtualMachine::alloc_memseg`] returns an
//! [`operation::Operation`]: the caller sends the request the operation asks
//! for, hands the reply back, and repeats until the operation has finished.
//!
//! Since an operation never touches the channel, what it does is a function
//! of the replies alone, and that function is what the contracts state. What
//! the operations achieve on a hypervisor that keeps its segments, mappings
//! and registers as its interface says is proved in [`model`]: allocating
//! and mapping can be repeated without harm, a conflicting request is turned
//! down and changes nothing, a reset leaves the power-up state.
//!
//! The modules, leaves first:
//! - [`error`]: the failures an operation can end in;
//! - [`wire`]: integers in a byte record;
//! - [`host`]: the mapping flags of the host platform;
//! - [`vmm`]: the enumerations of the interface and the exit record;
//! - [`vmm_dev`]: the request records and the command words;
//! - [`layout`]: the bytes of the records;
//! - [`operation`]: requests, answers and the stages of an operation;
//! - [`channel`]: commands and replies, and how a reply is read;
//! - [`vm`]: the handle of one machine and its operations;
//! - [`system`]: creating and destroying machines;
//! - [`model`]: what the hypervisor keeps, and the laws the operations obey.
#![allow(non_camel_case_types)]
#![allow(non_snake_case)]

pub mod error;
pub mod specialreg;
pub mod wire;
pub mod host;
pub mod vmm;
pub mod vmm_dev;
pub mod layout;
pub mod operation;
pub mod channel;
pub mod vm;
pub mod system;
pub mod model;
