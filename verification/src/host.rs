//! What the library takes from the host's C library.
//!
//! A guest mapping carries protection bits, and a mapping into the
//! controlling process carries protection bits and mapping flags. Their
//! values belong to the platform, so they are read from `libc` once, when a
//! handle is made, and kept in a [`HostFlags`].
use vstd::prelude::*;

verus! {

/// `libc::PROT_READ`: the protection bit for pages that may be read. Nothing
/// is claimed of its value, which differs between platforms.
#[verifier::external_body]
fn prot_read() -> (r: i32) {
    libc::PROT_READ
}

/// `libc::PROT_WRITE`: the protection bit for pages that may be written.
/// Nothing is claimed of its value.
#[verifier::external_body]
fn prot_write() -> (r: i32) {
    libc::PROT_WRITE
}

/// `libc::PROT_EXEC`: the protection bit for pages that may be executed.
/// Nothing is claimed of its value.
#[verifier::external_body]
fn prot_exec() -> (r: i32) {
    libc::PROT_EXEC
}

/// `libc::MAP_SHARED`: the flag for a mapping whose changes are shared.
/// Nothing is claimed of its value.
#[verifier::external_body]
fn map_shared() -> (r: i32) {
    libc::MAP_SHARED
}

/// `libc::MAP_FIXED`: the flag for a mapping placed exactly at the address
/// given. Nothing is claimed of its value.
#[verifier::external_body]
fn map_fixed() -> (r: i32) {
    libc::MAP_FIXED
}

/// The protection bits and mapping flags of the host platform.
#[derive(Clone, Copy, Debug, PartialEq, Eq, Structural)]
pub struct HostFlags {
    pub prot_read: i32,
    pub prot_write: i32,
    pub prot_exec: i32,
    pub map_shared: i32,
    pub map_fixed: i32,
}

impl HostFlags {
    /// The flags of the platform that the library was built for.
    pub fn current() -> HostFlags {
        HostFlags {
            prot_read: prot_read(),
            prot_write: prot_write(),
            prot_exec: prot_exec(),
            map_shared: map_shared(),
            map_fixed: map_fixed(),
        }
    }

    /// Protection of guest memory: read, write and execute.
    pub open spec fn spec_guest_memory_prot(self) -> i32 {
        self.prot_read | self.prot_write | self.prot_exec
    }

    /// Protection of the boot ROM in the guest: read and execute.
    pub open spec fn spec_bootrom_prot(self) -> i32 {
        self.prot_read | self.prot_exec
    }

    /// Protection of a mapping into the controlling process: read and write.
    pub open spec fn spec_host_prot(self) -> i32 {
        self.prot_read | self.prot_write
    }

    /// Flags of a mapping into the controlling process: shared, and placed
    /// exactly at the address given.
    pub open spec fn spec_host_flags(self) -> i32 {
        self.map_shared | self.map_fixed
    }

    /// Protection of guest memory: read, write and execute.
    pub fn guest_memory_prot(&self) -> (r: i32)
        ensures
            r == self.spec_guest_memory_prot(),
    {
        self.prot_read | self.prot_write | self.prot_exec
    }

    /// Protection of the boot ROM in the guest: read and execute.
    pub fn bootrom_prot(&self) -> (r: i32)
        ensures
            r == self.spec_bootrom_prot(),
    {
        self.prot_read | self.prot_exec
    }

    /// Protection of a mapping into the controlling process: read and write.
    pub fn host_prot(&self) -> (r: i32)
        ensures
            r == self.spec_host_prot(),
    {
        self.prot_read | self.prot_write
    }

    /// Flags of a mapping into the controlling process: shared and fixed.
    pub fn host_flags(&self) -> (r: i32)
        ensures
            r == self.spec_host_flags(),
    {
        self.map_shared | self.map_fixed
    }
}

} // verus!
