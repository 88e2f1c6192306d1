//! Values handed out to callers: a VM's observed state, the hypervisor's
//! identity, and the outcome of a lifecycle request.
use vstd::prelude::*;

verus! {

/// A point-in-time view of one domain as the hypervisor reports it.
#[derive(Debug)]
pub struct VirtualMachines {
    pub name: String,
    /// The coarse lifecycle state code and the hypervisor's reason code.
    pub state: (u32, i32),
    pub memory: u64,
    /// The configured maximum of virtual CPUs, reported only while running.
    pub vcpu: u64,
    pub autostart: bool,
    pub os_type: String,
}

/// The hypervisor's type and its version as `major.minor.release`.
#[derive(Debug)]
pub struct HyperVisorInfo {
    pub hypervisor: String,
    pub version: String,
}

/// The outcome of a lifecycle request: a message is present exactly on failure.
#[derive(Debug)]
pub struct KVMInfo {
    pub success: bool,
    pub message: Option<String>,
}

impl KVMInfo {
    /// A well-formed outcome carries a message if and only if it failed.
    pub open spec fn wf(&self) -> bool {
        self.success <==> self.message.is_none()
    }
}

} // verus!
