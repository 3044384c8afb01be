//! Accelerator devices as the scheduler sees them.

use vstd::prelude::*;

verus! {

/// What device enumeration reports of one device.
#[derive(Clone, Debug, PartialEq, Eq)]
pub struct DeviceDescriptor {
    pub name: String,
    pub total_memory: u64,
}

/// The configuration of the device pool.
#[derive(Clone, Copy, Debug)]
pub struct GPUConfig {
    /// Devices with less total memory than this, in bytes, are left out.
    pub min_memory: u64,
}

/// A snapshot of one device's memory, in bytes.
#[derive(Clone, Copy, Debug, PartialEq, Eq, Structural)]
pub struct GPUMemoryInfo {
    pub total: u64,
    pub used: u64,
}

/// The mathematical content of a [`GPUDevice`].
pub struct DeviceState {
    pub id: u64,
    pub name: String,
    pub total_memory: u64,
    pub used_memory: u64,
    pub load: u64,
}

impl DeviceState {
    /// The state with its load replaced.
    pub open spec fn with_load(self, load: u64) -> DeviceState {
        DeviceState { load, ..self }
    }

    /// The state with its used memory replaced.
    pub open spec fn with_used_memory(self, used_memory: u64) -> DeviceState {
        DeviceState { used_memory, ..self }
    }
}

/// A device of the pool. Its used memory never exceeds its total memory.
#[derive(Debug, PartialEq, Eq)]
pub struct GPUDevice {
    id: u64,
    name: String,
    total_memory: u64,
    used_memory: u64,
    load: u64,
}

impl View for GPUDevice {
    type V = DeviceState;

    closed spec fn view(&self) -> DeviceState {
        DeviceState {
            id: self.id,
            name: self.name,
            total_memory: self.total_memory,
            used_memory: self.used_memory,
            load: self.load,
        }
    }
}

impl GPUDevice {
    #[verifier::type_invariant]
    spec fn memory_within_total(self) -> bool {
        self.used_memory <= self.total_memory
    }

    /// A device with no memory in use.
    pub fn new(id: u64, name: String, total_memory: u64, load: u64) -> (device: GPUDevice)
        ensures
            device@ == (DeviceState { id, name, total_memory, used_memory: 0, load }),
    {
        GPUDevice { id, name, total_memory, used_memory: 0, load }
    }

    /// The device's identity.
    pub fn id(&self) -> (id: u64)
        ensures
            id == self@.id,
    {
        self.id
    }

    /// The device's human-readable name.
    pub fn name(&self) -> (name: &String)
        ensures
            *name == self@.name,
    {
        &self.name
    }

    /// Total memory, in bytes.
    pub fn memory(&self) -> (total: u64)
        ensures
            total == self@.total_memory,
    {
        self.total_memory
    }

    /// The amount of work currently assigned to the device.
    pub fn current_load(&self) -> (load: u64)
        ensures
            load == self@.load,
    {
        self.load
    }

    /// The device's memory snapshot; `used` is at most `total`.
    pub fn memory_info(&self) -> (info: GPUMemoryInfo)
        ensures
            info.total == self@.total_memory,
            info.used == self@.used_memory,
            info.used <= info.total,
    {
        proof {
            use_type_invariant(self);
        }
        GPUMemoryInfo { total: self.total_memory, used: self.used_memory }
    }

    /// Sets the load, leaving everything else as it was.
    pub(crate) fn set_load(&mut self, load: u64)
        ensures
            final(self)@ == old(self)@.with_load(load),
    {
        proof {
            use_type_invariant(&*self);
        }
        self.load = load;
    }

    /// Records how much memory is in use. A value above the total is
    /// refused and leaves the device as it was.
    pub fn set_used_memory(&mut self, used_memory: u64) -> (accepted: bool)
        ensures
            accepted == (used_memory <= old(self)@.total_memory),
            accepted ==> final(self)@ == old(self)@.with_used_memory(used_memory),
            !accepted ==> final(self)@ == old(self)@,
    {
        if used_memory <= self.total_memory {
            self.used_memory = used_memory;
            true
        } else {
            false
        }
    }
}

/// The right to run one task on one device, obtained from
/// [`crate::gpu_manager::GPUManager::select_available_device`] and given back to
/// [`crate::gpu_manager::GPUManager::release_gpu`]. It can be neither copied
/// nor made by hand, so each acquisition is released at most once.
#[derive(Debug, PartialEq, Eq)]
pub struct DeviceLease {
    index: usize,
    device_id: u64,
}

impl DeviceLease {
    /// The position of the leased device in the pool.
    pub closed spec fn spec_index(&self) -> usize {
        self.index
    }

    /// The identity of the leased device.
    pub closed spec fn spec_device_id(&self) -> u64 {
        self.device_id
    }

    pub(crate) fn new(index: usize, device_id: u64) -> (lease: DeviceLease)
        ensures
            lease.spec_index() == index,
            lease.spec_device_id() == device_id,
    {
        DeviceLease { index, device_id }
    }

    /// The position of the leased device in the pool.
    #[verifier::when_used_as_spec(spec_index)]
    pub fn index(&self) -> (index: usize)
        ensures
            index == self.spec_index(),
    {
        self.index
    }

    /// The identity of the leased device.
    #[verifier::when_used_as_spec(spec_device_id)]
    pub fn device_id(&self) -> (id: u64)
        ensures
            id == self.spec_device_id(),
    {
        self.device_id
    }
}

} // verus!
