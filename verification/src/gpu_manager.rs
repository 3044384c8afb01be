//! The device pool: which devices are kept, which one takes the next task,
//! and how much work each one carries.

use vstd::prelude::*;
use crate::device::{
    DeviceDescriptor,
    DeviceLease,
    DeviceState,
    GPUConfig,
    GPUDevice,
    GPUMemoryInfo,
};
use crate::error::SchedulerError;

verus! {

/// The state in which the device at position `position` of an enumeration
/// enters the pool: identified by that position, idle, no memory in use.
pub open spec fn fresh_device(position: int, descriptor: DeviceDescriptor) -> DeviceState {
    DeviceState {
        id: position as u64,
        name: descriptor.name,
        total_memory: descriptor.total_memory,
        used_memory: 0,
        load: 0,
    }
}

/// The devices of `available` whose total memory is at least `min_memory`,
/// in the order of enumeration, each as [`fresh_device`] gives it.
pub open spec fn retained(available: Seq<DeviceDescriptor>, min_memory: u64) -> Seq<DeviceState>
    decreases available.len(),
{
    if available.len() == 0 {
        Seq::empty()
    } else {
        let earlier = retained(available.drop_last(), min_memory);
        if available.last().total_memory >= min_memory {
            earlier.push(fresh_device(available.len() - 1, available.last()))
        } else {
            earlier
        }
    }
}

/// Position `i` holds the least-loaded device, the first such one where
/// several devices share the least load.
pub open spec fn is_least_loaded(devices: Seq<DeviceState>, i: int) -> bool {
    &&& 0 <= i < devices.len()
    &&& forall|j: int| 0 <= j < devices.len() ==> devices[i].load <= (#[trigger] devices[j]).load
    &&& forall|j: int| 0 <= j < i ==> devices[i].load < (#[trigger] devices[j]).load
}

/// An assignment would not run a load counter over: the pool is empty, or
/// some device, and so the least-loaded one, carries less than the largest
/// load that a counter holds.
pub open spec fn has_headroom(devices: Seq<DeviceState>) -> bool {
    devices.len() == 0 || exists|j: int|
        0 <= j < devices.len() && (#[trigger] devices[j]).load < u64::MAX
}

/// The pool after one more unit of work went to the device at `i`.
pub open spec fn assigned(devices: Seq<DeviceState>, i: int) -> Seq<DeviceState> {
    devices.update(i, devices[i].with_load((devices[i].load + 1) as u64))
}

/// The pool after one unit of work left the device at `i`.
pub open spec fn released(devices: Seq<DeviceState>, i: int) -> Seq<DeviceState> {
    devices.update(i, devices[i].with_load((devices[i].load - 1) as u64))
}

/// The lease names a device of the pool, by position and identity, that
/// still carries work.
pub open spec fn lease_is_live(devices: Seq<DeviceState>, lease: DeviceLease) -> bool {
    &&& lease.spec_index() < devices.len()
    &&& devices[lease.spec_index() as int].id == lease.spec_device_id()
    &&& devices[lease.spec_index() as int].load > 0
}

/// The states of a list of devices, in the list's order.
pub open spec fn device_states(devices: Seq<GPUDevice>) -> Seq<DeviceState> {
    Seq::new(devices.len(), |i: int| devices[i]@)
}

/// The memory snapshot of every device, in pool order.
pub open spec fn memory_snapshot(devices: Seq<DeviceState>) -> Seq<GPUMemoryInfo> {
    Seq::new(
        devices.len(),
        |i: int| GPUMemoryInfo { total: devices[i].total_memory, used: devices[i].used_memory },
    )
}

/// The pool of devices that tasks are bound to.
#[derive(Debug)]
pub struct GPUManager {
    devices: Vec<GPUDevice>,
    config: GPUConfig,
}

impl View for GPUManager {
    type V = Seq<DeviceState>;

    closed spec fn view(&self) -> Seq<DeviceState> {
        device_states(self.devices@)
    }
}

impl GPUManager {
    /// The memory threshold that the pool was made with.
    pub closed spec fn spec_min_memory(&self) -> u64 {
        self.config.min_memory
    }

    /// Builds the pool from an enumeration of devices: keeps those with at
    /// least `config.min_memory` bytes, in order, and fails if none is left.
    pub fn new(config: GPUConfig, available: &Vec<DeviceDescriptor>) -> (made: Result<
        GPUManager,
        SchedulerError,
    >)
        ensures
            match made {
                Ok(manager) => {
                    &&& manager@ == retained(available@, config.min_memory)
                    &&& manager@.len() > 0
                    &&& manager.spec_min_memory() == config.min_memory
                },
                Err(e) => {
                    &&& e == SchedulerError::NoDeviceAvailable
                    &&& retained(available@, config.min_memory).len() == 0
                },
            },
    {
        let mut devices: Vec<GPUDevice> = Vec::new();
        let mut k: usize = 0;
        while k < available.len()
            invariant
                k <= available.len(),
                device_states(devices@) == retained(available@.take(k as int), config.min_memory),
            decreases available.len() - k,
        {
            let ghost before = device_states(devices@);
            proof {
                assert(available@.take(k + 1).drop_last() == available@.take(k as int));
            }
            if available[k].total_memory >= config.min_memory {
                let device = GPUDevice::new(
                    k as u64,
                    available[k].name.clone(),
                    available[k].total_memory,
                    0,
                );
                devices.push(device);
                proof {
                    assert(device_states(devices@) == before.push(
                        fresh_device(k as int, available@[k as int]),
                    ));
                }
            }
            k = k + 1;
        }
        proof {
            assert(available@.take(k as int) == available@);
        }
        if devices.len() == 0 {
            Err(SchedulerError::NoDeviceAvailable)
        } else {
            Ok(GPUManager { devices, config })
        }
    }

    /// A pool of the given devices, as they are.
    pub fn from_devices(config: GPUConfig, devices: Vec<GPUDevice>) -> (manager: GPUManager)
        ensures
            manager@ == device_states(devices@),
            manager.spec_min_memory() == config.min_memory,
    {
        GPUManager { devices, config }
    }

    /// The memory threshold that the pool was made with.
    #[verifier::when_used_as_spec(spec_min_memory)]
    pub fn min_memory(&self) -> (min_memory: u64)
        ensures
            min_memory == self.spec_min_memory(),
    {
        self.config.min_memory
    }

    /// The number of devices in the pool.
    pub fn device_count(&self) -> (count: usize)
        ensures
            count == self@.len(),
    {
        self.devices.len()
    }

    /// The device at `index`, if the pool has that many.
    pub fn device(&self, index: usize) -> (found: Option<&GPUDevice>)
        ensures
            match found {
                Some(device) => index < self@.len() && device@ == self@[index as int],
                None => index >= self@.len(),
            },
    {
        if index < self.devices.len() {
            Some(&self.devices[index])
        } else {
            None
        }
    }

    /// Whether [`GPUManager::select_available_device`] may be called: the
    /// pool is empty or some device can take one more unit of load.
    pub fn can_assign(&self) -> (answer: bool)
        ensures
            answer == has_headroom(self@),
    {
        if self.devices.len() == 0 {
            return true;
        }
        let mut k: usize = 0;
        while k < self.devices.len()
            invariant
                k <= self.devices@.len(),
                forall|j: int| 0 <= j < k ==> (#[trigger] self@[j]).load == u64::MAX,
            decreases self.devices.len() - k,
        {
            if self.devices[k].current_load() < u64::MAX {
                assert(self@[k as int].load < u64::MAX);
                return true;
            }
            k = k + 1;
        }
        false
    }

    /// The position of the least-loaded device, the first of them where
    /// several share the least load; `None` exactly for an empty pool.
    /// Nothing changes.
    pub(crate) fn least_loaded_position(&self) -> (choice: Option<usize>)
        ensures
            match choice {
                Some(i) => is_least_loaded(self@, i as int),
                None => self@.len() == 0,
            },
    {
        if self.devices.len() == 0 {
            return None;
        }
        let mut best: usize = 0;
        let mut best_load: u64 = self.devices[0].current_load();
        let mut k: usize = 1;
        while k < self.devices.len()
            invariant
                1 <= k <= self.devices@.len(),
                best < k,
                best_load == self@[best as int].load,
                forall|j: int| 0 <= j < k ==> best_load <= (#[trigger] self@[j]).load,
                forall|j: int| 0 <= j < best ==> best_load < (#[trigger] self@[j]).load,
            decreases self.devices.len() - k,
        {
            let load: u64 = self.devices[k].current_load();
            if load < best_load {
                best = k;
                best_load = load;
            }
            k = k + 1;
        }
        Some(best)
    }

    /// Selects the least-loaded device, the first of them where several
    /// share the least load, raises its load by one and hands out the lease
    /// on it. Every other device, and the order of the pool, stay as they
    /// are. `None`, with nothing changed, exactly for an empty pool.
    pub fn select_available_device(&mut self) -> (selected: Option<DeviceLease>)
        requires
            has_headroom(old(self)@),
        ensures
            final(self).spec_min_memory() == old(self).spec_min_memory(),
            match selected {
                Some(lease) => {
                    &&& is_least_loaded(old(self)@, lease.spec_index() as int)
                    &&& lease.spec_device_id() == old(self)@[lease.spec_index() as int].id
                    &&& final(self)@ == assigned(old(self)@, lease.spec_index() as int)
                },
                None => old(self)@.len() == 0 && final(self)@ == old(self)@,
            },
    {
        match self.least_loaded_position() {
            None => None,
            Some(i) => {
                let id: u64 = self.devices[i].id();
                let load: u64 = self.devices[i].current_load();
                assert(self@[i as int].load == load);
                assert(load < u64::MAX) by {
                    let j = choose|j: int|
                        0 <= j < self@.len() && (#[trigger] self@[j]).load < u64::MAX;
                    assert(self@[i as int].load <= self@[j].load);
                }
                self.devices[i].set_load(load + 1);
                assert(self@ == assigned(old(self)@, i as int));
                Some(DeviceLease::new(i, id))
            },
        }
    }

    /// Binds the next task to a device, as
    /// [`GPUManager::select_available_device`] does, and answers an empty
    /// pool with `NoDeviceAvailable`.
    pub fn acquire_gpu(&mut self) -> (lease: Result<DeviceLease, SchedulerError>)
        requires
            has_headroom(old(self)@),
        ensures
            final(self).spec_min_memory() == old(self).spec_min_memory(),
            match lease {
                Ok(lease) => {
                    &&& is_least_loaded(old(self)@, lease.spec_index() as int)
                    &&& lease.spec_device_id() == old(self)@[lease.spec_index() as int].id
                    &&& final(self)@ == assigned(old(self)@, lease.spec_index() as int)
                },
                Err(e) => {
                    &&& e == SchedulerError::NoDeviceAvailable
                    &&& old(self)@.len() == 0
                    &&& final(self)@ == old(self)@
                },
            },
    {
        match self.select_available_device() {
            Some(lease) => Ok(lease),
            None => Err(SchedulerError::NoDeviceAvailable),
        }
    }

    /// Takes back a lease: lowers the leased device's load by one. A lease
    /// that names no device of this pool, or a device that carries no work,
    /// changes nothing and is answered with `false`.
    pub fn release_gpu(&mut self, lease: DeviceLease) -> (done: bool)
        ensures
            final(self).spec_min_memory() == old(self).spec_min_memory(),
            done == lease_is_live(old(self)@, lease),
            done ==> final(self)@ == released(old(self)@, lease.spec_index() as int),
            !done ==> final(self)@ == old(self)@,
    {
        let i: usize = lease.index();
        if i >= self.devices.len() {
            return false;
        }
        let load: u64 = self.devices[i].current_load();
        assert(self@[i as int].load == load);
        if self.devices[i].id() != lease.device_id() || load == 0 {
            return false;
        }
        self.devices[i].set_load(load - 1);
        assert(self@ == released(old(self)@, i as int));
        true
    }

    /// Records how much memory the device at `index` has in use. An index
    /// beyond the pool, or a value above the device's total, changes nothing
    /// and is answered with `false`.
    pub fn record_memory_usage(&mut self, index: usize, used_memory: u64) -> (accepted: bool)
        ensures
            final(self).spec_min_memory() == old(self).spec_min_memory(),
            accepted == (index < old(self)@.len() && used_memory <= old(
                self,
            )@[index as int].total_memory),
            accepted ==> final(self)@ == old(self)@.update(
                index as int,
                old(self)@[index as int].with_used_memory(used_memory),
            ),
            !accepted ==> final(self)@ == old(self)@,
    {
        if index >= self.devices.len() {
            return false;
        }
        assert(self@[index as int] == self.devices@[index as int]@);
        let accepted = self.devices[index].set_used_memory(used_memory);
        if accepted {
            assert(self@ == old(self)@.update(
                index as int,
                old(self)@[index as int].with_used_memory(used_memory),
            ));
        } else {
            assert(self@ == old(self)@);
        }
        accepted
    }

    /// The memory snapshot of every device, in pool order. In every entry
    /// `used` is at most `total`.
    pub fn get_gpu_stats(&self) -> (stats: Vec<GPUMemoryInfo>)
        ensures
            stats@ == memory_snapshot(self@),
            forall|i: int| 0 <= i < stats@.len() ==> (#[trigger] stats@[i]).used <= stats@[i].total,
    {
        let mut stats: Vec<GPUMemoryInfo> = Vec::new();
        let mut k: usize = 0;
        while k < self.devices.len()
            invariant
                k <= self.devices@.len(),
                stats@.len() == k,
                forall|i: int| 0 <= i < k ==> (#[trigger] stats@[i]) == memory_snapshot(self@)[i],
                forall|i: int| 0 <= i < k ==> (#[trigger] stats@[i]).used <= stats@[i].total,
            decreases self.devices.len() - k,
        {
            let info = self.devices[k].memory_info();
            assert(self@[k as int] == self.devices@[k as int]@);
            stats.push(info);
            k = k + 1;
        }
        assert(stats@ == memory_snapshot(self@));
        stats
    }
}

/// Selection is determined by the loads: at most one position of a pool is
/// its least-loaded one.
pub proof fn lemma_selection_is_deterministic(devices: Seq<DeviceState>, i: int, j: int)
    requires
        is_least_loaded(devices, i),
        is_least_loaded(devices, j),
    ensures
        i == j,
{
    if i < j {
        assert(devices[j].load < devices[i].load);
        assert(devices[i].load <= devices[j].load);
    } else if j < i {
        assert(devices[i].load < devices[j].load);
        assert(devices[j].load <= devices[i].load);
    }
}

/// A pool that is not empty has a least-loaded position.
pub proof fn lemma_selection_exists(devices: Seq<DeviceState>) -> (i: int)
    requires
        devices.len() > 0,
    ensures
        is_least_loaded(devices, i),
    decreases devices.len(),
{
    if devices.len() == 1 {
        0
    } else {
        let shorter = devices.drop_last();
        let last = devices.len() - 1;
        let best = lemma_selection_exists(shorter);
        assert(forall|j: int| 0 <= j < shorter.len() ==> shorter[j] == devices[j]);
        let chosen = if devices[last].load < devices[best].load {
            last
        } else {
            best
        };
        assert forall|j: int| 0 <= j < devices.len() implies devices[chosen].load
            <= (#[trigger] devices[j]).load by {
            if j < last {
                assert(shorter[best].load <= shorter[j].load);
            }
        }
        assert forall|j: int| 0 <= j < chosen implies devices[chosen].load
            < (#[trigger] devices[j]).load by {
            assert(shorter[best].load <= shorter[j].load);
            if chosen == best {
                assert(shorter[best].load < shorter[j].load);
            }
        }
        chosen
    }
}

/// Giving a unit of work to a device and taking it back leaves the whole
/// pool as it was before the assignment.
pub proof fn lemma_release_restores_pool(devices: Seq<DeviceState>, i: int)
    requires
        0 <= i < devices.len(),
        devices[i].load < u64::MAX,
    ensures
        released(assigned(devices, i), i) == devices,
{
    assert(released(assigned(devices, i), i) =~= devices);
}

/// Selection touches one device: the chosen one carries one unit of load
/// more and is otherwise as it was, every other device is untouched, and
/// the pool keeps its devices and their order.
pub proof fn lemma_selection_touches_one_device(devices: Seq<DeviceState>, i: int, j: int)
    requires
        0 <= i < devices.len(),
        0 <= j < devices.len(),
        devices[i].load < u64::MAX,
    ensures
        assigned(devices, i).len() == devices.len(),
        j != i ==> assigned(devices, i)[j] == devices[j],
        assigned(devices, i)[i].load == devices[i].load + 1,
        assigned(devices, i)[i].id == devices[i].id,
        assigned(devices, i)[i].name == devices[i].name,
        assigned(devices, i)[i].total_memory == devices[i].total_memory,
        assigned(devices, i)[i].used_memory == devices[i].used_memory,
{
}

/// Assignments and releases on other devices do not disturb a device's
/// load: after a release the load of the leased device is one less than
/// before it, and every other device is untouched.
pub proof fn lemma_release_touches_one_device(devices: Seq<DeviceState>, i: int, j: int)
    requires
        0 <= i < devices.len(),
        0 <= j < devices.len(),
        devices[i].load > 0,
    ensures
        released(devices, i).len() == devices.len(),
        j != i ==> released(devices, i)[j] == devices[j],
        released(devices, i)[i].load == devices[i].load - 1,
{
}

/// What enumeration keeps: every kept device has at least `min_memory`
/// bytes, is idle and carries the position of its descriptor as identity;
/// identities rise along the pool; and every descriptor with at least
/// `min_memory` bytes is kept.
pub proof fn lemma_retained_exactly_the_large(available: Seq<DeviceDescriptor>, min_memory: u64)
    requires
        available.len() <= u64::MAX,
    ensures
        retained(available, min_memory).len() <= available.len(),
        forall|i: int|
            0 <= i < retained(available, min_memory).len() ==> {
                let kept = #[trigger] retained(available, min_memory)[i];
                &&& kept.id < available.len()
                &&& kept == fresh_device(kept.id as int, available[kept.id as int])
                &&& kept.total_memory >= min_memory
            },
        forall|i: int, j: int|
            0 <= i < j < retained(available, min_memory).len() ==> (#[trigger] retained(
                available,
                min_memory,
            )[i]).id < (#[trigger] retained(available, min_memory)[j]).id,
        forall|k: int|
            0 <= k < available.len() && (#[trigger] available[k]).total_memory >= min_memory
                ==> exists|i: int|
                0 <= i < retained(available, min_memory).len() && (#[trigger] retained(
                    available,
                    min_memory,
                )[i]).id == k,
    decreases available.len(),
{
    if available.len() > 0 {
        let shorter = available.drop_last();
        let last = available.len() - 1;
        lemma_retained_exactly_the_large(shorter, min_memory);
        let earlier = retained(shorter, min_memory);
        let all = retained(available, min_memory);
        assert(forall|k: int| 0 <= k < shorter.len() ==> shorter[k] == available[k]);
        assert forall|k: int|
            0 <= k < available.len() && (#[trigger] available[k]).total_memory
                >= min_memory implies exists|i: int|
            0 <= i < all.len() && (#[trigger] all[i]).id == k by {
            if k < last {
                assert(shorter[k].total_memory >= min_memory);
                let i = choose|i: int| 0 <= i < earlier.len() && (#[trigger] earlier[i]).id == k;
                assert(all[i].id == k);
            } else {
                assert(all[all.len() - 1].id == k);
            }
        }
    }
}

} // verus!
