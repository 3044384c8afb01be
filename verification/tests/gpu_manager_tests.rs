use omnitensor_node::device::{DeviceDescriptor, GPUConfig, GPUDevice, GPUMemoryInfo};
use omnitensor_node::error::SchedulerError;
use omnitensor_node::gpu_manager::GPUManager;

const GIB: u64 = 1024 * 1024 * 1024;

fn descriptor(name: &str, total_memory: u64) -> DeviceDescriptor {
    DeviceDescriptor { name: name.to_string(), total_memory }
}

fn enumerated() -> Vec<DeviceDescriptor> {
    vec![descriptor("gpu0", 8 * GIB), descriptor("gpu1", 16 * GIB)]
}

#[test]
fn test_gpu_manager_initialization() {
    let config = GPUConfig { min_memory: 4 * 1024 * 1024 * 1024 };
    let manager = GPUManager::new(config, &enumerated()).expect("Failed to initialize GPUManager");

    let stats = manager.get_gpu_stats();
    assert!(!stats.is_empty(), "No GPU devices initialized");
}

#[test]
fn test_gpu_stats() {
    let config = GPUConfig { min_memory: 4 * 1024 * 1024 * 1024 };
    let manager = GPUManager::new(config, &enumerated()).expect("Failed to initialize GPUManager");

    let stats = manager.get_gpu_stats();
    assert!(!stats.is_empty(), "No GPU stats available");

    for stat in stats {
        assert!(stat.total > 0, "Invalid total memory");
        assert!(stat.used <= stat.total, "Used memory exceeds total memory");
    }
}

#[test]
fn initialization_keeps_only_devices_with_enough_memory() {
    let config = GPUConfig { min_memory: 4 * GIB };
    let available = vec![descriptor("small", 2 * GIB), descriptor("large", 8 * GIB)];
    let manager = GPUManager::new(config, &available).expect("one device is large enough");

    assert_eq!(manager.device_count(), 1);
    let kept = manager.device(0).expect("the pool has one device");
    assert_eq!(kept.id(), 1);
    assert_eq!(kept.name(), "large");
    assert_eq!(kept.memory(), 8 * GIB);
    assert_eq!(kept.current_load(), 0);
    assert_eq!(kept.memory_info(), GPUMemoryInfo { total: 8 * GIB, used: 0 });
    assert!(manager.device(1).is_none());
    assert_eq!(manager.min_memory(), 4 * GIB);
}

#[test]
fn initialization_fails_when_no_device_has_enough_memory() {
    let config = GPUConfig { min_memory: 4 * GIB };
    let available = vec![descriptor("a", 2 * GIB), descriptor("b", 3 * GIB)];
    assert_eq!(GPUManager::new(config, &available).err(), Some(SchedulerError::NoDeviceAvailable));
}

#[test]
fn initialization_fails_on_an_empty_enumeration() {
    let config = GPUConfig { min_memory: 0 };
    assert_eq!(GPUManager::new(config, &vec![]).err(), Some(SchedulerError::NoDeviceAvailable));
}

#[test]
fn initialization_keeps_a_device_exactly_at_the_threshold() {
    let config = GPUConfig { min_memory: 4 * GIB };
    let available = vec![
        descriptor("below", 4 * GIB - 1),
        descriptor("at", 4 * GIB),
        descriptor("above", 4 * GIB + 1),
    ];
    let manager = GPUManager::new(config, &available).expect("two devices qualify");
    assert_eq!(manager.device_count(), 2);
    assert_eq!(manager.device(0).unwrap().id(), 1);
    assert_eq!(manager.device(0).unwrap().name(), "at");
    assert_eq!(manager.device(1).unwrap().id(), 2);
    assert_eq!(manager.device(1).unwrap().name(), "above");
}

fn pool_with_loads(loads: &[(u64, u64)]) -> GPUManager {
    let mut devices = Vec::new();
    for (id, load) in loads {
        devices.push(GPUDevice::new(*id, format!("gpu{}", id), 8 * GIB, *load));
    }
    GPUManager::from_devices(GPUConfig { min_memory: 0 }, devices)
}

#[test]
fn selection_returns_the_least_loaded_device() {
    let mut manager = pool_with_loads(&[(1, 2), (2, 5)]);
    let lease = manager.select_available_device().expect("the pool is not empty");
    assert_eq!(lease.device_id(), 1);
    assert_eq!(lease.index(), 0);
}

#[test]
fn selection_raises_the_load_of_the_chosen_device_only() {
    let mut manager = pool_with_loads(&[(1, 2), (2, 5), (3, 4)]);
    let lease = manager.select_available_device().unwrap();
    assert_eq!(lease.index(), 0);
    assert_eq!(manager.device_count(), 3);
    assert_eq!(manager.device(0).unwrap().current_load(), 3);
    assert_eq!(manager.device(1).unwrap().current_load(), 5);
    assert_eq!(manager.device(2).unwrap().current_load(), 4);
    assert_eq!(manager.device(0).unwrap().id(), 1);
    assert_eq!(manager.device(1).unwrap().id(), 2);
    assert_eq!(manager.device(2).unwrap().id(), 3);
}

#[test]
fn acquisition_is_selection_with_an_error_for_the_empty_pool() {
    let mut manager = pool_with_loads(&[(1, 2), (2, 5)]);
    let lease = manager.acquire_gpu().expect("the pool is not empty");
    assert_eq!(lease.device_id(), 1);
    assert_eq!(lease.index(), 0);
    assert_eq!(manager.device(0).unwrap().current_load(), 3);
    assert_eq!(manager.device(1).unwrap().current_load(), 5);
}

#[test]
fn selection_is_the_same_for_the_same_loads() {
    let mut first = pool_with_loads(&[(1, 2), (2, 5), (3, 2)]);
    let mut second = pool_with_loads(&[(1, 2), (2, 5), (3, 2)]);
    let a = first.select_available_device().unwrap();
    let b = second.select_available_device().unwrap();
    assert_eq!(a, b);
    assert_eq!((a.index(), a.device_id()), (0, 1));
}

#[test]
fn selection_breaks_ties_by_pool_order() {
    let mut manager = pool_with_loads(&[(7, 4), (8, 1), (9, 1), (10, 3)]);
    let lease = manager.select_available_device().unwrap();
    assert_eq!((lease.index(), lease.device_id()), (1, 8));
    // The first of the two now carries more, so the second is next.
    let next = manager.select_available_device().unwrap();
    assert_eq!((next.index(), next.device_id()), (2, 9));
}

#[test]
fn selection_finds_a_minimum_at_the_end() {
    let mut manager = pool_with_loads(&[(1, 4), (2, 3), (3, 2)]);
    let lease = manager.select_available_device().unwrap();
    assert_eq!((lease.index(), lease.device_id()), (2, 3));
    assert_eq!(manager.device(2).unwrap().current_load(), 3);
}

#[test]
fn selection_on_an_empty_pool_gives_nothing() {
    let mut manager = pool_with_loads(&[]);
    assert_eq!(manager.select_available_device(), None);
    assert_eq!(manager.acquire_gpu(), Err(SchedulerError::NoDeviceAvailable));
    assert_eq!(manager.device_count(), 0);
}

#[test]
fn acquisitions_spread_over_the_pool() {
    let mut manager = pool_with_loads(&[(0, 0), (1, 0), (2, 0)]);
    let a = manager.acquire_gpu().unwrap();
    let b = manager.acquire_gpu().unwrap();
    let c = manager.acquire_gpu().unwrap();
    let d = manager.acquire_gpu().unwrap();
    assert_eq!((a.device_id(), b.device_id(), c.device_id(), d.device_id()), (0, 1, 2, 0));
    assert_eq!(manager.device(0).unwrap().current_load(), 2);
    assert_eq!(manager.device(1).unwrap().current_load(), 1);
    assert_eq!(manager.device(2).unwrap().current_load(), 1);
}

#[test]
fn release_returns_the_load_to_its_value_before_the_assignment() {
    let mut manager = pool_with_loads(&[(1, 2), (2, 5)]);
    let lease = manager.acquire_gpu().unwrap();
    assert_eq!(manager.device(0).unwrap().current_load(), 3);
    assert!(manager.release_gpu(lease));
    assert_eq!(manager.device(0).unwrap().current_load(), 2);
    assert_eq!(manager.device(1).unwrap().current_load(), 5);
}

#[test]
fn release_of_a_lease_from_another_pool_changes_nothing() {
    let mut other = pool_with_loads(&[(40, 0), (41, 0), (42, 0)]);
    other.acquire_gpu().unwrap();
    other.acquire_gpu().unwrap();
    let foreign = other.acquire_gpu().unwrap();
    assert_eq!(foreign.index(), 2);

    let mut manager = pool_with_loads(&[(1, 2), (2, 5)]);
    assert!(!manager.release_gpu(foreign));
    assert_eq!(manager.device(0).unwrap().current_load(), 2);
    assert_eq!(manager.device(1).unwrap().current_load(), 5);

    let mut same_size = pool_with_loads(&[(50, 0)]);
    let wrong_id = same_size.acquire_gpu().unwrap();
    let mut target = pool_with_loads(&[(60, 3)]);
    assert!(!target.release_gpu(wrong_id));
    assert_eq!(target.device(0).unwrap().current_load(), 3);
}

#[test]
fn release_on_an_idle_device_changes_nothing() {
    let mut source = pool_with_loads(&[(1, 0)]);
    let lease = source.acquire_gpu().unwrap();
    let mut idle = pool_with_loads(&[(1, 0)]);
    assert!(!idle.release_gpu(lease));
    assert_eq!(idle.device(0).unwrap().current_load(), 0);
}

#[test]
fn headroom_is_lost_at_the_largest_load() {
    assert!(pool_with_loads(&[(1, u64::MAX), (2, u64::MAX - 1)]).can_assign());
    assert!(pool_with_loads(&[(1, 0), (2, u64::MAX)]).can_assign());
    assert!(!pool_with_loads(&[(1, u64::MAX), (2, u64::MAX)]).can_assign());
    assert!(pool_with_loads(&[]).can_assign());

    let mut nearly_full = pool_with_loads(&[(1, u64::MAX), (2, u64::MAX - 1)]);
    let lease = nearly_full.acquire_gpu().unwrap();
    assert_eq!(lease.device_id(), 2);
    assert_eq!(nearly_full.device(1).unwrap().current_load(), u64::MAX);
    assert!(!nearly_full.can_assign());
}

#[test]
fn memory_usage_is_recorded_within_the_total() {
    let mut manager = pool_with_loads(&[(1, 0), (2, 0)]);
    assert!(manager.record_memory_usage(1, 3 * GIB));
    assert!(manager.record_memory_usage(0, 8 * GIB));
    assert_eq!(
        manager.get_gpu_stats(),
        vec![
            GPUMemoryInfo { total: 8 * GIB, used: 8 * GIB },
            GPUMemoryInfo { total: 8 * GIB, used: 3 * GIB },
        ]
    );
    assert!(!manager.record_memory_usage(1, 8 * GIB + 1));
    assert!(!manager.record_memory_usage(2, 0));
    assert_eq!(manager.get_gpu_stats()[1], GPUMemoryInfo { total: 8 * GIB, used: 3 * GIB });
}

#[test]
fn device_refuses_more_used_memory_than_it_has() {
    let mut device = GPUDevice::new(3, "gpu3".to_string(), 100, 0);
    assert!(device.set_used_memory(100));
    assert_eq!(device.memory_info(), GPUMemoryInfo { total: 100, used: 100 });
    assert!(!device.set_used_memory(101));
    assert_eq!(device.memory_info(), GPUMemoryInfo { total: 100, used: 100 });
}
