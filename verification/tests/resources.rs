use aether_desk::resources::{ResourceLimits, ResourceManager, ResourceUsage};

fn usage(memory: u64, cpu: u64, gpu: u64) -> ResourceUsage {
    ResourceUsage { memory_used: memory, cpu_usage: cpu, gpu_memory_used: gpu, active_processes: 1 }
}

#[test]
fn test_resource_registration() {
    let mut rm = ResourceManager::new(ResourceLimits::default());

    let usage = ResourceUsage {
        memory_used: 1024 * 1024,
        cpu_usage: 10,
        gpu_memory_used: 512 * 1024,
        active_processes: 1,
    };

    assert!(rm.register_resource("test_resource".to_string(), usage).is_ok());

    let current_usage = rm.get_usage();
    assert_eq!(current_usage.memory_used, 1024 * 1024);
    assert_eq!(current_usage.cpu_usage, 10);
    assert_eq!(current_usage.gpu_memory_used, 512 * 1024);
    assert_eq!(current_usage.active_processes, 1);

    assert!(rm.unregister_resource("test_resource").is_ok());

    let final_usage = rm.get_usage();
    assert_eq!(final_usage.memory_used, 0);
    assert_eq!(final_usage.cpu_usage, 0);
    assert_eq!(final_usage.gpu_memory_used, 0);
    assert_eq!(final_usage.active_processes, 0);
}

#[test]
fn test_resource_limits() {
    let limits = ResourceLimits {
        max_memory: 1024 * 1024,
        max_cpu: 50,
        max_gpu_memory: 512 * 1024,
        max_processes: 2,
    };

    let mut rm = ResourceManager::new(limits);

    let usage1 = ResourceUsage {
        memory_used: 512 * 1024,
        cpu_usage: 20,
        gpu_memory_used: 256 * 1024,
        active_processes: 1,
    };

    let usage2 = ResourceUsage {
        memory_used: 768 * 1024,
        cpu_usage: 40,
        gpu_memory_used: 384 * 1024,
        active_processes: 1,
    };

    assert!(rm.register_resource("resource1".to_string(), usage1).is_ok());
    // This should fail due to exceeding the memory limit.
    assert!(rm.register_resource("resource2".to_string(), usage2).is_err());

    // The rejected call mutated nothing: only resource1 contributes.
    let current = rm.get_usage();
    assert_eq!(current.memory_used, 512 * 1024);
    assert_eq!(current.gpu_memory_used, 256 * 1024);
    assert_eq!(current.active_processes, 1);
    assert!(rm.get_resource_usage("resource2").is_none());

    // Unregister the first resource.
    assert!(rm.unregister_resource("resource1").is_ok());

    // Now registering the second should work.
    assert!(rm.register_resource("resource2".to_string(), usage2).is_ok());
}

#[test]
fn test_resource_updates() {
    let mut rm = ResourceManager::new(ResourceLimits::default());

    let initial_usage = ResourceUsage {
        memory_used: 1024 * 1024,
        cpu_usage: 10,
        gpu_memory_used: 512 * 1024,
        active_processes: 1,
    };

    assert!(rm.register_resource("test_resource".to_string(), initial_usage).is_ok());

    let updated_usage = ResourceUsage {
        memory_used: 2 * 1024 * 1024,
        cpu_usage: 20,
        gpu_memory_used: 1024 * 1024,
        active_processes: 1,
    };

    assert!(rm.update_resource("test_resource", updated_usage).is_ok());

    let current_usage = rm.get_usage();
    assert_eq!(current_usage.memory_used, 2 * 1024 * 1024);
    assert_eq!(current_usage.cpu_usage, 20);
    assert_eq!(current_usage.gpu_memory_used, 1024 * 1024);
}

#[test]
fn test_register_then_unregister_restores_aggregate() {
    let mut rm = ResourceManager::new(ResourceLimits::default());
    assert!(rm.register_resource("base".to_string(), usage(1000, 5, 2000)).is_ok());
    let before = rm.get_usage();

    assert!(rm.register_resource("extra".to_string(), usage(4096, 17, 8192)).is_ok());
    assert!(rm.unregister_resource("extra").is_ok());

    let after = rm.get_usage();
    assert_eq!(after, before);
}

#[test]
fn test_register_rejections_exact() {
    let limits =
        ResourceLimits { max_memory: 100, max_cpu: 50, max_gpu_memory: 100, max_processes: 1 };
    let mut rm = ResourceManager::new(limits);

    // Over the memory limit.
    let e = rm.register_resource("a".to_string(), usage(101, 0, 0)).unwrap_err();
    assert_eq!(e, "Would exceed maximum memory limit");

    // Over the GPU memory limit.
    let e = rm.register_resource("a".to_string(), usage(100, 0, 101)).unwrap_err();
    assert_eq!(e, "Would exceed maximum GPU memory limit");

    // Exactly at the limits is accepted.
    assert!(rm.register_resource("a".to_string(), usage(100, 0, 100)).is_ok());

    // Process cap reached.
    let e = rm.register_resource("b".to_string(), usage(0, 0, 0)).unwrap_err();
    assert_eq!(e, "Maximum number of active processes reached");
}

#[test]
fn test_register_duplicate_id_rejected_unchanged() {
    let mut rm = ResourceManager::new(ResourceLimits::default());
    assert!(rm.register_resource("dup".to_string(), usage(10, 1, 10)).is_ok());
    let before = rm.get_usage();
    let e = rm.register_resource("dup".to_string(), usage(20, 2, 20)).unwrap_err();
    assert_eq!(e, "Resource already registered");
    assert_eq!(rm.get_usage(), before);
    assert_eq!(rm.get_resource_usage("dup").unwrap().memory_used, 10);
}

#[test]
fn test_update_never_underflows() {
    let mut rm = ResourceManager::new(ResourceLimits::default());
    assert!(rm.register_resource("shrink".to_string(), usage(1 << 20, 30, 1 << 19)).is_ok());

    // Shrink every component to zero in one huge step: nothing underflows.
    assert!(rm.update_resource("shrink", usage(0, 0, 0)).is_ok());
    let current = rm.get_usage();
    assert_eq!(current.memory_used, 0);
    assert_eq!(current.cpu_usage, 0);
    assert_eq!(current.gpu_memory_used, 0);
    assert_eq!(current.active_processes, 1);
}

#[test]
fn test_update_grow_rejected_unchanged() {
    let limits =
        ResourceLimits { max_memory: 100, max_cpu: 50, max_gpu_memory: 100, max_processes: 4 };
    let mut rm = ResourceManager::new(limits);
    assert!(rm.register_resource("a".to_string(), usage(40, 0, 40)).is_ok());
    assert!(rm.register_resource("b".to_string(), usage(30, 0, 30)).is_ok());

    let e = rm.update_resource("a", usage(71, 0, 40)).unwrap_err();
    assert_eq!(e, "Would exceed maximum memory limit");
    let e = rm.update_resource("a", usage(40, 0, 71)).unwrap_err();
    assert_eq!(e, "Would exceed maximum GPU memory limit");

    // The rejected updates changed nothing.
    assert_eq!(rm.get_resource_usage("a").unwrap().memory_used, 40);
    assert_eq!(rm.get_usage().memory_used, 70);
    assert_eq!(rm.get_usage().gpu_memory_used, 70);

    // Growing within the limits works.
    assert!(rm.update_resource("a", usage(70, 0, 40)).is_ok());
    assert_eq!(rm.get_usage().memory_used, 100);
}

#[test]
fn test_update_missing_resource() {
    let mut rm = ResourceManager::new(ResourceLimits::default());
    let e = rm.update_resource("ghost", usage(1, 1, 1)).unwrap_err();
    assert_eq!(e, "Resource not found");
    let e = rm.unregister_resource("ghost").unwrap_err();
    assert_eq!(e, "Resource not found");
}

#[test]
fn test_allocation_stats_and_limits_check() {
    let mut rm = ResourceManager::new(ResourceLimits::default());
    assert_eq!(rm.get_allocation_stats(), (0, 0));
    assert!(rm.register_resource("x".to_string(), usage(500, 10, 0)).is_ok());
    assert_eq!(rm.get_allocation_stats(), (500, 0));
    assert!(rm.unregister_resource("x").is_ok());
    assert_eq!(rm.get_allocation_stats(), (500, 500));
    assert!(rm.is_within_limits());
    assert_eq!(rm.garbage_collect(), 0);
}

#[test]
fn test_utilization_percentages() {
    let limits =
        ResourceLimits { max_memory: 200, max_cpu: 50, max_gpu_memory: 100, max_processes: 4 };
    let mut rm = ResourceManager::new(limits);
    assert_eq!(rm.get_utilization(), (0, 0, 0));
    assert!(rm.register_resource("x".to_string(), usage(100, 100, 100)).is_ok());
    // Memory: 100 of 200 is 50%; GPU: 100 of 100 is 100%; CPU: 100 of 50
    // caps at 100%.
    assert_eq!(rm.get_utilization(), (50, 100, 100));
    assert!(!rm.is_within_limits());
}
