use ggez::context::{select_adapter, AdapterInfo, Context, QueueFamilyInfo, QUEUES_REQUESTED};
use ggez::error::GpuError;
use ggez::memory::DEVICE_LOCAL;

fn family(id: usize, graphics: bool, present: bool) -> QueueFamilyInfo {
    QueueFamilyInfo { id, supports_graphics: graphics, supports_present: present }
}

fn adapter(families: Vec<QueueFamilyInfo>) -> AdapterInfo {
    AdapterInfo { queue_families: families, memory_types: vec![DEVICE_LOCAL], min_buffer_copy_pitch_alignment: 4 }
}

#[test]
fn mock_adapter_with_one_family_opens_one_queue() {
    let adapters = vec![adapter(vec![family(0, true, true)])];
    let (a, f) = select_adapter(&adapters).unwrap();
    assert_eq!((a, f), (0, 0));
    assert_eq!(QUEUES_REQUESTED, 1);
    let context = Context::new(adapters, Some(QUEUES_REQUESTED)).unwrap();
    assert_eq!(context.adapter_index(), 0);
    assert_eq!(context.queue_count(), 1);
    assert_eq!(context.queue_family(), 0);
    assert_eq!(context.adapter().queue_families.len(), 1);
    assert_eq!(context.memory_types(), &vec![DEVICE_LOCAL]);
}

#[test]
fn first_adapter_able_to_draw_and_present_is_chosen() {
    let adapters = vec![
        adapter(vec![family(0, true, false), family(1, false, true)]),
        adapter(vec![family(0, false, false), family(1, true, true), family(2, true, true)]),
        adapter(vec![family(0, true, true)]),
    ];
    assert_eq!(select_adapter(&adapters), Ok((1, 1)));
    let context = Context::new(adapters, Some(2)).unwrap();
    assert_eq!(context.adapter_index(), 1);
    assert_eq!(context.queue_family(), 1);
    assert_eq!(context.queue_count(), 2);
    assert_eq!(context.adapter().queue_families.len(), 3);
}

#[test]
fn no_suitable_adapter_fails() {
    let adapters = vec![adapter(vec![family(0, true, false)]), adapter(vec![])];
    assert_eq!(select_adapter(&adapters), Err(GpuError::AdapterSelectionFailed));
    assert_eq!(select_adapter(&vec![]), Err(GpuError::AdapterSelectionFailed));
}

#[test]
fn device_open_failures() {
    let a = adapter(vec![family(0, true, true)]);
    assert_eq!(Context::new(vec![a.clone()], None).err(), Some(GpuError::DeviceOpenFailed));
    assert_eq!(Context::new(vec![a.clone()], Some(0)).err(), Some(GpuError::DeviceOpenFailed));
    let b = adapter(vec![family(0, true, false)]);
    assert_eq!(Context::new(vec![b.clone()], Some(1)).err(), Some(GpuError::AdapterSelectionFailed));
    assert_eq!(Context::new(vec![b], None).err(), Some(GpuError::AdapterSelectionFailed));
    assert_eq!(Context::new(vec![], Some(1)).err(), Some(GpuError::AdapterSelectionFailed));
}

#[test]
fn every_error_has_a_message() {
    let all = [
        GpuError::AdapterSelectionFailed,
        GpuError::DeviceOpenFailed,
        GpuError::NoCompatibleMemoryType,
        GpuError::ResourceCreationFailed,
        GpuError::MappingAcquireFailed,
        GpuError::MappingReleaseFailed,
        GpuError::FenceOrSemaphoreCreationFailed,
        GpuError::SwapchainAcquireFailed,
        GpuError::SwapchainPresentFailed,
        GpuError::SurfaceCapabilityUnsupported,
    ];
    for e in all.iter() {
        assert!(!e.message().is_empty());
    }
    assert_eq!(GpuError::SwapchainPresentFailed.message(), "Failed to present into the swapchain!");
    for (i, a) in all.iter().enumerate() {
        for b in all[i + 1..].iter() {
            assert_ne!(a.message(), b.message());
        }
    }
}
