use gfx_hal::memory::Properties;
use ggez::context::{AdapterInfo, Context, QueueFamilyInfo};
use ggez::error::GpuError;
use ggez::memory::{
    find_memory_type, has_properties, Buffer, Chunk, Requirements, COHERENT, CPU_CACHED, CPU_VISIBLE,
    DEVICE_LOCAL, LAZILY_ALLOCATED,
};

fn context_with(memory_types: Vec<u16>) -> Context {
    let adapter = AdapterInfo {
        queue_families: vec![QueueFamilyInfo { id: 0, supports_graphics: true, supports_present: true }],
        memory_types,
        min_buffer_copy_pitch_alignment: 1,
    };
    Context::new(vec![adapter], Some(1)).unwrap()
}

#[test]
fn properties_contain_all_wanted_flags() {
    assert!(has_properties(CPU_VISIBLE | COHERENT, CPU_VISIBLE));
    assert!(has_properties(CPU_VISIBLE | COHERENT, CPU_VISIBLE | COHERENT));
    assert!(!has_properties(CPU_VISIBLE, CPU_VISIBLE | COHERENT));
    assert!(has_properties(DEVICE_LOCAL, 0));
}

#[test]
fn chunk_picks_type_one_for_device_local_mask_0b0010() {
    let types = vec![CPU_VISIBLE | COHERENT, DEVICE_LOCAL];
    assert_eq!(find_memory_type(&types, 0b0010, DEVICE_LOCAL), Ok(1));
    let context = context_with(types);
    let requirements = Requirements { size: 4096, alignment: 256, type_mask: 0b0010 };
    let chunk = Chunk::new(&context, requirements, DEVICE_LOCAL).unwrap();
    assert_eq!(chunk.memory_type(), 1);
    assert_eq!(chunk.size(), 4096);
    assert_eq!(chunk.properties(), DEVICE_LOCAL);
    assert_eq!(chunk.requirements(), requirements);
}

#[test]
fn flags_have_the_driver_bit_values() {
    assert_eq!(DEVICE_LOCAL, Properties::DEVICE_LOCAL.bits());
    assert_eq!(CPU_VISIBLE, Properties::CPU_VISIBLE.bits());
    assert_eq!(COHERENT, Properties::COHERENT.bits());
    assert_eq!(CPU_CACHED, Properties::CPU_CACHED.bits());
    assert_eq!(LAZILY_ALLOCATED, Properties::LAZILY_ALLOCATED.bits());
}

#[test]
fn lowest_suitable_type_wins() {
    let types = vec![DEVICE_LOCAL, CPU_VISIBLE, CPU_VISIBLE | COHERENT, CPU_VISIBLE | CPU_CACHED];
    assert_eq!(find_memory_type(&types, 0b1111, CPU_VISIBLE), Ok(1));
    assert_eq!(find_memory_type(&types, 0b1100, CPU_VISIBLE), Ok(2));
    assert_eq!(find_memory_type(&types, 0b1111, CPU_VISIBLE | CPU_CACHED), Ok(3));
}

#[test]
fn type_outside_mask_is_not_chosen() {
    let types = vec![DEVICE_LOCAL, DEVICE_LOCAL];
    assert_eq!(find_memory_type(&types, 0b0000, DEVICE_LOCAL), Err(GpuError::NoCompatibleMemoryType));
    assert_eq!(find_memory_type(&types, 0b0100, DEVICE_LOCAL), Err(GpuError::NoCompatibleMemoryType));
    assert_eq!(find_memory_type(&vec![], u64::MAX, 0), Err(GpuError::NoCompatibleMemoryType));
}

#[test]
fn buffer_chunk_is_cpu_visible_and_large_enough() {
    let context = context_with(vec![DEVICE_LOCAL, CPU_VISIBLE | COHERENT]);
    for size in [1usize, 100, 255, 256, 4097] {
        let requirements = Requirements { size: ((size as u64 + 255) / 256) * 256, alignment: 256, type_mask: 0b11 };
        let buffer = Buffer::new(&context, size, requirements).unwrap();
        assert_eq!(buffer.size(), size);
        assert!(buffer.chunk().size() >= size as u64);
        assert_eq!(buffer.chunk().memory_type(), 1);
        assert_eq!(buffer.chunk().properties(), CPU_VISIBLE);
        assert_eq!(buffer.mapping_range(), (0, requirements.size));
    }
}

#[test]
fn buffer_without_cpu_visible_memory_fails() {
    let context = context_with(vec![DEVICE_LOCAL, DEVICE_LOCAL | CPU_CACHED]);
    let requirements = Requirements { size: 64, alignment: 16, type_mask: 0b11 };
    assert_eq!(Buffer::new(&context, 64, requirements), Err(GpuError::NoCompatibleMemoryType));
}

#[test]
fn buffer_refuses_requirements_smaller_than_its_size() {
    let context = context_with(vec![CPU_VISIBLE]);
    let requirements = Requirements { size: 64, alignment: 16, type_mask: 0b1 };
    assert_eq!(Buffer::new(&context, 65, requirements), Err(GpuError::ResourceCreationFailed));
    assert_eq!(Buffer::new(&context, 64, requirements).map(|b| b.chunk().size()), Ok(64));
    let none = Requirements { size: 16, alignment: 16, type_mask: 0b0 };
    assert_eq!(Buffer::new(&context, 64, none), Err(GpuError::ResourceCreationFailed));
    assert_eq!(Buffer::new(&context, 16, none), Err(GpuError::NoCompatibleMemoryType));
}

#[test]
fn buffer_write_reports_mapping_failures() {
    let context = context_with(vec![CPU_VISIBLE]);
    let requirements = Requirements { size: 64, alignment: 16, type_mask: 0b1 };
    let buffer = Buffer::new(&context, 64, requirements).unwrap();
    assert_eq!(buffer.write(true, true), Ok(()));
    assert_eq!(buffer.write(false, true), Err(GpuError::MappingAcquireFailed));
    assert_eq!(buffer.write(false, false), Err(GpuError::MappingAcquireFailed));
    assert_eq!(buffer.write(true, false), Err(GpuError::MappingReleaseFailed));
}
