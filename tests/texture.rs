use ggez::context::{AdapterInfo, Context, QueueFamilyInfo};
use ggez::error::GpuError;
use ggez::memory::{Requirements, CPU_VISIBLE, DEVICE_LOCAL};
use ggez::texture::{
    row_pitch, stage_rows, unstage_rows, ImageAccess, ImageLayout, PipelineStage, TextureUpload, UploadCommand,
};

fn context_with_alignment(alignment: u64) -> Context {
    let adapter = AdapterInfo {
        queue_families: vec![QueueFamilyInfo { id: 0, supports_graphics: true, supports_present: true }],
        memory_types: vec![CPU_VISIBLE, DEVICE_LOCAL],
        min_buffer_copy_pitch_alignment: alignment,
    };
    Context::new(vec![adapter], Some(1)).unwrap()
}

#[test]
fn row_pitch_rounds_up_to_alignment() {
    assert_eq!(row_pitch(10, 3), 12);
    assert_eq!(row_pitch(12, 3), 12);
    assert_eq!(row_pitch(256, 255), 256);
    assert_eq!(row_pitch(257, 255), 512);
    assert_eq!(row_pitch(0, 255), 0);
    assert_eq!(row_pitch(7, 0), 7);
    assert_eq!(row_pitch(u32::MAX, 255), (u32::MAX as u64 / 256 + 1) * 256);
}

#[test]
fn row_pitch_is_aligned_and_holds_the_row() {
    for shift in 0..12u32 {
        let mask = (1u32 << shift) - 1;
        for row in [0u32, 1, 3, 4, 5, 100, 255, 256, 1000, 4096, 65535] {
            let pitch = row_pitch(row, mask);
            assert!(pitch >= row as u64);
            assert_eq!(pitch % (mask as u64 + 1), 0);
            assert!(pitch < row as u64 + mask as u64 + 1);
        }
    }
}

#[test]
fn staging_pads_rows_with_zeros() {
    let pixels: Vec<u8> = (1..=6u8).collect();
    let staged = stage_rows(&pixels, 3, 5, 2);
    assert_eq!(staged, vec![1, 2, 3, 0, 0, 4, 5, 6, 0, 0]);
}

#[test]
fn staging_round_trip_drops_padding() {
    for (width, height, pitch) in [(3usize, 2usize, 16usize), (1, 1, 4), (4, 3, 4), (0, 5, 8), (5, 0, 8)] {
        let row = 4 * width;
        let pixels: Vec<u8> = (0..row * height).map(|i| (i * 7 % 251) as u8 + 1).collect();
        let pitch = if pitch < row { row } else { pitch };
        let staged = stage_rows(&pixels, row, pitch, height);
        assert_eq!(staged.len(), pitch * height);
        assert_eq!(unstage_rows(&staged, row, pitch, height), pixels);
    }
}

#[test]
fn upload_lays_out_rows_at_the_copy_pitch() {
    let context = context_with_alignment(16);
    let pixels: Vec<u8> = (0..24u8).collect();
    let upload = TextureUpload::new(&context, 3, 2, &pixels).unwrap();
    assert_eq!(upload.row_pitch(), 16);
    assert_eq!(upload.required_bytes(), 32);
    let mut expected: Vec<u8> = (0..12u8).collect();
    expected.extend_from_slice(&[0, 0, 0, 0]);
    expected.extend(12..24u8);
    expected.extend_from_slice(&[0, 0, 0, 0]);
    assert_eq!(upload.staging(), &expected);
}

#[test]
fn upload_commands_transition_copy_transition() {
    let context = context_with_alignment(16);
    let pixels = vec![9u8; 24];
    let upload = TextureUpload::new(&context, 3, 2, &pixels).unwrap();
    let commands = upload.commands();
    assert_eq!(
        commands,
        vec![
            UploadCommand::Barrier {
                src_stage: PipelineStage::TopOfPipe,
                dst_stage: PipelineStage::Transfer,
                src_access: ImageAccess::Empty,
                src_layout: ImageLayout::Undefined,
                dst_access: ImageAccess::TransferWrite,
                dst_layout: ImageLayout::TransferDstOptimal,
            },
            UploadCommand::CopyBufferToImage { buffer_width: 4, buffer_height: 2, width: 3, height: 2 },
            UploadCommand::Barrier {
                src_stage: PipelineStage::Transfer,
                dst_stage: PipelineStage::FragmentShader,
                src_access: ImageAccess::TransferWrite,
                src_layout: ImageLayout::TransferDstOptimal,
                dst_access: ImageAccess::ShaderRead,
                dst_layout: ImageLayout::ShaderReadOnlyOptimal,
            },
        ]
    );
}

#[test]
fn copy_rows_are_whole_texels_at_every_power_of_two() {
    for shift in 0..10u32 {
        let context = context_with_alignment(1u64 << shift);
        for width in [1u32, 2, 3, 5, 17] {
            let pixels = vec![7u8; (4 * width * 2) as usize];
            let upload = TextureUpload::new(&context, width, 2, &pixels).unwrap();
            match upload.commands()[1] {
                UploadCommand::CopyBufferToImage { buffer_width, .. } => {
                    assert_eq!(buffer_width as usize * 4, upload.row_pitch());
                    assert!(upload.row_pitch() >= 4 * width as usize);
                }
                _ => panic!("the second command copies the buffer"),
            }
        }
    }
}

#[test]
fn upload_rejects_bad_input() {
    let context = context_with_alignment(16);
    assert_eq!(TextureUpload::new(&context, 3, 2, &vec![0u8; 23]).err(), Some(GpuError::ResourceCreationFailed));
    assert_eq!(TextureUpload::new(&context, 3, 2, &vec![0u8; 25]).err(), Some(GpuError::ResourceCreationFailed));
    let zero = context_with_alignment(0);
    assert_eq!(TextureUpload::new(&zero, 1, 1, &vec![0u8; 4]).err(), Some(GpuError::ResourceCreationFailed));
    let odd = context_with_alignment(3);
    assert_eq!(TextureUpload::new(&odd, 1, 2, &vec![0u8; 8]).err(), Some(GpuError::ResourceCreationFailed));
    let huge = context_with_alignment(0x1_0000_0001);
    assert_eq!(TextureUpload::new(&huge, 1, 1, &vec![0u8; 4]).err(), Some(GpuError::ResourceCreationFailed));
    assert_eq!(
        TextureUpload::new(&context, 0x4000_0000, 0, &vec![]).err(),
        Some(GpuError::ResourceCreationFailed)
    );
}

#[test]
fn finished_texture_lives_in_device_local_memory() {
    let context = context_with_alignment(4);
    let upload = TextureUpload::new(&context, 2, 2, &vec![1u8; 16]).unwrap();
    assert_eq!(upload.row_pitch(), 8);
    let requirements = Requirements { size: 1024, alignment: 256, type_mask: 0b11 };
    let texture = upload.finish(&context, requirements).unwrap();
    assert_eq!(texture.width(), 2);
    assert_eq!(texture.height(), 2);
    assert_eq!(texture.chunk().memory_type(), 1);
    assert_eq!(texture.chunk().properties(), DEVICE_LOCAL);
    let only_host = Requirements { size: 1024, alignment: 256, type_mask: 0b01 };
    assert_eq!(upload.finish(&context, only_host).err(), Some(GpuError::NoCompatibleMemoryType));
}
