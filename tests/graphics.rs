use ggez::context::{AdapterInfo, Context, QueueFamilyInfo};
use ggez::graphics::{Builder, Image, Sprite, SpriteBatch, TextureArray};
use ggez::memory::{Requirements, DEVICE_LOCAL};
use ggez::texture::TextureUpload;

fn image(width: u32, height: u32) -> Image {
    let adapter = AdapterInfo {
        queue_families: vec![QueueFamilyInfo { id: 0, supports_graphics: true, supports_present: true }],
        memory_types: vec![DEVICE_LOCAL],
        min_buffer_copy_pitch_alignment: 4,
    };
    let context = Context::new(vec![adapter], Some(1)).unwrap();
    let pixels = vec![0u8; (4 * width * height) as usize];
    let upload = TextureUpload::new(&context, width, height, &pixels).unwrap();
    let texture = upload.finish(&context, Requirements { size: 64, alignment: 4, type_mask: 1 }).unwrap();
    Image::new(texture)
}

#[test]
fn image_reports_its_size() {
    let img = image(3, 2);
    assert_eq!(img.width(), 3);
    assert_eq!(img.height(), 2);
    assert_eq!(img.texture().width(), 3);
}

#[test]
fn image_size_is_kept_in_sixteen_bits() {
    let img = image(0x1_0002, 0);
    assert_eq!(img.width(), 2);
    assert_eq!(img.height(), 0);
}

#[test]
fn solid_image_pixels_are_bgra() {
    let bytes = Image::solid_pixels(2, 10, 20, 30, 40);
    assert_eq!(bytes, vec![30, 20, 10, 40, 30, 20, 10, 40, 30, 20, 10, 40, 30, 20, 10, 40]);
    assert!(Image::solid_pixels(0, 1, 2, 3, 4).is_empty());
    assert_eq!(Image::solid_pixels(300, 1, 2, 3, 4).len(), 4 * 300 * 300);
}

#[test]
fn batches_and_builders() {
    let batch = SpriteBatch::new(image(1, 1));
    assert_eq!(batch, SpriteBatch {});
    let array = TextureArray {};
    let _ = array.batch();
    let _ = Builder::new(16, 16);
    let sprite = Sprite { row: 1, column: 2, width: 3, height: 4 };
    assert_eq!(sprite.column, 2);
}
