use vstd::arithmetic::div_mod::lemma_fundamental_div_mod_converse;
use vstd::prelude::*;

use crate::texture::Texture;

verus! {

/// How textures are sampled when scaled.
#[derive(Clone, Copy, Debug, PartialEq, Eq, Structural)]
pub enum FilterMode {
    Nearest,
}

/// How a mesh is drawn.
#[derive(Clone, Copy, Debug, PartialEq, Eq, Structural)]
pub enum DrawMode {
    Fill,
}

/// Something that can be drawn.
pub trait Drawable {
}

/// The four bytes of a pixel of a solid image, in the order blue, green,
/// red, alpha, repeated for `pixels` pixels.
pub open spec fn solid_bytes(pixels: nat, r: u8, g: u8, b: u8, a: u8) -> Seq<u8> {
    Seq::new(
        4 * pixels,
        |k: int|
            if k % 4 == 0 {
                b
            } else if k % 4 == 1 {
                g
            } else if k % 4 == 2 {
                r
            } else {
                a
            },
    )
}

/// An image uploaded to the GPU.
#[derive(Clone, Copy, Debug, PartialEq, Eq, Structural)]
pub struct Image {
    width: u16,
    height: u16,
    texture: Texture,
}

impl Image {
    pub closed spec fn spec_width(&self) -> u16 {
        self.width
    }

    pub closed spec fn spec_height(&self) -> u16 {
        self.height
    }

    pub closed spec fn spec_texture(&self) -> Texture {
        self.texture
    }

    /// The image shown by an uploaded texture; its size is kept in 16 bits.
    pub fn new(texture: Texture) -> (r: Image)
        ensures
            r.spec_width() == texture.spec_width() as u16,
            r.spec_height() == texture.spec_height() as u16,
            r.spec_texture() == texture,
    {
        Image { width: texture.width() as u16, height: texture.height() as u16, texture }
    }

    /// The pixel data of a square image of `size` by `size` pixels, all of
    /// the color `(r, g, b, a)`, laid out for upload.
    pub fn solid_pixels(size: u16, r: u8, g: u8, b: u8, a: u8) -> (out: Vec<u8>)
        ensures
            out@ == solid_bytes(size as nat * size as nat, r, g, b, a),
    {
        proof {
            assert(size as u32 * size as u32 <= u32::MAX) by (nonlinear_arith)
                requires size <= u16::MAX;
        }
        let total: u32 = size as u32 * size as u32;
        let mut out: Vec<u8> = Vec::new();
        let mut i: u32 = 0;
        while i < total
            invariant
                i <= total,
                out@ == solid_bytes(i as nat, r, g, b, a),
            decreases total - i,
        {
            proof {
                let n = 4 * i as int;
                lemma_fundamental_div_mod_converse(n, 4, i as int, 0);
                lemma_fundamental_div_mod_converse(n + 1, 4, i as int, 1);
                lemma_fundamental_div_mod_converse(n + 2, 4, i as int, 2);
                lemma_fundamental_div_mod_converse(n + 3, 4, i as int, 3);
            }
            out.push(b);
            out.push(g);
            out.push(r);
            out.push(a);
            i = i + 1;
            assert(out@ =~= solid_bytes(i as nat, r, g, b, a));
        }
        out
    }

    /// The width in pixels.
    pub fn width(&self) -> (r: u16)
        ensures
            r == self.spec_width(),
    {
        self.width
    }

    /// The height in pixels.
    pub fn height(&self) -> (r: u16)
        ensures
            r == self.spec_height(),
    {
        self.height
    }

    /// The texture holding the image.
    pub fn texture(&self) -> (r: Texture)
        ensures
            r == self.spec_texture(),
    {
        self.texture
    }
}

impl Drawable for Image {
}

/// A render target that can be drawn to and drawn.
#[derive(Clone, Copy, Debug, PartialEq, Eq, Structural)]
pub struct Canvas {}

impl Drawable for Canvas {
}

/// A polygon mesh.
#[derive(Clone, Copy, Debug, PartialEq, Eq, Structural)]
pub struct Mesh {}

impl Drawable for Mesh {
}

/// A piece of text.
#[derive(Clone, Copy, Debug, PartialEq, Eq, Structural)]
pub struct Text {}

impl Drawable for Text {
}

/// Many sprites of one image, drawn together.
#[derive(Clone, Copy, Debug, PartialEq, Eq, Structural)]
pub struct SpriteBatch {}

impl SpriteBatch {
    /// A batch for sprites of `image`.
    pub fn new(image: Image) -> (r: SpriteBatch)
        ensures
            r == (SpriteBatch {}),
    {
        SpriteBatch {}
    }
}

impl Drawable for SpriteBatch {
}

/// A region of a texture array: the cell at `row`, `column`, of `width` by
/// `height` cells.
#[derive(Clone, Copy, Debug, PartialEq, Eq, Structural)]
pub struct Sprite {
    pub row: u32,
    pub column: u32,
    pub width: u32,
    pub height: u32,
}

/// The index of an image added to a texture array.
#[derive(Clone, Copy, Debug, PartialEq, Eq, Structural)]
pub struct Index {}

/// Several images packed in one texture.
#[derive(Clone, Copy, Debug, PartialEq, Eq, Structural)]
pub struct TextureArray {}

impl TextureArray {
    /// A new, empty batch of sprites of this array.
    pub fn batch(&self) -> (r: Batch)
        ensures
            r == (Batch {}),
    {
        Batch {}
    }
}

/// Sprites of a texture array, drawn together.
#[derive(Clone, Copy, Debug, PartialEq, Eq, Structural)]
pub struct Batch {}

/// Collects images into a texture array of cells of `width` by `height`.
#[derive(Clone, Copy, Debug, PartialEq, Eq, Structural)]
pub struct Builder {}

impl Builder {
    /// A builder for cells of `width` by `height` pixels.
    pub fn new(width: u32, height: u32) -> (r: Builder)
        ensures
            r == (Builder {}),
    {
        Builder {}
    }
}

} // verus!
