use vstd::arithmetic::div_mod::{lemma_fundamental_div_mod, lemma_fundamental_div_mod_converse, lemma_mod_multiples_basic, lemma_mod_pos_bound};
use vstd::prelude::*;

use crate::context::Context;
use crate::error::GpuError;
use crate::memory::{Chunk, Requirements, DEVICE_LOCAL, some_type_suitable};

verus! {

/// The number of bytes of one pixel: four channels of one byte each, in the
/// order blue, green, red, alpha.
pub const PIXEL_SIZE: u32 = 4;

/// `row_size` rounded up to the next multiple of `alignment_mask + 1`.
pub open spec fn aligned_pitch(row_size: int, alignment_mask: int) -> int {
    ((row_size + alignment_mask) / (alignment_mask + 1)) * (alignment_mask + 1)
}

/// The pitch of a row of `row_size` bytes in a buffer whose rows must start
/// on multiples of `alignment_mask + 1` bytes: the smallest such multiple that
/// holds the row.
pub fn row_pitch(row_size: u32, alignment_mask: u32) -> (r: u64)
    ensures
        r == aligned_pitch(row_size as int, alignment_mask as int),
        r >= row_size,
        r as int % (alignment_mask as int + 1) == 0,
        r <= row_size as int + alignment_mask as int,
{
    let d: u64 = alignment_mask as u64 + 1;
    let padded: u64 = row_size as u64 + alignment_mask as u64;
    let q: u64 = padded / d;
    proof {
        lemma_fundamental_div_mod(padded as int, d as int);
        lemma_mod_pos_bound(padded as int, d as int);
        lemma_mod_multiples_basic(q as int, d as int);
        let m = padded % d;
        assert(q * d <= padded && q * d + d > padded) by (nonlinear_arith)
            requires padded == d * q + m, 0 <= m < d;
    }
    q * d
}

/// Byte `k` of a staging buffer whose rows are `row_pitch` bytes apart and
/// hold `row_size` bytes of the image each; padding bytes are zero.
pub open spec fn staged_byte(pixels: Seq<u8>, row_size: int, row_pitch: int, k: int) -> u8 {
    if k % row_pitch < row_size {
        pixels[(k / row_pitch) * row_size + k % row_pitch]
    } else {
        0
    }
}

/// The staging buffer for `height` rows of `row_size` bytes laid out
/// `row_pitch` bytes apart.
pub open spec fn staged(pixels: Seq<u8>, row_size: nat, row_pitch: nat, height: nat) -> Seq<u8> {
    Seq::new(row_pitch * height, |k: int| staged_byte(pixels, row_size as int, row_pitch as int, k))
}

/// The image bytes read back from a staging buffer: each row without its padding.
pub open spec fn unstaged(staging: Seq<u8>, row_size: nat, row_pitch: nat, height: nat) -> Seq<u8> {
    Seq::new(
        row_size * height,
        |k: int| staging[(k / row_size as int) * row_pitch + k % row_size as int],
    )
}

/// Lays out `height` tightly packed rows of `row_size` bytes in a buffer whose
/// rows are `row_pitch` bytes apart, with zero bytes as padding.
pub fn stage_rows(pixels: &Vec<u8>, row_size: usize, row_pitch: usize, height: usize) -> (r: Vec<u8>)
    requires
        pixels@.len() == row_size * height,
        row_size <= row_pitch,
        row_pitch * height <= usize::MAX,
    ensures
        r@ == staged(pixels@, row_size as nat, row_pitch as nat, height as nat),
{
    let mut out: Vec<u8> = Vec::new();
    let plen: usize = pixels.len();
    let mut y: usize = 0;
    while y < height
        invariant
            y <= height,
            plen == pixels@.len(),
            pixels@.len() == row_size * height,
            row_size <= row_pitch,
            row_pitch * height <= usize::MAX,
            out@.len() == y * row_pitch,
            forall|k: int| 0 <= k < out@.len() ==>
                out@[k] == staged_byte(pixels@, row_size as int, row_pitch as int, k),
        decreases height - y,
    {
        proof {
            assert((y + 1) * row_pitch <= row_pitch * height) by (nonlinear_arith)
                requires y < height;
            assert((y + 1) * row_size <= row_size * height) by (nonlinear_arith)
                requires y < height;
            assert((y + 1) * row_pitch == y * row_pitch + row_pitch) by (nonlinear_arith);
            assert((y + 1) * row_size == y * row_size + row_size) by (nonlinear_arith);
        }
        let base: usize = y * row_size;
        let start: usize = y * row_pitch;
        let mut x: usize = 0;
        while x < row_pitch
            invariant
                y < height,
                x <= row_pitch,
                plen == pixels@.len(),
                pixels@.len() == row_size * height,
                row_size <= row_pitch,
                base == y * row_size,
                start == y * row_pitch,
                base + row_size <= pixels@.len(),
                start + row_pitch <= usize::MAX,
                out@.len() == start + x,
                forall|k: int| 0 <= k < out@.len() ==>
                    out@[k] == staged_byte(pixels@, row_size as int, row_pitch as int, k),
            decreases row_pitch - x,
        {
            let k: usize = start + x;
            proof {
                lemma_fundamental_div_mod_converse(k as int, row_pitch as int, y as int, x as int);
            }
            if x < row_size {
                out.push(pixels[base + x]);
            } else {
                out.push(0u8);
            }
            x = x + 1;
        }
        y = y + 1;
    }
    assert(height * row_pitch == row_pitch * height) by (nonlinear_arith);
    assert(out@ =~= staged(pixels@, row_size as nat, row_pitch as nat, height as nat));
    out
}

/// Reads `height` rows of `row_size` bytes out of a buffer whose rows are
/// `row_pitch` bytes apart, leaving the padding behind.
pub fn unstage_rows(staging: &Vec<u8>, row_size: usize, row_pitch: usize, height: usize) -> (r: Vec<u8>)
    requires
        staging@.len() == row_pitch * height,
        row_size <= row_pitch,
    ensures
        r@ == unstaged(staging@, row_size as nat, row_pitch as nat, height as nat),
{
    let mut out: Vec<u8> = Vec::new();
    let slen: usize = staging.len();
    let mut y: usize = 0;
    proof {
        assert(row_size * height <= row_pitch * height) by (nonlinear_arith)
            requires row_size <= row_pitch;
    }
    while y < height
        invariant
            y <= height,
            slen == staging@.len(),
            staging@.len() == row_pitch * height,
            row_size <= row_pitch,
            row_size * height <= row_pitch * height,
            out@.len() == y * row_size,
            forall|k: int| 0 <= k < out@.len() ==>
                out@[k] == staging@[(k / row_size as int) * row_pitch + k % row_size as int],
        decreases height - y,
    {
        proof {
            assert((y + 1) * row_pitch <= row_pitch * height) by (nonlinear_arith)
                requires y < height;
            assert((y + 1) * row_size <= row_size * height) by (nonlinear_arith)
                requires y < height;
            assert((y + 1) * row_pitch == y * row_pitch + row_pitch) by (nonlinear_arith);
            assert((y + 1) * row_size == y * row_size + row_size) by (nonlinear_arith);
        }
        let base: usize = y * row_size;
        let start: usize = y * row_pitch;
        let mut x: usize = 0;
        while x < row_size
            invariant
                y < height,
                x <= row_size,
                row_size <= row_pitch,
                slen == staging@.len(),
                staging@.len() == row_pitch * height,
                base == y * row_size,
                start == y * row_pitch,
                start + row_pitch <= staging@.len(),
                base + row_size <= row_size * height,
                row_size * height <= row_pitch * height,
                out@.len() == base + x,
                forall|k: int| 0 <= k < out@.len() ==>
                    out@[k] == staging@[(k / row_size as int) * row_pitch + k % row_size as int],
            decreases row_size - x,
        {
            proof {
                lemma_fundamental_div_mod_converse((base + x) as int, row_size as int, y as int, x as int);
            }
            out.push(staging[start + x]);
            x = x + 1;
        }
        y = y + 1;
    }
    assert(height * row_size == row_size * height) by (nonlinear_arith);
    assert(out@ =~= unstaged(staging@, row_size as nat, row_pitch as nat, height as nat));
    out
}

/// Staging an image and reading it back gives the image's bytes again: the
/// padding at the end of each row is never part of the image.
pub proof fn lemma_stage_round_trip(pixels: Seq<u8>, row_size: nat, row_pitch: nat, height: nat)
    requires
        pixels.len() == row_size * height,
        row_size <= row_pitch,
    ensures
        unstaged(staged(pixels, row_size, row_pitch, height), row_size, row_pitch, height) == pixels,
{
    let s = staged(pixels, row_size, row_pitch, height);
    let u = unstaged(s, row_size, row_pitch, height);
    assert forall|k: int| 0 <= k < pixels.len() implies u[k] == pixels[k] by {
        let rs = row_size as int;
        let rp = row_pitch as int;
        let h = height as int;
        assert(rs > 0) by (nonlinear_arith)
            requires 0 <= k < rs * h, rs >= 0, h >= 0;
        lemma_fundamental_div_mod(k, rs);
        lemma_mod_pos_bound(k, rs);
        let y = k / rs;
        let x = k % rs;
        assert(0 <= y < h) by (nonlinear_arith)
            requires k == rs * y + x, 0 <= x < rs, 0 <= k < rs * h, rs > 0;
        let j = y * rp + x;
        assert(y * rp + rp <= rp * h && y * rp >= 0) by (nonlinear_arith)
            requires 0 <= y, y + 1 <= h, rp >= 0;
        lemma_fundamental_div_mod_converse(j, rp, y, x);
        assert(s[j] == pixels[y * rs + x]);
        assert(y * rs + x == k) by (nonlinear_arith)
            requires k == rs * y + x;
    }
    assert(u =~= pixels);
}

/// The layout of an image's memory.
#[derive(Clone, Copy, Debug, PartialEq, Eq, Structural)]
pub enum ImageLayout {
    Undefined,
    TransferDstOptimal,
    ShaderReadOnlyOptimal,
}

/// The kind of access a barrier orders.
#[derive(Clone, Copy, Debug, PartialEq, Eq, Structural)]
pub enum ImageAccess {
    Empty,
    TransferWrite,
    ShaderRead,
}

/// A stage of the GPU pipeline.
#[derive(Clone, Copy, Debug, PartialEq, Eq, Structural)]
pub enum PipelineStage {
    TopOfPipe,
    Transfer,
    FragmentShader,
}

/// A row pitch that rounds a row of whole pixels up to a power-of-two
/// alignment is itself a whole number of pixels, and at most twice 2^32 bytes.
proof fn lemma_pitch_whole_texels(row_size: u32, alignment: u64, pitch: u64)
    requires
        row_size % PIXEL_SIZE == 0,
        is_power_of_two(alignment),
        alignment <= 0x1_0000_0000,
        pitch == aligned_pitch(row_size as int, alignment - 1),
        pitch <= row_size as int + (alignment - 1),
    ensures
        pitch % 4 == 0,
        pitch / 4 <= u32::MAX,
{
    let d = alignment as int;
    let w = row_size as int / 4;
    assert(row_size as int == 4 * w);
    if alignment == 1 {
        lemma_fundamental_div_mod_converse(row_size as int, 1, row_size as int, 0);
        assert(pitch == row_size);
        lemma_mod_multiples_basic(w, 4);
    } else if alignment == 2 {
        lemma_fundamental_div_mod_converse(row_size as int + 1, 2, 2 * w, 1);
        assert(pitch == 2 * w * 2);
        lemma_mod_multiples_basic(w, 4);
    } else {
        assert(alignment & 3 == 0) by (bit_vector)
            requires alignment != 0, alignment & ((alignment - 1) as u64) == 0, alignment != 1, alignment != 2;
        assert(alignment % 4 == 0) by (bit_vector)
            requires alignment & 3 == 0;
        let q = (row_size as int + d - 1) / d;
        let k = d / 4;
        assert(q * d == 4 * (q * k)) by (nonlinear_arith)
            requires d == 4 * k;
        assert(pitch == q * d);
        lemma_mod_multiples_basic(q * k, 4);
    }
}

/// A command of the one-shot command buffer that uploads a texture.
#[derive(Clone, Copy, Debug, PartialEq, Eq, Structural)]
pub enum UploadCommand {
    /// A pipeline barrier that moves the whole color image between layouts.
    Barrier {
        src_stage: PipelineStage,
        dst_stage: PipelineStage,
        src_access: ImageAccess,
        src_layout: ImageLayout,
        dst_access: ImageAccess,
        dst_layout: ImageLayout,
    },
    /// A copy of the staging buffer into the image, whose layout must be
    /// `TransferDstOptimal`; the buffer's rows are `buffer_width` texels apart.
    CopyBufferToImage {
        buffer_width: u32,
        buffer_height: u32,
        width: u32,
        height: u32,
    },
}

/// The upload: to transfer-destination layout, copy, to shader-read layout.
pub open spec fn upload_commands(buffer_width: u32, width: u32, height: u32) -> Seq<UploadCommand> {
    seq![
        UploadCommand::Barrier {
            src_stage: PipelineStage::TopOfPipe,
            dst_stage: PipelineStage::Transfer,
            src_access: ImageAccess::Empty,
            src_layout: ImageLayout::Undefined,
            dst_access: ImageAccess::TransferWrite,
            dst_layout: ImageLayout::TransferDstOptimal,
        },
        UploadCommand::CopyBufferToImage { buffer_width, buffer_height: height, width, height },
        UploadCommand::Barrier {
            src_stage: PipelineStage::Transfer,
            dst_stage: PipelineStage::FragmentShader,
            src_access: ImageAccess::TransferWrite,
            src_layout: ImageLayout::TransferDstOptimal,
            dst_access: ImageAccess::ShaderRead,
            dst_layout: ImageLayout::ShaderReadOnlyOptimal,
        },
    ]
}

/// `a` is a power of two.
pub open spec fn is_power_of_two(a: u64) -> bool {
    a != 0 && a & ((a - 1) as u64) == 0
}

/// The adapter's copy pitch alignment is a power of two whose mask fits in 32 bits.
pub open spec fn pitch_mask_ok(context: Context) -> bool {
    &&& is_power_of_two(context.spec_adapter().min_buffer_copy_pitch_alignment)
    &&& context.spec_adapter().min_buffer_copy_pitch_alignment <= 0x1_0000_0000
}

/// The mask of the adapter's copy pitch alignment: the alignment minus one.
pub open spec fn pitch_mask(context: Context) -> int {
    context.spec_adapter().min_buffer_copy_pitch_alignment - 1
}

/// An image of `width` by `height` pixels with `len` bytes of pixel data can
/// be staged on this context.
pub open spec fn upload_feasible(context: Context, width: u32, height: u32, len: nat) -> bool {
    &&& len == PIXEL_SIZE * width * height
    &&& PIXEL_SIZE * width <= u32::MAX
    &&& pitch_mask_ok(context)
    &&& aligned_pitch(PIXEL_SIZE * width, pitch_mask(context)) <= usize::MAX
    &&& aligned_pitch(PIXEL_SIZE * width, pitch_mask(context)) * height <= usize::MAX
}

/// The staging side of a texture upload: the image's rows laid out at the
/// device's copy pitch.
pub struct TextureUpload {
    width: u32,
    height: u32,
    row_pitch: usize,
    staging: Vec<u8>,
}

impl TextureUpload {
    pub closed spec fn spec_width(&self) -> u32 {
        self.width
    }

    pub closed spec fn spec_height(&self) -> u32 {
        self.height
    }

    pub closed spec fn spec_row_pitch(&self) -> usize {
        self.row_pitch
    }

    pub closed spec fn spec_staging(&self) -> Seq<u8> {
        self.staging@
    }

    /// The row pitch is a whole number of pixels, a count that fits in 32 bits.
    pub open spec fn wf(&self) -> bool {
        &&& self.spec_row_pitch() % PIXEL_SIZE as usize == 0
        &&& self.spec_row_pitch() / PIXEL_SIZE as usize <= u32::MAX
    }

    /// Lays out an image of `width` by `height` pixels, four bytes each,
    /// row-major and tightly packed in `pixels`, for a copy from a staging
    /// buffer on this context: each row starts on a multiple of the device's
    /// copy pitch alignment. Fails when the data does not match the size or
    /// the staging buffer cannot be addressed.
    pub fn new(context: &Context, width: u32, height: u32, pixels: &Vec<u8>) -> (r: Result<TextureUpload, GpuError>)
        ensures
            match r {
                Ok(u) => {
                    &&& u.wf()
                    &&& upload_feasible(*context, width, height, pixels@.len())
                    &&& u.spec_width() == width
                    &&& u.spec_height() == height
                    &&& u.spec_row_pitch() == aligned_pitch(PIXEL_SIZE * width, pitch_mask(*context))
                    &&& u.spec_staging() == staged(
                        pixels@,
                        (PIXEL_SIZE * width) as nat,
                        u.spec_row_pitch() as nat,
                        height as nat,
                    )
                },
                Err(e) => {
                    &&& e == GpuError::ResourceCreationFailed
                    &&& !upload_feasible(*context, width, height, pixels@.len())
                },
            },
    {
        let wide_row: u64 = PIXEL_SIZE as u64 * width as u64;
        if wide_row > u32::MAX as u64 {
            return Err(GpuError::ResourceCreationFailed);
        }
        let alignment = context.adapter().min_buffer_copy_pitch_alignment;
        if alignment == 0 || alignment > 0x1_0000_0000u64 || alignment & (alignment - 1) != 0 {
            return Err(GpuError::ResourceCreationFailed);
        }
        let row_size: u32 = wide_row as u32;
        let mask: u32 = (alignment - 1) as u32;
        let pitch: u64 = row_pitch(row_size, mask);
        proof {
            assert(PIXEL_SIZE == 4);
            assert(wide_row == 4 * width as u64);
            assert(row_size as u64 == wide_row);
            assert(row_size as int == width as int * 4);
            lemma_mod_multiples_basic(width as int, 4);
            assert(row_size % PIXEL_SIZE == 0);
            lemma_pitch_whole_texels(row_size, alignment, pitch);
        }
        proof {
            assert(row_size as u64 * height as u64 <= u64::MAX) by (nonlinear_arith)
                requires row_size <= u32::MAX, height <= u32::MAX;
        }
        let expected: u64 = row_size as u64 * height as u64;
        if pixels.len() as u64 != expected {
            return Err(GpuError::ResourceCreationFailed);
        }
        if pitch > usize::MAX as u64 {
            return Err(GpuError::ResourceCreationFailed);
        }
        let h: usize = height as usize;
        let p: usize = pitch as usize;
        if h != 0 && p > usize::MAX / h {
            proof {
                assert(p * h > usize::MAX) by (nonlinear_arith)
                    requires h > 0, p > usize::MAX / h;
            }
            return Err(GpuError::ResourceCreationFailed);
        }
        proof {
            if h != 0 {
                assert(p * h <= usize::MAX) by (nonlinear_arith)
                    requires h > 0, p <= usize::MAX / h;
            }
            assert(row_size <= p);
        }
        let staging = stage_rows(pixels, row_size as usize, p, h);
        Ok(TextureUpload { width, height, row_pitch: p, staging })
    }

    /// The bytes to write into the staging buffer.
    pub fn staging(&self) -> (r: &Vec<u8>)
        ensures
            r@ == self.spec_staging(),
    {
        &self.staging
    }

    /// The size in bytes of the staging buffer: one pitch per row.
    pub fn required_bytes(&self) -> (r: usize)
        ensures
            r == self.spec_staging().len(),
    {
        self.staging.len()
    }

    /// The distance in bytes between rows of the staging buffer.
    pub fn row_pitch(&self) -> (r: usize)
        ensures
            r == self.spec_row_pitch(),
    {
        self.row_pitch
    }

    /// The commands of the one-shot upload, in order.
    pub fn commands(&self) -> (r: Vec<UploadCommand>)
        requires
            self.wf(),
        ensures
            r@[1] matches UploadCommand::CopyBufferToImage { buffer_width, .. }
                && buffer_width * PIXEL_SIZE == self.spec_row_pitch(),
            r@ == upload_commands(
                (self.spec_row_pitch() / PIXEL_SIZE as usize) as u32,
                self.spec_width(),
                self.spec_height(),
            ),
    {
        let buffer_width: u32 = (self.row_pitch / PIXEL_SIZE as usize) as u32;
        proof {
            lemma_fundamental_div_mod(self.row_pitch as int, 4);
            assert(buffer_width * PIXEL_SIZE == self.row_pitch);
        }
        let mut r: Vec<UploadCommand> = Vec::new();
        r.push(UploadCommand::Barrier {
            src_stage: PipelineStage::TopOfPipe,
            dst_stage: PipelineStage::Transfer,
            src_access: ImageAccess::Empty,
            src_layout: ImageLayout::Undefined,
            dst_access: ImageAccess::TransferWrite,
            dst_layout: ImageLayout::TransferDstOptimal,
        });
        r.push(UploadCommand::CopyBufferToImage {
            buffer_width,
            buffer_height: self.height,
            width: self.width,
            height: self.height,
        });
        r.push(UploadCommand::Barrier {
            src_stage: PipelineStage::Transfer,
            dst_stage: PipelineStage::FragmentShader,
            src_access: ImageAccess::TransferWrite,
            src_layout: ImageLayout::TransferDstOptimal,
            dst_access: ImageAccess::ShaderRead,
            dst_layout: ImageLayout::ShaderReadOnlyOptimal,
        });
        assert(r@ =~= upload_commands(buffer_width, self.width, self.height));
        r
    }

    /// Completes the upload once the image exists and reported `requirements`:
    /// the texture is backed by a chunk of device-local memory.
    pub fn finish(&self, context: &Context, requirements: Requirements) -> (r: Result<Texture, GpuError>)
        ensures
            match r {
                Ok(t) => {
                    &&& t.spec_width() == self.spec_width()
                    &&& t.spec_height() == self.spec_height()
                    &&& t.spec_chunk().spec_requirements() == requirements
                    &&& t.spec_chunk().spec_properties() == DEVICE_LOCAL
                    &&& t.spec_chunk().valid_for(context)
                },
                Err(e) => {
                    &&& e == GpuError::NoCompatibleMemoryType
                    &&& !some_type_suitable(context.spec_memory_types()@, requirements.type_mask, DEVICE_LOCAL)
                },
            },
    {
        let chunk = Chunk::new(context, requirements, DEVICE_LOCAL)?;
        Ok(Texture { width: self.width, height: self.height, chunk })
    }
}

/// A texture on the GPU: a 2D image with one mip level and one layer, and
/// the device-local memory that backs it.
#[derive(Clone, Copy, Debug, PartialEq, Eq, Structural)]
pub struct Texture {
    width: u32,
    height: u32,
    chunk: Chunk,
}

impl Texture {
    pub closed spec fn spec_width(&self) -> u32 {
        self.width
    }

    pub closed spec fn spec_height(&self) -> u32 {
        self.height
    }

    pub closed spec fn spec_chunk(&self) -> Chunk {
        self.chunk
    }

    /// The width in pixels.
    pub fn width(&self) -> (r: u32)
        ensures
            r == self.spec_width(),
    {
        self.width
    }

    /// The height in pixels.
    pub fn height(&self) -> (r: u32)
        ensures
            r == self.spec_height(),
    {
        self.height
    }

    /// The memory backing the image.
    pub fn chunk(&self) -> (r: Chunk)
        ensures
            r == self.spec_chunk(),
    {
        self.chunk
    }
}

} // verus!
