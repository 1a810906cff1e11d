//! The shared framebuffer, modelled as plain bytes.
//!
//! Each window that has committed pixels owns one buffer of exactly
//! `width * height * 4` bytes.  The mapping and granting of the memory to
//! the peer happens at the process boundary; this module holds the logic:
//! sizing, bounds-checked writes, and the "dump" discipline — after any
//! reallocation the peer must be told about the new buffer before partial
//! writes mean anything to it.
use vstd::prelude::*;

use crate::bytes::copy_range;
use crate::bytes::push_u32_le;
use crate::bytes::u32_le_bytes;

verus! {

/// Bytes per pixel of the wire format.
pub const BYTES_PER_PIXEL: u32 = 4;

/// Widest window the protocol admits.
pub const MAX_WINDOW_WIDTH: u32 = 16384;

/// Tallest window the protocol admits.
pub const MAX_WINDOW_HEIGHT: u32 = 6144;

/// Dimensions of a window's framebuffer.
#[derive(Clone, Copy, PartialEq, Eq, Structural, Debug)]
pub struct BufferDims {
    /// Width in pixels.
    pub width: u32,
    /// Height in pixels.
    pub height: u32,
}

/// Whether a width and height are admissible framebuffer dimensions.
pub open spec fn dims_valid(width: u32, height: u32) -> bool {
    0 < width <= MAX_WINDOW_WIDTH && 0 < height <= MAX_WINDOW_HEIGHT
}

/// The byte size of a buffer of the given dimensions.
pub open spec fn byte_size(width: u32, height: u32) -> int {
    width * height * BYTES_PER_PIXEL
}

/// Admissible dimensions keep the byte size comfortably bounded.
pub proof fn lemma_byte_size_bounded(width: u32, height: u32)
    requires
        dims_valid(width, height),
    ensures
        0 < byte_size(width, height) <= 0x1800_0000,
{
    assert(width * height * BYTES_PER_PIXEL <= 0x1800_0000) by (nonlinear_arith)
        requires
            0 < width <= MAX_WINDOW_WIDTH,
            0 < height <= MAX_WINDOW_HEIGHT,
    ;
    assert(width * height * BYTES_PER_PIXEL > 0) by (nonlinear_arith)
        requires
            0 < width,
            0 < height,
    ;
}

/// A window's pixel buffer: its dimensions, its bytes, and whether the
/// peer still has to be told about the (re)allocation before pixel data
/// sent to it is meaningful.
pub struct PixelBuffer {
    /// Width in pixels.
    pub width: u32,
    /// Height in pixels.
    pub height: u32,
    /// Whether the peer has yet to be notified of this allocation.
    pub needs_dump: bool,
    /// The pixel bytes, row-major, four bytes per pixel.
    pub pixels: Vec<u8>,
}

impl PixelBuffer {
    /// Dimensions admissible and the byte length exactly matching them.
    pub open spec fn wf(self) -> bool {
        &&& dims_valid(self.width, self.height)
        &&& self.pixels@.len() == byte_size(self.width, self.height)
    }

    /// Allocates a zeroed buffer of the exact byte size the dimensions ask
    /// for, still owing the peer a dump notification.
    pub fn allocate(width: u32, height: u32) -> (r: PixelBuffer)
        requires
            dims_valid(width, height),
        ensures
            r.wf(),
            r.width == width,
            r.height == height,
            r.needs_dump,
            forall|i: int| 0 <= i < r.pixels@.len() ==> r.pixels@[i] == 0,
    {
        proof {
            lemma_byte_size_bounded(width, height);
        }
        let size = (width as usize) * (height as usize) * (BYTES_PER_PIXEL as usize);
        let mut pixels: Vec<u8> = Vec::new();
        let mut i: usize = 0;
        while i < size
            invariant
                i <= size,
                pixels@.len() == i,
                forall|k: int| 0 <= k < i ==> pixels@[k] == 0,
            decreases size - i,
        {
            pixels.push(0);
            i = i + 1;
        }
        PixelBuffer { width, height, needs_dump: true, pixels }
    }

    /// Writes `data` into the buffer at `offset`.  The span is validated
    /// first: a write that would run past the buffer is refused whole and
    /// changes nothing.
    pub fn write(&mut self, data: &Vec<u8>, offset: usize) -> (r: Result<(), MapFault>)
        requires
            old(self).wf(),
        ensures
            final(self).wf(),
            final(self).width == old(self).width,
            final(self).height == old(self).height,
            final(self).needs_dump == old(self).needs_dump,
            offset + data@.len() <= old(self).pixels@.len() ==> {
                &&& r == Ok::<(), MapFault>(())
                &&& final(self).pixels@ == old(self).pixels@.subrange(0, offset as int)
                    + data@ + old(self).pixels@.subrange(
                    offset + data@.len(),
                    old(self).pixels@.len() as int,
                )
            },
            offset + data@.len() > old(self).pixels@.len() ==> {
                &&& r == Err::<(), MapFault>(MapFault::OutOfBounds)
                &&& final(self).pixels@ == old(self).pixels@
            },
    {
        let n: usize = self.pixels.len();
        let len: usize = data.len();
        if offset > n || len > n - offset {
            return Err(MapFault::OutOfBounds);
        }
        let mut i: usize = 0;
        while i < len
            invariant
                i <= len,
                n == self.pixels@.len(),
                offset + len <= n,
                len == data@.len(),
                self.pixels@.len() == old(self).pixels@.len(),
                self.width == old(self).width,
                self.height == old(self).height,
                self.needs_dump == old(self).needs_dump,
                forall|k: int|
                    0 <= k < self.pixels@.len() && !(offset <= k < offset + i)
                        ==> self.pixels@[k] == old(self).pixels@[k],
                forall|k: int| 0 <= k < i ==> self.pixels@[offset + k] == data@[k],
            decreases len - i,
        {
            self.pixels.set(offset + i, data[i]);
            i = i + 1;
        }
        proof {
            assert(self.pixels@ =~= old(self).pixels@.subrange(0, offset as int) + data@
                + old(self).pixels@.subrange(
                offset + data@.len(),
                old(self).pixels@.len() as int,
            ));
        }
        Ok(())
    }

    /// The dump descriptor this buffer owes the peer: its dimensions on
    /// the wire; the memory grant details are supplied at the process
    /// boundary.  Taking the descriptor settles the debt.
    pub fn take_dump_descriptor(&mut self) -> (r: Vec<u8>)
        requires
            old(self).wf(),
        ensures
            final(self).wf(),
            final(self).width == old(self).width,
            final(self).height == old(self).height,
            final(self).pixels@ == old(self).pixels@,
            !final(self).needs_dump,
            r@ == u32_le_bytes(old(self).width) + u32_le_bytes(old(self).height),
    {
        self.needs_dump = false;
        let mut r: Vec<u8> = Vec::new();
        push_u32_le(&mut r, self.width);
        push_u32_le(&mut r, self.height);
        r
    }
}

/// `p` with `data` written at offset `at`.
pub open spec fn splice(p: Seq<u8>, at: int, data: Seq<u8>) -> Seq<u8> {
    p.subrange(0, at) + data + p.subrange(at + data.len(), p.len() as int)
}

/// `p` after the first `rows` rows of a row-by-row copy: row `i` takes the
/// `rowbytes` bytes at `src_start + i * src_stride` in `src` and writes
/// them at `dest_start + i * dest_stride`.
pub open spec fn blit_rows(
    p: Seq<u8>,
    src: Seq<u8>,
    src_start: int,
    src_stride: int,
    dest_start: int,
    dest_stride: int,
    rowbytes: int,
    rows: int,
) -> Seq<u8>
    decreases rows,
{
    if rows <= 0 {
        p
    } else {
        let done = blit_rows(p, src, src_start, src_stride, dest_start, dest_stride, rowbytes,
            rows - 1);
        splice(
            done,
            dest_start + (rows - 1) * dest_stride,
            src.subrange(
                src_start + (rows - 1) * src_stride,
                src_start + (rows - 1) * src_stride + rowbytes,
            ),
        )
    }
}

/// A row-by-row copy never changes the buffer's length.
pub proof fn lemma_blit_rows_len(
    p: Seq<u8>,
    src: Seq<u8>,
    src_start: int,
    src_stride: int,
    dest_start: int,
    dest_stride: int,
    rowbytes: int,
    rows: int,
)
    requires
        0 <= rowbytes,
        0 <= dest_stride,
        0 <= src_stride,
        rows >= 1 ==> 0 <= dest_start && dest_start + (rows - 1) * dest_stride + rowbytes
            <= p.len(),
        rows >= 1 ==> 0 <= src_start && src_start + (rows - 1) * src_stride + rowbytes
            <= src.len(),
    ensures
        blit_rows(p, src, src_start, src_stride, dest_start, dest_stride, rowbytes, rows).len()
            == p.len(),
    decreases rows,
{
    if rows >= 1 {
        assert((rows - 1 - 1) * dest_stride <= (rows - 1) * dest_stride && (rows - 1 - 1)
            * src_stride <= (rows - 1) * src_stride && 0 <= (rows - 1) * dest_stride && 0 <= (
        rows - 1) * src_stride) by (nonlinear_arith)
            requires
                0 <= dest_stride,
                0 <= src_stride,
                rows >= 1,
        ;
        lemma_blit_rows_len(p, src, src_start, src_stride, dest_start, dest_stride, rowbytes,
            rows - 1);
    }
}

impl PixelBuffer {
    /// Copies `rows` rows of `rowbytes` bytes each from `src` into the
    /// buffer, row `i` read at `src_start + i * src_stride` and written at
    /// `dest_start + i * dest_stride`.  The spans must fit; the caller
    /// validates them first, with nothing taken from untrusted input.
    pub fn blit(
        &mut self,
        src: &Vec<u8>,
        src_start: usize,
        src_stride: usize,
        dest_start: usize,
        dest_stride: usize,
        rowbytes: usize,
        rows: usize,
    )
        requires
            old(self).wf(),
            rows >= 1 ==> src_start + (rows - 1) * src_stride + rowbytes <= src@.len(),
            rows >= 1 ==> dest_start + (rows - 1) * dest_stride + rowbytes <= old(
                self,
            ).pixels@.len(),
        ensures
            final(self).wf(),
            final(self).width == old(self).width,
            final(self).height == old(self).height,
            final(self).needs_dump == old(self).needs_dump,
            final(self).pixels@ == blit_rows(
                old(self).pixels@,
                src@,
                src_start as int,
                src_stride as int,
                dest_start as int,
                dest_stride as int,
                rowbytes as int,
                rows as int,
            ),
    {
        let src_len: usize = src.len();
        let dest_len: usize = self.pixels.len();
        let mut i: usize = 0;
        while i < rows
            invariant
                i <= rows,
                src_len == src@.len(),
                dest_len == old(self).pixels@.len(),
                self.width == old(self).width,
                self.height == old(self).height,
                self.needs_dump == old(self).needs_dump,
                self.wf(),
                rows >= 1 ==> src_start + (rows - 1) * src_stride + rowbytes <= src@.len(),
                rows >= 1 ==> dest_start + (rows - 1) * dest_stride + rowbytes <= old(
                    self,
                ).pixels@.len(),
                self.pixels@.len() == old(self).pixels@.len(),
                self.pixels@ == blit_rows(
                    old(self).pixels@,
                    src@,
                    src_start as int,
                    src_stride as int,
                    dest_start as int,
                    dest_stride as int,
                    rowbytes as int,
                    i as int,
                ),
            decreases rows - i,
        {
            proof {
                assert((i as int) * (src_stride as int) <= (rows - 1) * (src_stride as int)
                    && (i as int) * (dest_stride as int) <= (rows - 1) * (dest_stride as int)
                    && 0 <= (i as int) * (src_stride as int) && 0 <= (i as int) * (
                dest_stride as int)) by (nonlinear_arith)
                    requires
                        0 <= i <= rows - 1,
                        0 <= src_stride,
                        0 <= dest_stride,
                ;
            }
            let row = copy_range(src, src_start + i * src_stride, src_start + i * src_stride
                + rowbytes);
            let w = self.write(&row, dest_start + i * dest_stride);
            proof {
                assert(w is Ok);
            }
            i = i + 1;
        }
    }
}

/// Error a framebuffer operation reports.
#[derive(Clone, Copy, PartialEq, Eq, Structural, Debug)]
pub enum MapFault {
    /// The requested span runs past the buffer.
    OutOfBounds,
}

/// Why a client-supplied buffer description was refused.
#[derive(Clone, Copy, PartialEq, Eq, Structural, Debug)]
pub enum BufferParamError {
    /// Width or height not between 1x1 and the protocol maximum.
    InvalidDimensions,
    /// The stride holds fewer bytes than one row of pixels needs.
    StrideTooSmall,
    /// Offset or extent runs outside the backing buffer.
    BadPool,
}

/// Validates an untrusted buffer description against the bytes actually
/// backing it: dimensions must be within protocol bounds, the stride must
/// hold at least one row of pixels, and `offset + stride * height` must
/// stay within the backing length.  Nothing is trusted from the
/// description itself.
pub fn validate_buffer_params(
    buffer_len: usize,
    offset: i32,
    width: i32,
    height: i32,
    stride: i32,
) -> (r: Result<BufferDims, BufferParamError>)
    requires
        buffer_len <= i32::MAX,
    ensures
        (width <= 0 || height <= 0 || width > MAX_WINDOW_WIDTH as i32 || height
            > MAX_WINDOW_HEIGHT as i32) ==> r == Err::<BufferDims, BufferParamError>(
            BufferParamError::InvalidDimensions,
        ),
        (0 < width <= MAX_WINDOW_WIDTH as i32 && 0 < height <= MAX_WINDOW_HEIGHT as i32)
            ==> {
            if stride < 4 * width {
                r == Err::<BufferDims, BufferParamError>(BufferParamError::StrideTooSmall)
            } else if offset < 0 || offset >= buffer_len || stride * height > buffer_len
                - offset {
                r == Err::<BufferDims, BufferParamError>(BufferParamError::BadPool)
            } else {
                r == Ok::<BufferDims, BufferParamError>(
                    BufferDims { width: width as u32, height: height as u32 },
                )
            }
        },
{
    if width <= 0 || height <= 0 || width > MAX_WINDOW_WIDTH as i32 || height
        > MAX_WINDOW_HEIGHT as i32 {
        return Err(BufferParamError::InvalidDimensions);
    }
    if stride < 4 * width {
        return Err(BufferParamError::StrideTooSmall);
    }
    let len = buffer_len as i32;
    if offset < 0 || offset >= len {
        return Err(BufferParamError::BadPool);
    }
    proof {
        assert(0 <= (stride as int) * (height as int) <= 0x7fff_ffff * 6144) by (nonlinear_arith)
            requires
                4 <= stride <= i32::MAX,
                0 < height <= 6144,
        ;
    }
    if (stride as i64) * (height as i64) > (len as i64) - (offset as i64) {
        return Err(BufferParamError::BadPool);
    }
    Ok(BufferDims { width: width as u32, height: height as u32 })
}

/// Returns a buffer of exactly the requested dimensions: the existing one
/// when it already matches, a fresh one — owing the peer a dump — when
/// there is none or its size differs.  The replaced buffer is dropped
/// whole; nothing of it leaks into the new one.
pub fn ensure_sized(buf: Option<PixelBuffer>, width: u32, height: u32) -> (r: PixelBuffer)
    requires
        dims_valid(width, height),
        buf matches Some(b) ==> b.wf(),
    ensures
        r.wf(),
        r.width == width,
        r.height == height,
        match buf {
            None => r.needs_dump,
            Some(b) => {
                &&& (b.width == width && b.height == height) ==> r == b
                &&& (b.width != width || b.height != height) ==> r.needs_dump
            },
        },
{
    match buf {
        Some(b) => {
            if b.width == width && b.height == height {
                b
            } else {
                PixelBuffer::allocate(width, height)
            }
        },
        None => PixelBuffer::allocate(width, height),
    }
}

} // verus!
