use qubes_gui_agent::framebuffer::ensure_sized;
use qubes_gui_agent::framebuffer::validate_buffer_params;
use qubes_gui_agent::framebuffer::BufferDims;
use qubes_gui_agent::framebuffer::BufferParamError;
use qubes_gui_agent::framebuffer::MapFault;
use qubes_gui_agent::framebuffer::PixelBuffer;

#[test]
fn allocation_is_exactly_sized_and_owes_a_dump() {
    let buf = PixelBuffer::allocate(10, 4);
    assert_eq!(buf.width, 10);
    assert_eq!(buf.height, 4);
    assert_eq!(buf.pixels.len(), 10 * 4 * 4);
    assert!(buf.needs_dump);
    assert!(buf.pixels.iter().all(|b| *b == 0));
}

#[test]
fn ensure_sized_keeps_matching_buffer() {
    let mut buf = PixelBuffer::allocate(8, 8);
    buf.write(&vec![7u8; 4], 0).unwrap();
    let _ = buf.take_dump_descriptor();
    let kept = ensure_sized(Some(buf), 8, 8);
    // Same dimensions: the buffer, its contents and its settled dump debt
    // are all kept.
    assert_eq!(kept.pixels[0], 7);
    assert!(!kept.needs_dump);
}

#[test]
fn ensure_sized_reallocates_on_resize() {
    let mut buf = PixelBuffer::allocate(8, 8);
    buf.write(&vec![7u8; 4], 0).unwrap();
    let fresh = ensure_sized(Some(buf), 16, 8);
    assert_eq!(fresh.width, 16);
    assert_eq!(fresh.pixels.len(), 16 * 8 * 4);
    assert!(fresh.needs_dump);
    // Nothing of the old contents leaks into the replacement.
    assert!(fresh.pixels.iter().all(|b| *b == 0));
}

#[test]
fn ensure_sized_allocates_when_absent() {
    let buf = ensure_sized(None, 3, 5);
    assert_eq!((buf.width, buf.height), (3, 5));
    assert!(buf.needs_dump);
}

#[test]
fn write_splices_exact_span() {
    let mut buf = PixelBuffer::allocate(2, 2);
    assert_eq!(buf.write(&vec![1, 2, 3, 4], 4), Ok(()));
    assert_eq!(&buf.pixels[0..4], &[0, 0, 0, 0]);
    assert_eq!(&buf.pixels[4..8], &[1, 2, 3, 4]);
    assert_eq!(&buf.pixels[8..16], &[0; 8]);
}

#[test]
fn write_past_the_end_is_refused_whole() {
    let mut buf = PixelBuffer::allocate(2, 2);
    assert_eq!(buf.write(&vec![1; 8], 12), Err(MapFault::OutOfBounds));
    assert_eq!(buf.write(&vec![1; 4], 16), Err(MapFault::OutOfBounds));
    assert!(buf.pixels.iter().all(|b| *b == 0));
    // The last in-bounds span is still accepted.
    assert_eq!(buf.write(&vec![1; 4], 12), Ok(()));
    assert_eq!(&buf.pixels[12..16], &[1, 1, 1, 1]);
}

#[test]
fn buffer_params_accept_a_sound_description() {
    // 4x2 pixels at offset 8, stride 16, in a 48-byte pool.
    assert_eq!(
        validate_buffer_params(48, 8, 4, 2, 16),
        Ok(BufferDims { width: 4, height: 2 })
    );
}

#[test]
fn buffer_params_reject_bad_dimensions() {
    assert_eq!(validate_buffer_params(64, 0, 0, 2, 16), Err(BufferParamError::InvalidDimensions));
    assert_eq!(validate_buffer_params(64, 0, 4, -1, 16), Err(BufferParamError::InvalidDimensions));
    assert_eq!(
        validate_buffer_params(64, 0, 16385, 1, 65540),
        Err(BufferParamError::InvalidDimensions)
    );
    assert_eq!(
        validate_buffer_params(64, 0, 1, 6145, 4),
        Err(BufferParamError::InvalidDimensions)
    );
}

#[test]
fn buffer_params_reject_short_stride() {
    // 4 pixels need 16 bytes per row; a stride of 15 cannot hold them.
    assert_eq!(validate_buffer_params(64, 0, 4, 2, 15), Err(BufferParamError::StrideTooSmall));
    assert_eq!(validate_buffer_params(64, 0, 4, 2, -16), Err(BufferParamError::StrideTooSmall));
}

#[test]
fn buffer_params_reject_spans_outside_the_pool() {
    assert_eq!(validate_buffer_params(48, -1, 4, 2, 16), Err(BufferParamError::BadPool));
    assert_eq!(validate_buffer_params(48, 48, 4, 2, 16), Err(BufferParamError::BadPool));
    // offset 20 + 2 rows of stride 16 needs 52 bytes; only 48 exist.
    assert_eq!(validate_buffer_params(48, 20, 4, 2, 16), Err(BufferParamError::BadPool));
    // A stride * height product that overflows 32 bits is a bad pool, not
    // a wraparound.
    assert_eq!(
        validate_buffer_params(0x7fff_f000, 0, 16384, 6144, 0x7fff_fff0),
        Err(BufferParamError::BadPool)
    );
}

#[test]
fn blit_copies_rows_between_strides() {
    let mut buf = PixelBuffer::allocate(4, 4); // 64 bytes, 16 per row
    // Source: 2 rows of 8 bytes each, packed at stride 8 after a 4-byte
    // prefix.
    let src = vec![
        9, 9, 9, 9, // skipped prefix
        1, 2, 3, 4, 5, 6, 7, 8, // row 0
        11, 12, 13, 14, 15, 16, 17, 18, // row 1
    ];
    // Write the two 8-byte rows at pixel (1, 1): byte offset 16 + 4.
    buf.blit(&src, 4, 8, 20, 16, 8, 2);
    assert_eq!(&buf.pixels[20..28], &[1, 2, 3, 4, 5, 6, 7, 8]);
    assert_eq!(&buf.pixels[36..44], &[11, 12, 13, 14, 15, 16, 17, 18]);
    // Everything around the two rows is untouched.
    assert_eq!(&buf.pixels[0..20], &[0; 20]);
    assert_eq!(&buf.pixels[28..36], &[0; 8]);
    assert_eq!(&buf.pixels[44..64], &[0; 20]);
}

#[test]
fn dump_descriptor_carries_dimensions_and_settles_debt() {
    let mut buf = PixelBuffer::allocate(640, 480);
    assert!(buf.needs_dump);
    let d = buf.take_dump_descriptor();
    assert!(!buf.needs_dump);
    assert_eq!(&d[0..4], &640u32.to_le_bytes());
    assert_eq!(&d[4..8], &480u32.to_le_bytes());
}
