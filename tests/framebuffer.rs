use embedded_graphics_core::pixelcolor::{Rgb565, Rgb888};
use mipidsi_async::raw_framebuf::{IntoRawBytes, RawFrameBuf};

type Buf = RawFrameBuf<Rgb565, Vec<u8>, 2>;

#[test]
fn dimensions_and_active_bytes() {
    let fb: Buf = RawFrameBuf::new(vec![7u8; 14], 2, 3);
    assert_eq!((fb.width(), fb.height()), (2, 3));
    assert_eq!(fb.as_bytes(), &[7u8; 12][..]);
}

#[test]
fn set_pixel_writes_its_bytes_only() {
    let mut fb: Buf = RawFrameBuf::new(vec![0u8; 12], 2, 3);
    fb.set_pixel(1, 2, [0xAB, 0xCD]);
    let mut expected = vec![0u8; 12];
    expected[10] = 0xAB;
    expected[11] = 0xCD;
    assert_eq!(fb.as_bytes(), &expected[..]);
    // outside the framebuffer: nothing changes
    fb.set_pixel(2, 0, [1, 1]);
    fb.set_pixel(0, 3, [1, 1]);
    fb.set_pixel(-1, 0, [1, 1]);
    assert_eq!(fb.as_bytes(), &expected[..]);
}

#[test]
fn fill_covers_active_bytes_only() {
    let mut fb: Buf = RawFrameBuf::new(vec![9u8; 6], 1, 2);
    fb.fill([1, 2]);
    assert_eq!(fb.as_bytes(), &[1, 2, 1, 2][..]);
    let mut m = fb;
    let bytes = m.as_mut_bytes();
    assert_eq!(bytes.len(), 4);
    bytes[0] = 5;
    assert_eq!(m.as_bytes(), &[5, 2, 1, 2][..]);
}

#[test]
fn fill_rect_covers_its_pixels() {
    let mut fb: Buf = RawFrameBuf::new(vec![0u8; 12], 2, 3);
    fb.fill_rect(1, 0, 1, 2, [9, 8]);
    assert_eq!(fb.as_bytes(), &[0, 0, 9, 8, 0, 0, 9, 8, 0, 0, 0, 0][..]);
    fb.fill_rect(0, 2, 2, 1, [3, 3]);
    assert_eq!(fb.as_bytes(), &[0, 0, 9, 8, 0, 0, 9, 8, 3, 3, 3, 3][..]);
}

#[test]
fn colors_to_raw_bytes() {
    assert_eq!(Rgb565::new(31, 0, 0).into_raw_bytes(), [0xF8, 0x00]);
    assert_eq!(Rgb565::new(0, 63, 1).into_raw_bytes(), [0x07, 0xE1]);
    assert_eq!(Rgb888::new(1, 2, 3).into_raw_bytes(), [1, 2, 3]);
}

#[test]
fn borrowed_slice_as_buffer() {
    let mut storage = [0u8; 9];
    {
        let mut fb: RawFrameBuf<Rgb888, &mut [u8], 3> = RawFrameBuf::new(&mut storage[..], 1, 3);
        fb.fill_rect(0, 1, 1, 2, [4, 5, 6]);
        fb.set_pixel(0, 0, [1, 2, 3]);
        assert_eq!(fb.as_bytes(), &[1, 2, 3, 4, 5, 6, 4, 5, 6][..]);
    }
    assert_eq!(storage, [1, 2, 3, 4, 5, 6, 4, 5, 6]);
}
