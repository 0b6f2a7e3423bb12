use mipidsi_async::address_window;
use mipidsi_async::interface::{Action, SpiInterface};
use mipidsi_async::models::ST7789;
use mipidsi_async::options::{ModelOptions, Orientation, Rotation};
use mipidsi_async::Builder;

fn options(rotation: Rotation, mirrored: bool) -> ModelOptions {
    let mut o = ModelOptions::with_all((135, 240), (10, 20));
    o.orientation = Orientation { rotation, mirrored };
    o
}

fn be(v: u16) -> [u8; 2] {
    v.to_be_bytes()
}

#[test]
fn window_for_every_rotation_and_mirror() {
    // size (135, 240) at offset (10, 20) in a 240x320 panel:
    // a reversed column axis starts at 240 - (135 + 10) = 95,
    // a reversed row axis at 320 - (240 + 20) = 60.
    let table = [
        (Rotation::Deg0, false, (10, 20)),
        (Rotation::Deg0, true, (95, 20)),
        (Rotation::Deg90, false, (20, 95)),
        (Rotation::Deg90, true, (20, 10)),
        (Rotation::Deg180, false, (95, 60)),
        (Rotation::Deg180, true, (10, 60)),
        (Rotation::Deg270, false, (60, 10)),
        (Rotation::Deg270, true, (60, 95)),
    ];
    for (rotation, mirrored, (ox, oy)) in table {
        let w = address_window(&options(rotation, mirrored), (240, 320), 1, 2, 9, 19);
        assert_eq!(w, (1 + ox, 2 + oy, 9 + ox, 19 + oy), "{:?} mirrored={}", rotation, mirrored);
    }
}

#[test]
fn window_saturates_instead_of_wrapping() {
    let o = ModelOptions::with_all((240, 320), (100, 100));
    assert_eq!(address_window(&o, (240, 320), 65500, 0, 65535, 1), (65535, 100, 65535, 101));
    // size plus offset beyond the panel: the reversed offset is held at zero
    let mut r = ModelOptions::with_all((240, 320), (100, 0));
    r.orientation = Orientation { rotation: Rotation::Deg0, mirrored: true };
    assert_eq!(address_window(&r, (240, 320), 5, 6, 7, 8), (5, 6, 7, 8));
}

#[test]
fn show_raw_data_writes_window_then_memory_start_then_pixels() {
    let (startup, _) = Builder::new(ST7789, SpiInterface::new((), ()))
        .display_size(135, 240)
        .display_offset(52, 40)
        .orientation(Orientation { rotation: Rotation::Deg90, mirrored: false })
        .init::<(), ()>()
        .ok()
        .unwrap();
    let display = startup.finish();
    let actions = display.show_raw_data(0, 0, 239, 134);
    // Deg90: columns reversed -> x = 240 - (135 + 52) = 53, then swapped with y = 40
    let mut col = be(40).to_vec();
    col.extend_from_slice(&be(239 + 40));
    let mut page = be(53).to_vec();
    page.extend_from_slice(&be(134 + 53));
    assert_eq!(
        actions,
        vec![
            Action::Command { instruction: 0x2A, params: col },
            Action::Command { instruction: 0x2B, params: page },
            Action::Command { instruction: 0x2C, params: vec![] },
            Action::PixelData,
        ]
    );
}
