use mipidsi_async::dcs::{
    write_command, write_raw, BitsPerPixel, DcsCommand, PixelFormat, SetAddressMode,
    SetColumnAddress, SetInvertMode, SetPageAddress, SetPixelFormat, SetScrollArea,
    SetScrollStart, SetTearingEffect,
};
use mipidsi_async::interface::{
    interface_kind, Action, BusStep, InterfaceKind, ParallelInterface, SixteenBit, SpiInterface,
};
use mipidsi_async::options::{
    ColorInversion, ColorOrder, HorizontalRefreshOrder, MemoryMapping, ModelOptions, Orientation,
    RefreshOrder, Rotation, TearingEffect, VerticalRefreshOrder,
};

#[test]
fn column_address_serializes_big_endian() {
    let c = SetColumnAddress::new(0, 239);
    assert_eq!(c.instruction(), 0x2A);
    assert_eq!(c.params(), vec![0x00, 0x00, 0x00, 0xEF]);
    assert_eq!(
        write_command(&c),
        Action::Command { instruction: 0x2A, params: vec![0x00, 0x00, 0x00, 0xEF] }
    );
}

#[test]
fn page_address_and_scroll_commands() {
    assert_eq!(SetPageAddress::new(0x0102, 0x0304).params(), vec![1, 2, 3, 4]);
    assert_eq!(SetPageAddress::new(0, 0).instruction(), 0x2B);
    let a = SetScrollArea::new(1, 0x0203, 4);
    assert_eq!((a.instruction(), a.params()), (0x33, vec![0, 1, 2, 3, 0, 4]));
    assert_eq!(SetScrollStart::new(300).params(), vec![0x01, 0x2C]);
}

#[test]
fn invert_and_tearing_commands() {
    assert_eq!(SetInvertMode::new(ColorInversion::Normal).instruction(), 0x20);
    assert_eq!(SetInvertMode::new(ColorInversion::Inverted).instruction(), 0x21);
    let v = SetTearingEffect::new(TearingEffect::Vertical);
    assert_eq!((v.instruction(), v.params()), (0x35, vec![0]));
}

#[test]
fn pixel_format_of_rgb565() {
    assert_eq!(BitsPerPixel::rgb565(), BitsPerPixel::Sixteen);
    let pf = PixelFormat::with_all(BitsPerPixel::rgb565());
    assert_eq!(pf.as_u8(), 0x55);
    assert_eq!(SetPixelFormat::new(pf).params(), vec![0x55]);
    assert_eq!(PixelFormat::with_all(BitsPerPixel::Eighteen).as_u8(), 0x66);
    assert_eq!(BitsPerPixel::from_bits(24), Some(BitsPerPixel::TwentyFour));
    assert_eq!(BitsPerPixel::from_bits(17), None);
}

#[test]
fn address_mode_bits() {
    let default = ModelOptions::with_all((10, 10), (0, 0));
    assert_eq!(SetAddressMode::from_options(&default).params(), vec![0x00]);
    let all = SetAddressMode::new(
        ColorOrder::Bgr,
        Orientation { rotation: Rotation::Deg270, mirrored: true },
        RefreshOrder::new(VerticalRefreshOrder::BottomToTop, HorizontalRefreshOrder::RightToLeft),
    );
    // rows reversed, columns reversed by the mirror, swapped, plus the three order bits
    assert_eq!(all.0, 0x80 | 0x40 | 0x20 | 0x10 | 0x08 | 0x04);
    assert_eq!(all.instruction(), 0x36);
}

#[test]
fn memory_mapping_of_orientations() {
    let m = MemoryMapping::from_orientation(Orientation { rotation: Rotation::Deg180, mirrored: true });
    assert_eq!(
        m,
        MemoryMapping { reverse_rows: true, reverse_columns: false, swap_rows_and_columns: false }
    );
    let m = MemoryMapping::from_orientation(Orientation { rotation: Rotation::Deg90, mirrored: false });
    assert_eq!(
        m,
        MemoryMapping { reverse_rows: false, reverse_columns: true, swap_rows_and_columns: true }
    );
}

#[test]
fn raw_command() {
    assert_eq!(write_raw(0xB6, vec![2, 2, 0x3B]), Action::Command { instruction: 0xB6, params: vec![2, 2, 0x3B] });
}

#[test]
fn serial_framing() {
    assert_eq!(
        SpiInterface::<(), ()>::command_steps(0x2A, &[1, 2]),
        vec![BusStep::DcLow, BusStep::Block(vec![0x2A]), BusStep::DcHigh, BusStep::Block(vec![1, 2])]
    );
    assert_eq!(interface_kind::<SpiInterface<(), ()>>(), InterfaceKind::Serial4Line);
}

#[test]
fn parallel_framing() {
    assert_eq!(
        ParallelInterface::<(), (), ()>::command_steps(0x2A, &[1, 2]),
        vec![BusStep::DcLow, BusStep::Word(0x2A), BusStep::DcHigh, BusStep::Word(1), BusStep::Word(2)]
    );
    struct Bus16;
    impl mipidsi_async::interface::OutputBus for Bus16 {
        type Word = u16;
        type Width = SixteenBit;
        type Error = ();
        fn set_value(&mut self, _value: u16) -> Result<(), ()> {
            Ok(())
        }
    }
    assert_eq!(interface_kind::<ParallelInterface<Bus16, (), ()>>(), InterfaceKind::Parallel16Bit);
    // no arguments: the line stays low
    assert_eq!(
        ParallelInterface::<(), (), ()>::command_steps(0x29, &[]),
        vec![BusStep::DcLow, BusStep::Word(0x29)]
    );
}

#[test]
fn interfaces_release_their_parts() {
    let (a, b) = SpiInterface::new(1u8, 2u16).release();
    assert_eq!((a, b), (1, 2));
    let (a, b, c) = ParallelInterface::new(1u8, 2u16, 3u32).release();
    assert_eq!((a, b, c), (1, 2, 3));
}

#[test]
fn refresh_order_flips() {
    let r = RefreshOrder::default();
    assert_eq!(r, RefreshOrder::new(VerticalRefreshOrder::TopToBottom, HorizontalRefreshOrder::LeftToRight));
    assert_eq!(r.flip_vertical().vertical, VerticalRefreshOrder::BottomToTop);
    assert_eq!(r.flip_vertical().horizontal, HorizontalRefreshOrder::LeftToRight);
    assert_eq!(r.flip_horizontal().horizontal, HorizontalRefreshOrder::RightToLeft);
    assert_eq!(VerticalRefreshOrder::BottomToTop.flip(), VerticalRefreshOrder::TopToBottom);
    assert_eq!(HorizontalRefreshOrder::RightToLeft.flip(), HorizontalRefreshOrder::LeftToRight);
}

#[test]
fn rotations() {
    assert_eq!(Rotation::from_degrees(270), Ok(Rotation::Deg270));
    assert!(Rotation::from_degrees(45).is_err());
    assert!(Rotation::from_degrees(360).is_err());
    assert_eq!(Rotation::Deg270.rotate(Rotation::Deg180), Rotation::Deg90);
    assert_eq!(Rotation::Deg90.to_degrees(), 90);
    assert!(Rotation::Deg270.is_vertical());
    assert!(Rotation::Deg180.is_horizontal());
    let o = Orientation::new().rotate(Rotation::Deg90).flip_vertical();
    assert_eq!(o, Orientation { rotation: Rotation::Deg270, mirrored: true });
    assert_eq!(Orientation::default().flip_horizontal(), Orientation { rotation: Rotation::Deg0, mirrored: true });
}

#[test]
fn options_defaults_and_oriented_size() {
    let mut o = ModelOptions::with_all((135, 240), (52, 40));
    assert_eq!(o.color_order, ColorOrder::Rgb);
    assert_eq!(o.invert_colors, ColorInversion::Normal);
    assert_eq!(o.display_size(), (135, 240));
    o.orientation = Orientation { rotation: Rotation::Deg90, mirrored: false };
    assert_eq!(o.display_size(), (240, 135));
    let full = ModelOptions::full_size::<mipidsi_async::models::ST7789>();
    assert_eq!((full.display_size, full.display_offset), ((240, 320), (0, 0)));
}
