use mipidsi_async::interface::{Action, OutputBus, ParallelInterface, SixteenBit, SpiInterface};
use mipidsi_async::models::{ModelInitError, GC9107, RM67162, ST7789};
use mipidsi_async::options::{ColorOrder, Orientation, Rotation};
use mipidsi_async::dcs::{BitsPerPixel, PixelFormat};
use mipidsi_async::models::init_common;
use mipidsi_async::options::ModelOptions;
use mipidsi_async::{Builder, ConfigurationError, InitError, Rejection};

struct Bus16;

impl OutputBus for Bus16 {
    type Word = u16;
    type Width = SixteenBit;
    type Error = ();

    fn set_value(&mut self, _value: u16) -> Result<(), ()> {
        Ok(())
    }
}

fn config_error<T, DI, RST>(r: Result<T, Rejection<DI, RST, (), ()>>) -> Option<ConfigurationError> {
    match r {
        Err(Rejection { error: InitError::InvalidConfiguration(e), .. }) => Some(e),
        _ => None,
    }
}

fn st7789(width: usize, height: usize, x: u16, y: u16) -> Option<ConfigurationError> {
    config_error(
        Builder::new(ST7789, SpiInterface::new((), ()))
            .display_size(width, height)
            .display_offset(x, y)
            .init::<(), ()>(),
    )
}

#[test]
fn rejects_zero_width() {
    assert_eq!(st7789(0, 320, 0, 0), Some(ConfigurationError::InvalidDisplaySize));
}

#[test]
fn rejects_zero_height() {
    assert_eq!(st7789(240, 0, 0, 0), Some(ConfigurationError::InvalidDisplaySize));
}

#[test]
fn rejects_width_beyond_framebuffer() {
    assert_eq!(st7789(241, 320, 0, 0), Some(ConfigurationError::InvalidDisplaySize));
    assert_eq!(st7789(240, 321, 0, 0), Some(ConfigurationError::InvalidDisplaySize));
    // a width that a 16-bit cast would fold back into range
    assert_eq!(st7789(65536 + 100, 320, 0, 0), Some(ConfigurationError::InvalidDisplaySize));
}

#[test]
fn rejects_offset_beyond_framebuffer() {
    assert_eq!(st7789(240, 320, 1, 0), Some(ConfigurationError::InvalidDisplayOffset));
    assert_eq!(st7789(200, 300, 0, 21), Some(ConfigurationError::InvalidDisplayOffset));
    assert_eq!(st7789(200, 300, 65535, 0), Some(ConfigurationError::InvalidDisplayOffset));
}

#[test]
fn accepts_boundary_equal_configuration() {
    assert_eq!(st7789(200, 300, 40, 20), None);
    assert_eq!(st7789(240, 320, 0, 0), None);
    assert!(Builder::new(ST7789, SpiInterface::new((), ()))
        .display_size(200, 300)
        .display_offset(40, 20)
        .init::<(), ()>()
        .is_ok());
}

#[test]
fn unsupported_interface_fails_init() {
    let gc = Builder::new(GC9107, ParallelInterface::new(Bus16, (), ())).init::<(), ()>();
    assert_eq!(config_error(gc), Some(ConfigurationError::UnsupportedInterface));
    let rm = Builder::new(RM67162, ParallelInterface::new(Bus16, (), ())).init::<(), ()>();
    assert_eq!(config_error(rm), Some(ConfigurationError::UnsupportedInterface));
    // the same bus suits the ST7789
    assert!(Builder::new(ST7789, ParallelInterface::new(Bus16, (), ())).init::<(), ()>().is_ok());
}

#[test]
fn unsupported_interface_still_resets() {
    match Builder::new(GC9107, ParallelInterface::new(Bus16, (), ())).init::<(), ()>() {
        Err(rejection) => {
            assert!(matches!(
                rejection.error,
                InitError::InvalidConfiguration(ConfigurationError::UnsupportedInterface)
            ));
            assert_eq!(rejection.actions, vec![Action::Command { instruction: 0x01, params: vec![] }]);
            assert!(rejection.rst.is_none());
        }
        Ok(_) => panic!("GC9107 accepted a 16-bit bus"),
    }
    match Builder::new(RM67162, ParallelInterface::new(Bus16, (), ())).reset_pin(5u8).init::<(), ()>() {
        Err(rejection) => {
            assert_eq!(
                rejection.actions,
                vec![Action::ResetLow, Action::DelayUs(10), Action::ResetHigh, Action::DelayUs(10_000)]
            );
            assert_eq!(rejection.rst, Some(5u8));
        }
        Ok(_) => panic!("RM67162 accepted a 16-bit bus"),
    }
}

#[test]
fn invalid_size_plans_nothing() {
    match Builder::new(ST7789, SpiInterface::new(1u8, 2u8)).display_size(0, 1).init::<(), ()>() {
        Err(rejection) => {
            assert!(rejection.actions.is_empty());
            assert_eq!(rejection.di.release(), (1, 2));
        }
        Ok(_) => panic!("zero width accepted"),
    }
}

#[test]
fn st7789_bring_up_sequence() {
    let (_, actions) = Builder::new(ST7789, SpiInterface::new((), ()))
        .invert_colors(mipidsi_async::options::ColorInversion::Inverted)
        .init::<(), ()>()
        .ok()
        .unwrap();
    let cmd = |instruction: u8, params: Vec<u8>| Action::Command { instruction, params };
    assert_eq!(
        actions,
        vec![
            cmd(0x01, vec![]),
            Action::DelayUs(150_000),
            cmd(0x11, vec![]),
            Action::DelayUs(10_000),
            cmd(0x36, vec![0x00]),
            cmd(0x21, vec![]),
            cmd(0x3A, vec![0x55]),
            Action::DelayUs(10_000),
            cmd(0x13, vec![]),
            Action::DelayUs(10_000),
            cmd(0x29, vec![]),
            Action::DelayUs(120_000),
        ]
    );
}

#[test]
fn ili948x_common_bring_up() {
    let mut actions = vec![Action::ResetLow];
    let madctl = init_common(
        &ModelOptions::with_all((320, 480), (0, 0)),
        PixelFormat::with_all(BitsPerPixel::Eighteen),
        &mut actions,
    );
    assert_eq!(madctl.0, 0);
    let cmd = |instruction: u8, params: Vec<u8>| Action::Command { instruction, params };
    assert_eq!(
        actions,
        vec![
            Action::ResetLow,
            cmd(0x11, vec![]),
            cmd(0x3A, vec![0x66]),
            cmd(0x36, vec![0x00]),
            cmd(0x20, vec![]),
            cmd(0xB6, vec![0x02, 0x02, 0x3B]),
            cmd(0x13, vec![]),
            cmd(0x29, vec![]),
            Action::DelayUs(120_000),
        ]
    );
}

#[test]
fn size_is_checked_before_interface() {
    let gc = Builder::new(GC9107, ParallelInterface::new(Bus16, (), ()))
        .display_size(0, 10)
        .init::<(), ()>();
    assert_eq!(config_error(gc), Some(ConfigurationError::InvalidDisplaySize));
}

#[test]
fn software_reset_without_pin() {
    let (_, actions) = Builder::new(ST7789, SpiInterface::new((), ())).init::<(), ()>().ok().unwrap();
    assert_eq!(actions[0], Action::Command { instruction: 0x01, params: vec![] });
    assert_eq!(actions.last(), Some(&Action::DelayUs(120_000)));
}

#[test]
fn reset_pulse_with_pin() {
    let (_, actions) = Builder::new(ST7789, SpiInterface::new((), ()))
        .reset_pin(7u8)
        .init::<(), ()>()
        .ok()
        .unwrap();
    assert_eq!(
        actions[..4].to_vec(),
        vec![Action::ResetLow, Action::DelayUs(10), Action::ResetHigh, Action::DelayUs(10_000)]
    );
}

#[test]
fn init_writes_address_mode_of_options() {
    let (startup, actions) = Builder::new(ST7789, SpiInterface::new((), ()))
        .color_order(ColorOrder::Bgr)
        .orientation(Orientation { rotation: Rotation::Deg90, mirrored: false })
        .init::<(), ()>()
        .ok()
        .unwrap();
    // column reversal 0x40, row/column exchange 0x20, BGR 0x08
    assert!(actions.contains(&Action::Command { instruction: 0x36, params: vec![0x68] }));
    assert!(actions.contains(&Action::Command { instruction: 0x3A, params: vec![0x55] }));
    assert!(actions.contains(&Action::Command { instruction: 0x20, params: vec![] }));
    let display = startup.finish();
    assert!(!display.is_sleeping());
    assert_eq!(display.orientation(), Orientation { rotation: Rotation::Deg90, mirrored: false });
}

#[test]
fn gc9107_bring_up_over_serial() {
    let (_, actions) = Builder::new(GC9107, SpiInterface::new((), ())).init::<(), ()>().ok().unwrap();
    assert_eq!(actions[1], Action::DelayUs(200_000));
    assert!(actions.contains(&Action::Command { instruction: 0x36, params: vec![0x00] }));
    assert_eq!(actions.last(), Some(&Action::Command { instruction: 0x29, params: vec![] }));
}

#[test]
fn rm67162_bring_up_over_serial() {
    let (_, actions) = Builder::new(RM67162, SpiInterface::new((), ())).init::<(), ()>().ok().unwrap();
    assert_eq!(actions[1], Action::Command { instruction: 0xFE, params: vec![0x04] });
    assert!(actions.contains(&Action::Command { instruction: 0x11, params: vec![] }));
}

#[test]
fn model_errors_convert() {
    let e: ModelInitError<u8> = ModelInitError::from(3u8);
    assert!(matches!(e, ModelInitError::Interface(3)));
    let i: InitError<u8, ()> = InitError::from(e);
    assert!(matches!(i, InitError::Interface(3)));
    let c: InitError<u8, ()> =
        InitError::from(ModelInitError::InvalidConfiguration(ConfigurationError::UnsupportedInterface));
    assert!(matches!(c, InitError::InvalidConfiguration(ConfigurationError::UnsupportedInterface)));
}
