use mipidsi_async::interface::{Action, SpiInterface};
use mipidsi_async::models::ST7789;
use mipidsi_async::options::{ColorInversion, Orientation, Rotation, TearingEffect};
use mipidsi_async::{Builder, Completion, Display};

type Session = Display<SpiInterface<(), ()>, ST7789, mipidsi_async::NoResetPin>;

fn session() -> Session {
    let (startup, _) = Builder::new(ST7789, SpiInterface::new((), ())).init::<(), ()>().ok().unwrap();
    startup.finish()
}

#[test]
fn sleep_then_wake_leaves_session_awake_and_usable() {
    let mut d = session();
    let op = d.sleep();
    assert_eq!(
        op.actions,
        vec![Action::Command { instruction: 0x10, params: vec![] }, Action::DelayUs(120_000)]
    );
    d.complete(op.completion);
    assert!(d.is_sleeping());
    let op = d.wake();
    assert_eq!(
        op.actions,
        vec![Action::Command { instruction: 0x11, params: vec![] }, Action::DelayUs(120_000)]
    );
    d.complete(op.completion);
    assert!(!d.is_sleeping());
    let actions = d.show_raw_data(0, 0, 0, 0);
    assert_eq!(actions.len(), 4);
    assert_eq!(actions[2], Action::Command { instruction: 0x2C, params: vec![] });
    assert_eq!(actions[3], Action::PixelData);
}

#[test]
fn failed_sleep_is_not_recorded() {
    let d = session();
    let _op = d.sleep();
    // the host did not report success, so nothing is recorded
    assert!(!d.is_sleeping());
}

#[test]
fn scroll_region_fits() {
    let d = session();
    // 320 rows: 10 fixed at the top, 20 at the bottom, 290 scrolling
    assert_eq!(
        d.set_vertical_scroll_region(10, 20),
        vec![Action::Command { instruction: 0x33, params: vec![0, 10, 0x01, 0x22, 0, 20] }]
    );
}

#[test]
fn scroll_region_degenerates_when_fixed_areas_exceed_rows() {
    let d = session();
    let all_fixed = vec![Action::Command { instruction: 0x33, params: vec![0x01, 0x40, 0, 0, 0, 0] }];
    assert_eq!(d.set_vertical_scroll_region(200, 200), all_fixed);
    assert_eq!(d.set_vertical_scroll_region(60000, 60000), all_fixed);
    // exactly all rows fixed still fits
    assert_eq!(
        d.set_vertical_scroll_region(300, 20),
        vec![Action::Command { instruction: 0x33, params: vec![0x01, 0x2C, 0, 0, 0, 20] }]
    );
}

#[test]
fn scroll_offset_and_tearing_effect() {
    let d = session();
    assert_eq!(
        d.set_vertical_scroll_offset(0x1234),
        vec![Action::Command { instruction: 0x37, params: vec![0x12, 0x34] }]
    );
    assert_eq!(
        d.set_tearing_effect(TearingEffect::Off),
        vec![Action::Command { instruction: 0x34, params: vec![] }]
    );
    assert_eq!(
        d.set_tearing_effect(TearingEffect::HorizontalAndVertical),
        vec![Action::Command { instruction: 0x35, params: vec![1] }]
    );
}

#[test]
fn set_orientation_rewrites_address_mode() {
    let mut d = session();
    let o = Orientation { rotation: Rotation::Deg180, mirrored: false };
    let op = d.set_orientation(o);
    assert_eq!(d.orientation(), o);
    assert_eq!(op.actions, vec![Action::Command { instruction: 0x36, params: vec![0xC0] }]);
    match op.completion {
        Completion::AddressMode(m) => assert_eq!(m.0, 0xC0),
        other => panic!("unexpected completion {:?}", other),
    }
    d.complete(op.completion);
    assert_eq!(d.orientation(), o);
}

#[test]
fn release_then_rebuild_gives_equivalent_session() {
    let o = Orientation { rotation: Rotation::Deg270, mirrored: true };
    let (startup, first_plan) = Builder::new(ST7789, SpiInterface::new((), ()))
        .display_size(135, 240)
        .display_offset(52, 40)
        .orientation(o)
        .invert_colors(ColorInversion::Inverted)
        .init::<(), ()>()
        .ok()
        .unwrap();
    let d = startup.finish();
    let window = d.show_raw_data(3, 4, 50, 60);
    let (di, model, rst) = d.release();
    assert!(rst.is_none());
    let (startup, second_plan) = Builder::new(model, di)
        .display_size(135, 240)
        .display_offset(52, 40)
        .orientation(o)
        .invert_colors(ColorInversion::Inverted)
        .init::<(), ()>()
        .ok()
        .unwrap();
    let e = startup.finish();
    assert_eq!(first_plan, second_plan);
    assert_eq!(e.orientation(), o);
    assert!(!e.is_sleeping());
    assert_eq!(e.show_raw_data(3, 4, 50, 60), window);
}

#[test]
fn release_then_configure_rebuilds_session() {
    let (startup, first_plan) = Builder::new(ST7789, SpiInterface::new((), ()))
        .display_size(200, 300)
        .display_offset(40, 20)
        .orientation(Orientation { rotation: Rotation::Deg90, mirrored: false })
        .reset_pin(3u8)
        .init::<(), ()>()
        .ok()
        .unwrap();
    let d = startup.finish();
    let options = d.model_options();
    let (di, model, rst) = d.release();
    let (startup, second_plan) = Builder::new(model, di)
        .configure(&options)
        .reset_pin(rst.unwrap())
        .init::<(), ()>()
        .ok()
        .unwrap();
    let e = startup.finish();
    assert_eq!(first_plan, second_plan);
    assert_eq!(e.model_options().display_size, (200, 300));
    assert_eq!(e.model_options().display_offset, (40, 20));
    assert_eq!(e.orientation(), options.orientation);
    assert!(!e.is_sleeping());
}

#[test]
fn raw_interface_is_reachable() {
    let mut d = session();
    let di = d.raw_interface_mut();
    let (spi, dc) = di.parts_mut();
    *spi = ();
    *dc = ();
    assert!(!d.is_sleeping());
}
