use vstd::prelude::*;

use crate::builder::ConfigurationError;
use crate::dcs::{
    command_view, write_command, BitsPerPixel, ExitSleepMode, PixelFormat, SetAddressMode,
    SetDisplayOn, SetInvertMode, SetPixelFormat,
};
use crate::interface::{plan, Action, ActionView, InterfaceKind};
use crate::models::{raw_view, write_raw1, Model};
use crate::options::ModelOptions;

verus! {

/// RM67162 AMOLED display in Rgb565 color mode, 240x536.
///
/// Only tested with 240x536 panels (as on the Lilygo T-Display-S3 AMOLED v2);
/// the bring-up follows the vendor's example code.
pub struct RM67162;

impl Model for RM67162 {
    open spec fn spec_framebuffer_size() -> (u16, u16) {
        (240, 536)
    }

    fn framebuffer_size() -> (r: (u16, u16)) {
        (240, 536)
    }

    open spec fn spec_reset_duration() -> u32 {
        10
    }

    fn reset_duration() -> (r: u32) {
        10
    }

    open spec fn supports(kind: InterfaceKind) -> bool {
        kind == InterfaceKind::Serial4Line || kind == InterfaceKind::Parallel8Bit
    }

    open spec fn bring_up(options: ModelOptions) -> Seq<ActionView> {
        seq![
            raw_view(0xFE, seq![0x04u8]),
            raw_view(0x6A, seq![0x00u8]),
            raw_view(0xFE, seq![0x05u8]),
            raw_view(0xFE, seq![0x07u8]),
            raw_view(0x07, seq![0x4Fu8]),
            raw_view(0xFE, seq![0x01u8]),
            raw_view(0x2A, seq![0x02u8]),
            raw_view(0x2B, seq![0x73u8]),
            raw_view(0xFE, seq![0x0Au8]),
            raw_view(0x29, seq![0x10u8]),
            raw_view(0xFE, seq![0x00u8]),
            raw_view(0x51, seq![0xAFu8]),
            raw_view(0x53, seq![0x20u8]),
            raw_view(0x35, seq![0x00u8]),
            command_view(
                SetPixelFormat(
                    PixelFormat { dpi: BitsPerPixel::Sixteen, dbi: BitsPerPixel::Sixteen },
                ),
            ),
            raw_view(0xC4, seq![0x80u8]),
            command_view(SetAddressMode::of(options)),
            command_view(SetInvertMode(options.invert_colors)),
            command_view(ExitSleepMode),
            ActionView::DelayUs(120_000),
            command_view(SetDisplayOn),
        ]
    }

    fn init(&mut self, kind: InterfaceKind, options: &ModelOptions, actions: &mut Vec<Action>) -> (r:
        Result<SetAddressMode, ConfigurationError>) {
        match kind {
            InterfaceKind::Serial4Line | InterfaceKind::Parallel8Bit => {},
            _ => {
                return Err(ConfigurationError::UnsupportedInterface);
            },
        }
        let ghost start = actions@.len();
        let madctl = SetAddressMode::from_options(options);

        actions.push(write_raw1(0xFE, 0x04));
        actions.push(write_raw1(0x6A, 0x00));
        actions.push(write_raw1(0xFE, 0x05));
        actions.push(write_raw1(0xFE, 0x07));
        actions.push(write_raw1(0x07, 0x4F));
        actions.push(write_raw1(0xFE, 0x01));
        actions.push(write_raw1(0x2A, 0x02));
        actions.push(write_raw1(0x2B, 0x73));
        actions.push(write_raw1(0xFE, 0x0A));
        actions.push(write_raw1(0x29, 0x10));
        actions.push(write_raw1(0xFE, 0x00));
        // brightness
        actions.push(write_raw1(0x51, 0xaf));
        actions.push(write_raw1(0x53, 0x20));
        actions.push(write_raw1(0x35, 0x00));

        let pf = PixelFormat::with_all(BitsPerPixel::rgb565());
        actions.push(write_command(&SetPixelFormat::new(pf)));

        // memory access through SPI
        actions.push(write_raw1(0xC4, 0x80));

        actions.push(write_command(&madctl));
        actions.push(write_command(&SetInvertMode::new(options.invert_colors)));
        actions.push(write_command(&ExitSleepMode));
        actions.push(Action::DelayUs(120_000));
        actions.push(write_command(&SetDisplayOn));

        assert(actions@.subrange(0, start as int) =~= old(actions)@);
        assert(plan(actions@.subrange(start as int, actions@.len() as int)) =~= Self::bring_up(
            *options,
        ));
        Ok(madctl)
    }
}

} // verus!
