use vstd::prelude::*;

use crate::builder::ConfigurationError;
use crate::dcs::{
    command_view, write_command, BitsPerPixel, EnterNormalMode, ExitSleepMode, PixelFormat,
    SetAddressMode, SetDisplayOn, SetInvertMode, SetPixelFormat,
};
use crate::interface::{plan, Action, ActionView, InterfaceKind};
use crate::models::Model;
use crate::options::ModelOptions;

verus! {

/// ST7789 display in Rgb565 color mode.
pub struct ST7789;

impl Model for ST7789 {
    open spec fn spec_framebuffer_size() -> (u16, u16) {
        (240, 320)
    }

    fn framebuffer_size() -> (r: (u16, u16)) {
        (240, 320)
    }

    open spec fn spec_reset_duration() -> u32 {
        10
    }

    fn reset_duration() -> (r: u32) {
        10
    }

    open spec fn supports(kind: InterfaceKind) -> bool {
        kind == InterfaceKind::Serial4Line || kind == InterfaceKind::Parallel8Bit || kind
            == InterfaceKind::Parallel16Bit
    }

    open spec fn bring_up(options: ModelOptions) -> Seq<ActionView> {
        seq![
            ActionView::DelayUs(150_000),
            command_view(ExitSleepMode),
            ActionView::DelayUs(10_000),
            command_view(SetAddressMode::of(options)),
            command_view(SetInvertMode(options.invert_colors)),
            command_view(
                SetPixelFormat(
                    PixelFormat { dpi: BitsPerPixel::Sixteen, dbi: BitsPerPixel::Sixteen },
                ),
            ),
            ActionView::DelayUs(10_000),
            command_view(EnterNormalMode),
            ActionView::DelayUs(10_000),
            command_view(SetDisplayOn),
            ActionView::DelayUs(120_000),
        ]
    }

    fn init(&mut self, kind: InterfaceKind, options: &ModelOptions, actions: &mut Vec<Action>) -> (r:
        Result<SetAddressMode, ConfigurationError>) {
        match kind {
            InterfaceKind::Serial4Line | InterfaceKind::Parallel8Bit
            | InterfaceKind::Parallel16Bit => {},
        }
        let ghost start = actions@.len();
        let madctl = SetAddressMode::from_options(options);

        actions.push(Action::DelayUs(150_000));
        actions.push(write_command(&ExitSleepMode));
        actions.push(Action::DelayUs(10_000));

        actions.push(write_command(&madctl));
        actions.push(write_command(&SetInvertMode::new(options.invert_colors)));

        let pf = PixelFormat::with_all(BitsPerPixel::rgb565());
        actions.push(write_command(&SetPixelFormat::new(pf)));
        actions.push(Action::DelayUs(10_000));
        actions.push(write_command(&EnterNormalMode));
        actions.push(Action::DelayUs(10_000));
        actions.push(write_command(&SetDisplayOn));

        // the display needs time after turning on, or SPI data may be lost
        actions.push(Action::DelayUs(120_000));

        assert(actions@.subrange(0, start as int) =~= old(actions)@);
        assert(plan(actions@.subrange(start as int, actions@.len() as int)) =~= Self::bring_up(
            *options,
        ));
        Ok(madctl)
    }
}

} // verus!
