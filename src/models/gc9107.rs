use vstd::prelude::*;

use crate::builder::ConfigurationError;
use crate::dcs::{
    command_view, write_command, write_raw, BitsPerPixel, ExitSleepMode, PixelFormat,
    SetAddressMode, SetDisplayOn, SetInvertMode, SetPixelFormat,
};
use crate::interface::{plan, Action, ActionView, InterfaceKind};
use crate::models::{raw_view, write_raw1, Model};
use crate::options::ModelOptions;

verus! {

/// Positive gamma correction of the GC9107.
pub open spec fn gc9107_positive_gamma() -> Seq<u8> {
    seq![
        0x01u8, 0x2b, 0x23, 0x3c, 0xb7, 0x12, 0x17, 0x60, 0x00, 0x06, 0x0c, 0x17, 0x12, 0x1f,
    ]
}

/// Negative gamma correction of the GC9107.
pub open spec fn gc9107_negative_gamma() -> Seq<u8> {
    seq![
        0x05u8, 0x2e, 0x2d, 0x44, 0xd6, 0x15, 0x17, 0xa0, 0x02, 0x0d, 0x0d, 0x1a, 0x18, 0x1f,
    ]
}

/// GC9107 display in Rgb565 color mode.
pub struct GC9107;

impl Model for GC9107 {
    open spec fn spec_framebuffer_size() -> (u16, u16) {
        (128, 160)
    }

    fn framebuffer_size() -> (r: (u16, u16)) {
        (128, 160)
    }

    open spec fn spec_reset_duration() -> u32 {
        10
    }

    fn reset_duration() -> (r: u32) {
        10
    }

    open spec fn supports(kind: InterfaceKind) -> bool {
        kind == InterfaceKind::Serial4Line || kind == InterfaceKind::Parallel8Bit
    }

    open spec fn bring_up(options: ModelOptions) -> Seq<ActionView> {
        seq![
            ActionView::DelayUs(200_000),
            raw_view(0xFE, Seq::empty()),
            ActionView::DelayUs(5_000),
            raw_view(0xEF, Seq::empty()),
            ActionView::DelayUs(5_000),
            raw_view(0xB0, seq![0xC0u8]),
            raw_view(0xB2, seq![0x2Fu8]),
            raw_view(0xB3, seq![0x03u8]),
            raw_view(0xB6, seq![0x19u8]),
            raw_view(0xB7, seq![0x01u8]),
            command_view(SetAddressMode::of(options)),
            raw_view(0xAC, seq![0xCBu8]),
            raw_view(0xAB, seq![0x0Eu8]),
            raw_view(0xB4, seq![0x04u8]),
            raw_view(0xA8, seq![0x19u8]),
            command_view(
                SetPixelFormat(
                    PixelFormat { dpi: BitsPerPixel::Sixteen, dbi: BitsPerPixel::Sixteen },
                ),
            ),
            raw_view(0xB8, seq![0x08u8]),
            raw_view(0xE8, seq![0x24u8]),
            raw_view(0xE9, seq![0x48u8]),
            raw_view(0xEA, seq![0x22u8]),
            raw_view(0xC6, seq![0x30u8]),
            raw_view(0xC7, seq![0x18u8]),
            raw_view(0xF0, gc9107_positive_gamma()),
            raw_view(0xF1, gc9107_negative_gamma()),
            command_view(SetInvertMode(options.invert_colors)),
            command_view(ExitSleepMode),
            ActionView::DelayUs(120_000),
            command_view(SetDisplayOn),
        ]
    }

    fn init(&mut self, kind: InterfaceKind, options: &ModelOptions, actions: &mut Vec<Action>) -> (r:
        Result<SetAddressMode, ConfigurationError>) {
        match kind {
            InterfaceKind::Serial4Line | InterfaceKind::Parallel8Bit => {},
            _ => {
                return Err(ConfigurationError::UnsupportedInterface);
            },
        }
        let ghost start = actions@.len();

        actions.push(Action::DelayUs(200_000));

        actions.push(write_raw(0xFE, Vec::new()));
        actions.push(Action::DelayUs(5_000));
        actions.push(write_raw(0xEF, Vec::new()));
        actions.push(Action::DelayUs(5_000));

        actions.push(write_raw1(0xB0, 0xC0));
        actions.push(write_raw1(0xB2, 0x2F));
        actions.push(write_raw1(0xB3, 0x03));
        actions.push(write_raw1(0xB6, 0x19));
        actions.push(write_raw1(0xB7, 0x01));

        let madctl = SetAddressMode::from_options(options);
        actions.push(write_command(&madctl));

        actions.push(write_raw1(0xAC, 0xCB));
        actions.push(write_raw1(0xAB, 0x0E));
        actions.push(write_raw1(0xB4, 0x04));
        actions.push(write_raw1(0xA8, 0x19));

        let pf = PixelFormat::with_all(BitsPerPixel::rgb565());
        actions.push(write_command(&SetPixelFormat::new(pf)));

        actions.push(write_raw1(0xB8, 0x08));
        actions.push(write_raw1(0xE8, 0x24));
        actions.push(write_raw1(0xE9, 0x48));
        actions.push(write_raw1(0xEA, 0x22));
        actions.push(write_raw1(0xC6, 0x30));
        actions.push(write_raw1(0xC7, 0x18));

        let positive = vec![
            0x01, 0x2b, 0x23, 0x3c, 0xb7, 0x12, 0x17, 0x60, 0x00, 0x06, 0x0c, 0x17, 0x12, 0x1f,
        ];
        assert(positive@ =~= gc9107_positive_gamma());
        actions.push(write_raw(0xF0, positive));
        let negative = vec![
            0x05, 0x2e, 0x2d, 0x44, 0xd6, 0x15, 0x17, 0xa0, 0x02, 0x0d, 0x0d, 0x1a, 0x18, 0x1f,
        ];
        assert(negative@ =~= gc9107_negative_gamma());
        actions.push(write_raw(0xF1, negative));

        actions.push(write_command(&SetInvertMode::new(options.invert_colors)));

        actions.push(write_command(&ExitSleepMode));
        actions.push(Action::DelayUs(120_000));

        actions.push(write_command(&SetDisplayOn));

        assert(actions@.subrange(0, start as int) =~= old(actions)@);
        assert(plan(actions@.subrange(start as int, actions@.len() as int)) =~= Self::bring_up(
            *options,
        ));
        Ok(madctl)
    }
}

} // verus!
