use vstd::prelude::*;

use crate::dcs::{
    command_view, write_command, write_raw, EnterNormalMode, ExitSleepMode, PixelFormat,
    SetAddressMode, SetDisplayOn, SetInvertMode, SetPixelFormat,
};
use crate::interface::{Action, ActionView};
use crate::models::{appended, extends, raw_view};
use crate::options::ModelOptions;

verus! {

/// The bring-up that all ILI948x models share.
pub open spec fn ili948x_bring_up(options: ModelOptions, pixel_format: PixelFormat) -> Seq<ActionView> {
    seq![
        command_view(ExitSleepMode),
        command_view(SetPixelFormat(pixel_format)),
        command_view(SetAddressMode::of(options)),
        command_view(SetInvertMode(options.invert_colors)),
        raw_view(0xB6, seq![0x02u8, 0x02u8, 0x3Bu8]),
        command_view(EnterNormalMode),
        command_view(SetDisplayOn),
        ActionView::DelayUs(120_000),
    ]
}

/// Common bring-up for all ILI948x models and color formats: appends it to
/// `actions` and returns the address mode it sets.
pub fn init_common(options: &ModelOptions, pixel_format: PixelFormat, actions: &mut Vec<Action>) -> (r:
    SetAddressMode)
    ensures
        r == SetAddressMode::of(*options),
        extends(old(actions)@, final(actions)@),
        appended(old(actions)@, final(actions)@) == ili948x_bring_up(*options, pixel_format),
{
    let ghost start = actions@.len();
    let madctl = SetAddressMode::from_options(options);
    actions.push(write_command(&ExitSleepMode));
    actions.push(write_command(&SetPixelFormat::new(pixel_format)));
    actions.push(write_command(&madctl));
    actions.push(write_command(&SetInvertMode::new(options.invert_colors)));

    // display function control
    let dfc = vec![0b0000_0010u8, 0x02, 0x3B];
    assert(dfc@ =~= seq![0x02u8, 0x02u8, 0x3Bu8]);
    actions.push(write_raw(0xB6, dfc));
    actions.push(write_command(&EnterNormalMode));
    actions.push(write_command(&SetDisplayOn));

    // the display needs time after turning on, or SPI data may be lost
    actions.push(Action::DelayUs(120_000));

    assert(actions@.subrange(0, start as int) =~= old(actions)@);
    assert(appended(old(actions)@, actions@) =~= ili948x_bring_up(*options, pixel_format));
    madctl
}

} // verus!
