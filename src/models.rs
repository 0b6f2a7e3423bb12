//! Display models: the capability every panel family offers, with the
//! operations they share.
use vstd::prelude::*;

use crate::dcs::{
    command_view, write_command, write_raw, EnterSleepMode, ExitSleepMode, SetAddressMode,
    SetColumnAddress, SetPageAddress, SetScrollArea, SetScrollStart, SetTearingEffect, SoftReset,
    WriteMemoryStart,
};
use crate::interface::{plan, Action, ActionView, InterfaceKind};
use crate::options::{ModelOptions, Rotation, TearingEffect};

pub use crate::builder::ConfigurationError;

mod gc9107;
mod ili948x;
mod rm67162;
mod st7789;

pub use gc9107::GC9107;
pub use ili948x::init_common;
pub use rm67162::RM67162;
pub use st7789::ST7789;

verus! {

/// How long the panel needs after entering or leaving sleep, in microseconds.
pub const SLEEP_SETTLE_US: u32 = 120_000;

/// The actions appended to `before` to make `after`.
pub open spec fn appended(before: Seq<Action>, after: Seq<Action>) -> Seq<ActionView> {
    plan(after.subrange(before.len() as int, after.len() as int))
}

/// What sending an opcode with literal argument bytes means.
pub open spec fn raw_view(instruction: u8, params: Seq<u8>) -> ActionView {
    ActionView::Command(instruction, params)
}

/// The action that sends an opcode with a single argument byte.
pub fn write_raw1(instruction: u8, param: u8) -> (r: Action)
    ensures
        r@ == raw_view(instruction, seq![param]),
{
    let params = vec![param];
    assert(params@ =~= seq![param]);
    write_raw(instruction, params)
}

/// `after` is `before` with more actions appended.
pub open spec fn extends(before: Seq<Action>, after: Seq<Action>) -> bool {
    before.len() <= after.len() && after.subrange(0, before.len() as int) == before
}

/// The scroll area for fixed areas at the top and bottom of `rows` rows;
/// all rows are fixed when the two fixed areas do not fit.
pub open spec fn scroll_area(rows: u16, top_fixed_area: u16, bottom_fixed_area: u16) -> SetScrollArea {
    if top_fixed_area + bottom_fixed_area > rows {
        SetScrollArea {
            top_fixed_area: rows,
            vertical_scrolling_area: 0,
            bottom_fixed_area: 0,
        }
    } else {
        SetScrollArea {
            top_fixed_area,
            vertical_scrolling_area: (rows - top_fixed_area - bottom_fixed_area) as u16,
            bottom_fixed_area,
        }
    }
}

/// The scroll area always splits the panel's rows exactly, without wrapping:
/// when the fixed areas do not fit, every row is fixed at the top.
pub proof fn lemma_scroll_area_splits_rows(rows: u16, top_fixed_area: u16, bottom_fixed_area: u16)
    ensures
        ({
            let a = scroll_area(rows, top_fixed_area, bottom_fixed_area);
            a.top_fixed_area + a.vertical_scrolling_area + a.bottom_fixed_area == rows
        }),
        top_fixed_area + bottom_fixed_area > rows ==> scroll_area(
            rows,
            top_fixed_area,
            bottom_fixed_area,
        ) == (SetScrollArea { top_fixed_area: rows, vertical_scrolling_area: 0, bottom_fixed_area: 0 }),
        top_fixed_area + bottom_fixed_area <= rows ==> scroll_area(
            rows,
            top_fixed_area,
            bottom_fixed_area,
        ).top_fixed_area == top_fixed_area && scroll_area(
            rows,
            top_fixed_area,
            bottom_fixed_area,
        ).bottom_fixed_area == bottom_fixed_area,
{
}

/// Display model.
pub trait Model: Sized {
    /// Native size (w, h) of the panel's memory, as a spec value.
    spec fn spec_framebuffer_size() -> (u16, u16);

    /// Native size (w, h) of the panel's memory.
    fn framebuffer_size() -> (r: (u16, u16))
        ensures
            r == Self::spec_framebuffer_size(),
    ;

    /// Length of the reset pulse in microseconds, as a spec value.
    spec fn spec_reset_duration() -> u32;

    /// Length of the reset pulse in microseconds.
    fn reset_duration() -> (r: u32)
        ensures
            r == Self::spec_reset_duration(),
    ;

    /// The interface kinds the panel can be driven through.
    spec fn supports(kind: InterfaceKind) -> bool;

    /// The panel's bring-up sequence for `options`.
    spec fn bring_up(options: ModelOptions) -> Seq<ActionView>;

    /// Appends the panel's bring-up sequence to `actions` and returns the
    /// address mode it sets; fails, appending nothing, if the panel cannot be
    /// driven through an interface of `kind`.
    fn init(&mut self, kind: InterfaceKind, options: &ModelOptions, actions: &mut Vec<Action>) -> (r:
        Result<SetAddressMode, ConfigurationError>)
        ensures
            r is Err <==> !Self::supports(kind),
            r is Err ==> r == Err::<SetAddressMode, ConfigurationError>(
                ConfigurationError::UnsupportedInterface,
            ) && final(actions)@ == old(actions)@,
            r is Ok ==> r->Ok_0 == SetAddressMode::of(*options) && extends(
                old(actions)@,
                final(actions)@,
            ) && appended(old(actions)@, final(actions)@) == Self::bring_up(*options),
    ;

    /// Derives the address mode from `options`, with the action that writes it.
    fn update_options(&self, options: &ModelOptions) -> (r: (SetAddressMode, Vec<Action>))
        ensures
            r.0 == SetAddressMode::of(*options),
            plan(r.1@) == seq![command_view(r.0)],
    {
        let madctl = SetAddressMode::from_options(options);
        let actions = vec![write_command(&madctl)];
        assert(plan(actions@) =~= seq![command_view(madctl)]);
        (madctl, actions)
    }

    /// Sets the memory window to the columns `sx..=ex` and rows `sy..=ey`.
    fn update_address_window(_rotation: Rotation, sx: u16, sy: u16, ex: u16, ey: u16) -> (r: Vec<
        Action,
    >)
        ensures
            plan(r@) == seq![
                command_view(SetColumnAddress { start_column: sx, end_column: ex }),
                command_view(SetPageAddress { start_row: sy, end_row: ey }),
            ],
    {
        let r = vec![
            write_command(&SetColumnAddress::new(sx, ex)),
            write_command(&SetPageAddress::new(sy, ey)),
        ];
        assert(plan(r@) =~= seq![
            command_view(SetColumnAddress { start_column: sx, end_column: ex }),
            command_view(SetPageAddress { start_row: sy, end_row: ey }),
        ]);
        r
    }

    /// Enters sleep mode, then waits for the panel to settle.
    fn sleep() -> (r: Vec<Action>)
        ensures
            plan(r@) == seq![command_view(EnterSleepMode), ActionView::DelayUs(SLEEP_SETTLE_US)],
    {
        let r = vec![write_command(&EnterSleepMode), Action::DelayUs(SLEEP_SETTLE_US)];
        assert(plan(r@) =~= seq![
            command_view(EnterSleepMode),
            ActionView::DelayUs(SLEEP_SETTLE_US),
        ]);
        r
    }

    /// Leaves sleep mode, then waits for the panel to settle.
    fn wake() -> (r: Vec<Action>)
        ensures
            plan(r@) == seq![command_view(ExitSleepMode), ActionView::DelayUs(SLEEP_SETTLE_US)],
    {
        let r = vec![write_command(&ExitSleepMode), Action::DelayUs(SLEEP_SETTLE_US)];
        assert(plan(r@) =~= seq![
            command_view(ExitSleepMode),
            ActionView::DelayUs(SLEEP_SETTLE_US),
        ]);
        r
    }

    /// Starts a write into the memory window.
    fn write_memory_start() -> (r: Action)
        ensures
            r@ == command_view(WriteMemoryStart),
    {
        write_command(&WriteMemoryStart)
    }

    /// Resets the panel by command.
    fn software_reset() -> (r: Action)
        ensures
            r@ == command_view(SoftReset),
    {
        write_command(&SoftReset)
    }

    /// Configures the tearing effect output.
    fn set_tearing_effect(tearing_effect: TearingEffect, _options: &ModelOptions) -> (r: Action)
        ensures
            r@ == command_view(SetTearingEffect(tearing_effect)),
    {
        write_command(&SetTearingEffect::new(tearing_effect))
    }

    /// Sets the vertical scroll region from the heights of the fixed areas.
    fn set_vertical_scroll_region(top_fixed_area: u16, bottom_fixed_area: u16) -> (r: Action)
        ensures
            r@ == command_view(
                scroll_area(Self::spec_framebuffer_size().1, top_fixed_area, bottom_fixed_area),
            ),
    {
        let rows = Self::framebuffer_size().1;
        let fixed: u32 = top_fixed_area as u32 + bottom_fixed_area as u32;
        let area = if fixed > rows as u32 {
            SetScrollArea::new(rows, 0, 0)
        } else {
            SetScrollArea::new(top_fixed_area, rows - top_fixed_area - bottom_fixed_area, bottom_fixed_area)
        };
        write_command(&area)
    }

    /// Sets the first row of the scroll area that is shown.
    fn set_vertical_scroll_offset(offset: u16) -> (r: Action)
        ensures
            r@ == command_view(SetScrollStart(offset)),
    {
        write_command(&SetScrollStart::new(offset))
    }
}

/// Error returned by [`Model::init`].
#[derive(Debug)]
pub enum ModelInitError<DiError> {
    /// Error caused by the interface.
    Interface(DiError),
    /// Invalid configuration error.
    InvalidConfiguration(ConfigurationError),
}

impl<DiError> From<DiError> for ModelInitError<DiError> {
    fn from(value: DiError) -> (r: Self)
        ensures
            r == ModelInitError::Interface(value),
    {
        ModelInitError::Interface(value)
    }
}

impl<DiError> vstd::std_specs::convert::FromSpecImpl<DiError> for ModelInitError<DiError> {
    open spec fn obeys_from_spec() -> bool {
        true
    }

    open spec fn from_spec(v: DiError) -> Self {
        ModelInitError::Interface(v)
    }
}

} // verus!
