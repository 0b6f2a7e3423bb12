//! A display driver for TFT panels that speak the MIPI Display Command Set.
//!
//! The library decides what goes to the panel and in which order: each
//! operation yields a list of [interface::Action]s that the host carries out
//! on its bus, reset pin and clock. Operations that change what the session
//! records also yield a [Completion], which the host hands back through
//! [Display::complete] once the actions went through.
use vstd::prelude::*;

pub mod dcs;
pub mod interface;
pub mod models;
pub mod options;
pub mod raw_framebuf;
mod builder;

pub use builder::{
    configuration_valid, validate_configuration, Builder, ConfigurationError, InitError,
    NoResetPin, Rejection, Startup,
};

use crate::dcs::{command_view, SetAddressMode, SetColumnAddress, SetPageAddress, WriteMemoryStart};
use crate::interface::{kind_of, plan, Action, ActionView, Interface};
use crate::models::{scroll_area, Model, SLEEP_SETTLE_US};
use crate::options::{MemoryMapping, ModelOptions, Orientation, TearingEffect};

verus! {

/// `a + b`, held at `u16::MAX`.
pub open spec fn sat_add(a: u16, b: u16) -> u16 {
    if a + b > u16::MAX {
        u16::MAX
    } else {
        (a + b) as u16
    }
}

/// `a - b`, held at zero.
pub open spec fn sat_sub(a: u16, b: u16) -> u16 {
    if a < b {
        0
    } else {
        (a - b) as u16
    }
}

/// Where the display area starts in the panel's memory, for the options'
/// orientation: reversed axes count the offset from the far edge, measured
/// with the unrotated size, and then a rotation on the side swaps the axes.
pub open spec fn window_offset(options: ModelOptions, framebuffer_size: (u16, u16)) -> (u16, u16) {
    let m = MemoryMapping::of(options.orientation);
    let x = if m.reverse_columns {
        sat_sub(framebuffer_size.0, sat_add(options.display_size.0, options.display_offset.0))
    } else {
        options.display_offset.0
    };
    let y = if m.reverse_rows {
        sat_sub(framebuffer_size.1, sat_add(options.display_size.1, options.display_offset.1))
    } else {
        options.display_offset.1
    };
    if m.swap_rows_and_columns {
        (y, x)
    } else {
        (x, y)
    }
}

/// The panel memory window `(sx, sy, ex, ey)` for a rectangle given in
/// display coordinates.
pub open spec fn window(
    options: ModelOptions,
    framebuffer_size: (u16, u16),
    sx: u16,
    sy: u16,
    ex: u16,
    ey: u16,
) -> (u16, u16, u16, u16) {
    let (ox, oy) = window_offset(options, framebuffer_size);
    (sat_add(sx, ox), sat_add(sy, oy), sat_add(ex, ox), sat_add(ey, oy))
}

/// Maps a rectangle in display coordinates to the panel memory window.
pub fn address_window(
    options: &ModelOptions,
    framebuffer_size: (u16, u16),
    sx: u16,
    sy: u16,
    ex: u16,
    ey: u16,
) -> (r: (u16, u16, u16, u16))
    ensures
        r == window(*options, framebuffer_size, sx, sy, ex, ey),
{
    let mut offset = options.display_offset;
    let mapping = MemoryMapping::from_orientation(options.orientation);
    if mapping.reverse_columns {
        offset.0 = framebuffer_size.0.saturating_sub(
            options.display_size.0.saturating_add(offset.0),
        );
    }
    if mapping.reverse_rows {
        offset.1 = framebuffer_size.1.saturating_sub(
            options.display_size.1.saturating_add(offset.1),
        );
    }
    if mapping.swap_rows_and_columns {
        offset = (offset.1, offset.0);
    }
    (
        sx.saturating_add(offset.0),
        sy.saturating_add(offset.1),
        ex.saturating_add(offset.0),
        ey.saturating_add(offset.1),
    )
}

/// The plan that sets the memory window for a rectangle.
pub open spec fn window_plan(w: (u16, u16, u16, u16)) -> Seq<ActionView> {
    seq![
        command_view(SetColumnAddress { start_column: w.0, end_column: w.2 }),
        command_view(SetPageAddress { start_row: w.1, end_row: w.3 }),
    ]
}

/// Pixel data goes out only right after the command that starts a memory write.
pub open spec fn pixels_follow_memory_write(p: Seq<ActionView>) -> bool {
    forall|i: int|
        0 <= i < p.len() && #[trigger] p[i] == ActionView::PixelData ==> i > 0 && p[i - 1]
            == command_view(WriteMemoryStart)
}

/// What the session records once the host has carried out an operation.
#[derive(Clone, Copy, Debug, PartialEq, Eq, Structural)]
pub enum Completion {
    /// Nothing to record.
    Nothing,
    /// The panel now uses this address mode.
    AddressMode(SetAddressMode),
    /// The panel is now asleep (`true`) or awake (`false`).
    Sleeping(bool),
}

/// The actions of an operation, and what to record once they went through.
#[derive(Debug)]
pub struct Operation {
    /// What the host carries out, in order; it stops at the first failure.
    pub actions: Vec<Action>,
    /// What to hand to [Display::complete] when every action succeeded.
    pub completion: Completion,
}

/// Display driver: the session with one panel.
pub struct Display<DI, MODEL, RST> {
    /// The display interface.
    di: DI,
    /// The display model instance.
    model: MODEL,
    /// The reset pin.
    rst: Option<RST>,
    /// Display options.
    options: ModelOptions,
    /// Current address mode, as last written to the panel.
    madctl: SetAddressMode,
    /// Sleep state.
    sleeping: bool,
}

impl<DI, M, RST> Display<DI, M, RST> {
    /// The interface held.
    pub closed spec fn interface(&self) -> DI {
        self.di
    }

    /// The model instance held.
    pub closed spec fn model(&self) -> M {
        self.model
    }

    /// The reset pin held, if any.
    pub closed spec fn reset_pin(&self) -> Option<RST> {
        self.rst
    }

    /// The options in force.
    pub closed spec fn options(&self) -> ModelOptions {
        self.options
    }

    /// The address mode last written to the panel.
    pub closed spec fn address_mode(&self) -> SetAddressMode {
        self.madctl
    }

    /// Whether the panel was last put to sleep.
    pub closed spec fn sleeping(&self) -> bool {
        self.sleeping
    }

    /// The session assembled from its parts, awake.
    pub closed spec fn assembled(
        di: DI,
        model: M,
        rst: Option<RST>,
        options: ModelOptions,
        madctl: SetAddressMode,
    ) -> Self {
        Display { di, model, rst, options, madctl, sleeping: false }
    }

    /// The session once `c` is recorded.
    pub closed spec fn after(self, c: Completion) -> Self {
        match c {
            Completion::Nothing => self,
            Completion::AddressMode(m) => Display { madctl: m, ..self },
            Completion::Sleeping(b) => Display { sleeping: b, ..self },
        }
    }

    pub(crate) fn from_parts(
        di: DI,
        model: M,
        rst: Option<RST>,
        options: ModelOptions,
        madctl: SetAddressMode,
    ) -> (r: Self)
        ensures
            r == Self::assembled(di, model, rst, options, madctl),
            r.interface() == di,
            r.model() == model,
            r.reset_pin() == rst,
            r.options() == options,
            r.address_mode() == madctl,
            !r.sleeping(),
    {
        Display { di, model, rst, options, madctl, sleeping: false }
    }

    pub(crate) fn parts_mut(&mut self) -> (r: (&mut DI, &mut Option<RST>))
        ensures
            *r.0 == old(self).interface(),
            *r.1 == old(self).reset_pin(),
            final(self).interface() == *final(r.0),
            final(self).reset_pin() == *final(r.1),
            final(self).model() == old(self).model(),
            final(self).options() == old(self).options(),
            final(self).address_mode() == old(self).address_mode(),
            final(self).sleeping() == old(self).sleeping(),
    {
        (&mut self.di, &mut self.rst)
    }

    /// What [Display::release] hands back.
    pub open spec fn release_parts(&self) -> (DI, M, Option<RST>) {
        (self.interface(), self.model(), self.reset_pin())
    }

    /// Returns the current display orientation.
    pub fn orientation(&self) -> (r: Orientation)
        ensures
            r == self.options().orientation,
    {
        self.options.orientation
    }

    /// Returns the options in force.
    pub fn model_options(&self) -> (r: ModelOptions)
        ensures
            r == self.options(),
    {
        self.options
    }

    /// Returns `true` if the display was last put to sleep.
    pub fn is_sleeping(&self) -> (r: bool)
        ensures
            r == self.sleeping(),
    {
        self.sleeping
    }

    /// Records what an operation changed, once its actions went through.
    pub fn complete(&mut self, completion: Completion)
        ensures
            *final(self) == old(self).after(completion),
    {
        match completion {
            Completion::Nothing => {},
            Completion::AddressMode(m) => {
                self.madctl = m;
            },
            Completion::Sleeping(b) => {
                self.sleeping = b;
            },
        }
    }

    /// Releases the display interface, model instance, and reset pin.
    pub fn release(self) -> (r: (DI, M, Option<RST>))
        ensures
            r == self.release_parts(),
    {
        (self.di, self.model, self.rst)
    }

    /// Returns the display interface, to carry out actions or to send raw
    /// commands. The caller is responsible for not desynchronizing the panel
    /// from what the session records.
    pub fn raw_interface_mut(&mut self) -> (r: &mut DI)
        ensures
            *r == old(self).interface(),
            final(self).interface() == *final(r),
            final(self).model() == old(self).model(),
            final(self).reset_pin() == old(self).reset_pin(),
            final(self).options() == old(self).options(),
            final(self).address_mode() == old(self).address_mode(),
            final(self).sleeping() == old(self).sleeping(),
    {
        &mut self.di
    }
}

impl<DI: Interface, M: Model, RST> Display<DI, M, RST> {
    /// The configuration holds: the display area lies within the panel's
    /// memory, and the panel can be driven through the interface.
    pub open spec fn wf(&self) -> bool {
        &&& configuration_valid(
            (self.options().display_size.0 as int, self.options().display_size.1 as int),
            self.options().display_offset,
            M::spec_framebuffer_size(),
        )
        &&& M::supports(kind_of::<DI>())
    }

    /// Sets the display orientation; the panel sees it once the actions went
    /// through and the completion, the new address mode, is recorded.
    pub fn set_orientation(&mut self, orientation: Orientation) -> (r: Operation)
        ensures
            final(self).options() == (ModelOptions { orientation, ..old(self).options() }),
            final(self).interface() == old(self).interface(),
            final(self).model() == old(self).model(),
            final(self).reset_pin() == old(self).reset_pin(),
            final(self).address_mode() == old(self).address_mode(),
            final(self).sleeping() == old(self).sleeping(),
            r.completion == Completion::AddressMode(SetAddressMode::of(final(self).options())),
            plan(r.actions@) == seq![command_view(SetAddressMode::of(final(self).options()))],
            old(self).wf() ==> final(self).wf(),
    {
        self.options.orientation = orientation;
        let (madctl, actions) = self.model.update_options(&self.options);
        Operation { actions, completion: Completion::AddressMode(madctl) }
    }

    /// Sets the memory window for a rectangle in display coordinates.
    fn set_address_window(&self, sx: u16, sy: u16, ex: u16, ey: u16) -> (r: Vec<Action>)
        ensures
            plan(r@) == window_plan(
                window(self.options(), M::spec_framebuffer_size(), sx, sy, ex, ey),
            ),
    {
        let w = address_window(&self.options, M::framebuffer_size(), sx, sy, ex, ey);
        M::update_address_window(self.options.orientation.rotation, w.0, w.1, w.2, w.3)
    }

    /// Sends pixel data to the rectangle `sx..=ex` by `sy..=ey`: sets the
    /// memory window, starts a memory write, then streams the caller's pixel
    /// words, which must be of the interface's word type.
    pub fn show_raw_data(&self, sx: u16, sy: u16, ex: u16, ey: u16) -> (r: Vec<Action>)
        ensures
            plan(r@) == window_plan(
                window(self.options(), M::spec_framebuffer_size(), sx, sy, ex, ey),
            ) + seq![command_view(WriteMemoryStart), ActionView::PixelData],
            pixels_follow_memory_write(plan(r@)),
    {
        let mut r = self.set_address_window(sx, sy, ex, ey);
        let ghost w = plan(r@);
        r.push(M::write_memory_start());
        r.push(Action::PixelData);
        assert(plan(r@) =~= w + seq![command_view(WriteMemoryStart), ActionView::PixelData]);
        r
    }

    /// Sets the vertical scroll region from the heights of the fixed areas.
    pub fn set_vertical_scroll_region(&self, top_fixed_area: u16, bottom_fixed_area: u16) -> (r:
        Vec<Action>)
        ensures
            plan(r@) == seq![
                command_view(
                    scroll_area(M::spec_framebuffer_size().1, top_fixed_area, bottom_fixed_area),
                ),
            ],
    {
        let r = vec![M::set_vertical_scroll_region(top_fixed_area, bottom_fixed_area)];
        assert(plan(r@) =~= seq![r@[0]@]);
        r
    }

    /// Sets the vertical scroll offset.
    pub fn set_vertical_scroll_offset(&self, offset: u16) -> (r: Vec<Action>)
        ensures
            plan(r@) == seq![command_view(crate::dcs::SetScrollStart(offset))],
    {
        let r = vec![M::set_vertical_scroll_offset(offset)];
        assert(plan(r@) =~= seq![r@[0]@]);
        r
    }

    /// Configures the tearing effect output signal.
    pub fn set_tearing_effect(&self, tearing_effect: TearingEffect) -> (r: Vec<Action>)
        ensures
            plan(r@) == seq![command_view(crate::dcs::SetTearingEffect(tearing_effect))],
    {
        let r = vec![M::set_tearing_effect(tearing_effect, &self.options)];
        assert(plan(r@) =~= seq![r@[0]@]);
        r
    }

    /// Puts the display into sleep mode; the completion marks it asleep.
    pub fn sleep(&self) -> (r: Operation)
        ensures
            plan(r.actions@) == seq![
                command_view(crate::dcs::EnterSleepMode),
                ActionView::DelayUs(SLEEP_SETTLE_US),
            ],
            r.completion == Completion::Sleeping(true),
    {
        Operation { actions: M::sleep(), completion: Completion::Sleeping(true) }
    }

    /// Wakes the display from sleep mode; the completion marks it awake.
    pub fn wake(&self) -> (r: Operation)
        ensures
            plan(r.actions@) == seq![
                command_view(crate::dcs::ExitSleepMode),
                ActionView::DelayUs(SLEEP_SETTLE_US),
            ],
            r.completion == Completion::Sleeping(false),
    {
        Operation { actions: M::wake(), completion: Completion::Sleeping(false) }
    }
}

/// Sleeping and then waking, each recorded, leaves the session awake and
/// otherwise as it was, so it stays fully usable.
pub proof fn lemma_sleep_then_wake<DI: Interface, M: Model, RST>(d: Display<DI, M, RST>)
    ensures
        !d.after(Completion::Sleeping(true)).after(Completion::Sleeping(false)).sleeping(),
        d.after(Completion::Sleeping(true)).after(Completion::Sleeping(false)).interface()
            == d.interface(),
        d.after(Completion::Sleeping(true)).after(Completion::Sleeping(false)).model()
            == d.model(),
        d.after(Completion::Sleeping(true)).after(Completion::Sleeping(false)).reset_pin()
            == d.reset_pin(),
        d.after(Completion::Sleeping(true)).after(Completion::Sleeping(false)).options()
            == d.options(),
        d.after(Completion::Sleeping(true)).after(Completion::Sleeping(false)).address_mode()
            == d.address_mode(),
        d.after(Completion::Sleeping(true)).after(Completion::Sleeping(false)).wf() == d.wf(),
{
}

} // verus!
