//! [Display] builder module.
use vstd::prelude::*;

use crate::dcs::{command_view, SetAddressMode, SoftReset};
use crate::interface::{interface_kind, kind_of, plan, Action, ActionView, Interface};
use crate::models::{Model, ModelInitError};
use crate::options::{ColorInversion, ColorOrder, ModelOptions, Orientation, RefreshOrder};
use crate::Display;

verus! {

/// How long the panel needs after the reset pin is released, in microseconds.
pub const RESET_SETTLE_US: u32 = 10_000;

/// The display size is not zero and fits the panel's memory.
pub open spec fn size_valid(size: (int, int), framebuffer_size: (u16, u16)) -> bool {
    0 < size.0 <= framebuffer_size.0 && 0 < size.1 <= framebuffer_size.1
}

/// The display area, placed at its offset, lies within the panel's memory.
pub open spec fn offset_valid(size: (int, int), offset: (u16, u16), framebuffer_size: (u16, u16)) -> bool {
    size.0 + offset.0 <= framebuffer_size.0 && size.1 + offset.1 <= framebuffer_size.1
}

/// A display size and offset that a panel with the given memory can show.
pub open spec fn configuration_valid(size: (int, int), offset: (u16, u16), framebuffer_size: (u16, u16)) -> bool {
    size_valid(size, framebuffer_size) && offset_valid(size, offset, framebuffer_size)
}

/// Checks a display size and offset against the panel's memory; returns the
/// size as stored in [ModelOptions].
pub fn validate_configuration(size: (usize, usize), offset: (u16, u16), framebuffer_size: (u16, u16)) -> (r:
    Result<(u16, u16), ConfigurationError>)
    ensures
        !size_valid((size.0 as int, size.1 as int), framebuffer_size) ==> r == Err::<
            (u16, u16),
            ConfigurationError,
        >(ConfigurationError::InvalidDisplaySize),
        size_valid((size.0 as int, size.1 as int), framebuffer_size) && !offset_valid(
            (size.0 as int, size.1 as int),
            offset,
            framebuffer_size,
        ) ==> r == Err::<(u16, u16), ConfigurationError>(ConfigurationError::InvalidDisplayOffset),
        configuration_valid((size.0 as int, size.1 as int), offset, framebuffer_size) ==> r == Ok::<
            (u16, u16),
            ConfigurationError,
        >((size.0 as u16, size.1 as u16)),
{
    let (width, height) = size;
    let max_width = framebuffer_size.0 as usize;
    let max_height = framebuffer_size.1 as usize;
    if width == 0 || height == 0 || width > max_width || height > max_height {
        return Err(ConfigurationError::InvalidDisplaySize);
    }
    let (width, height) = (width as u16, height as u16);
    if width as u32 + offset.0 as u32 > framebuffer_size.0 as u32 || height as u32 + offset.1 as u32
        > framebuffer_size.1 as u32 {
        return Err(ConfigurationError::InvalidDisplayOffset);
    }
    Ok((width, height))
}

/// The reset that opens a bring-up: a pulse on the reset pin when there is
/// one, a software reset otherwise.
pub open spec fn reset_plan(has_pin: bool, pulse_us: u32) -> Seq<ActionView> {
    if has_pin {
        seq![
            ActionView::ResetLow,
            ActionView::DelayUs(pulse_us),
            ActionView::ResetHigh,
            ActionView::DelayUs(RESET_SETTLE_US),
        ]
    } else {
        seq![command_view(SoftReset)]
    }
}

/// Builder for [Display] instances.
pub struct Builder<DI, MODEL, RST> {
    di: DI,
    model: MODEL,
    rst: Option<RST>,
    options: ModelOptions,
    size: (usize, usize),
}

impl<DI, M: Model> Builder<DI, M, NoResetPin> {
    /// Starts a builder for the model's full framebuffer, without a reset pin.
    pub fn new(model: M, di: DI) -> (r: Self)
        ensures
            r.spec_interface() == di,
            r.spec_model() == model,
            r.spec_reset_pin() is None,
            r.spec_options() == ModelOptions::defaults(M::spec_framebuffer_size(), (0, 0)),
            r.spec_size() == (M::spec_framebuffer_size().0 as usize, M::spec_framebuffer_size().1 as usize),
    {
        let fb = M::framebuffer_size();
        Builder {
            di,
            model,
            rst: None,
            options: ModelOptions::full_size::<M>(),
            size: (fb.0 as usize, fb.1 as usize),
        }
    }
}

impl<DI, M, RST> Builder<DI, M, RST> {
    /// The interface held.
    pub closed spec fn spec_interface(&self) -> DI {
        self.di
    }

    /// The model instance held.
    pub closed spec fn spec_model(&self) -> M {
        self.model
    }

    /// The reset pin held, if any.
    pub closed spec fn spec_reset_pin(&self) -> Option<RST> {
        self.rst
    }

    /// The options set so far; the display size among them is set by `init`.
    pub closed spec fn spec_options(&self) -> ModelOptions {
        self.options
    }

    /// The display size asked for.
    pub closed spec fn spec_size(&self) -> (usize, usize) {
        self.size
    }

    /// The options a session built from here works with.
    pub open spec fn configured(&self) -> ModelOptions {
        ModelOptions { display_size: (self.spec_size().0 as u16, self.spec_size().1 as u16), ..self.spec_options() }
    }

    /// The session that a successful bring-up from here becomes.
    pub open spec fn yields(&self, d: Display<DI, M, RST>) -> bool {
        &&& d.interface() == self.spec_interface()
        &&& d.reset_pin() == self.spec_reset_pin()
        &&& d.options() == self.configured()
        &&& d.address_mode() == SetAddressMode::of(self.configured())
        &&& !d.sleeping()
    }

    /// Sets the color inversion.
    pub fn invert_colors(self, color_inversion: ColorInversion) -> (r: Self)
        ensures
            r.spec_options() == (ModelOptions { invert_colors: color_inversion, ..self.spec_options() }),
            (r.spec_interface(), r.spec_model(), r.spec_reset_pin(), r.spec_size()) == (
                self.spec_interface(),
                self.spec_model(),
                self.spec_reset_pin(),
                self.spec_size(),
            ),
    {
        let mut b = self;
        b.options.invert_colors = color_inversion;
        b
    }

    /// Sets the subpixel order.
    pub fn color_order(self, color_order: ColorOrder) -> (r: Self)
        ensures
            r.spec_options() == (ModelOptions { color_order, ..self.spec_options() }),
            (r.spec_interface(), r.spec_model(), r.spec_reset_pin(), r.spec_size()) == (
                self.spec_interface(),
                self.spec_model(),
                self.spec_reset_pin(),
                self.spec_size(),
            ),
    {
        let mut b = self;
        b.options.color_order = color_order;
        b
    }

    /// Sets the initial orientation.
    pub fn orientation(self, orientation: Orientation) -> (r: Self)
        ensures
            r.spec_options() == (ModelOptions { orientation, ..self.spec_options() }),
            (r.spec_interface(), r.spec_model(), r.spec_reset_pin(), r.spec_size()) == (
                self.spec_interface(),
                self.spec_model(),
                self.spec_reset_pin(),
                self.spec_size(),
            ),
    {
        let mut b = self;
        b.options.orientation = orientation;
        b
    }

    /// Sets the refresh order.
    pub fn refresh_order(self, refresh_order: RefreshOrder) -> (r: Self)
        ensures
            r.spec_options() == (ModelOptions { refresh_order, ..self.spec_options() }),
            (r.spec_interface(), r.spec_model(), r.spec_reset_pin(), r.spec_size()) == (
                self.spec_interface(),
                self.spec_model(),
                self.spec_reset_pin(),
                self.spec_size(),
            ),
    {
        let mut b = self;
        b.options.refresh_order = refresh_order;
        b
    }

    /// Sets the display size; `init` checks it against the panel's memory.
    pub fn display_size(self, width: usize, height: usize) -> (r: Self)
        ensures
            r.spec_size() == (width, height),
            (r.spec_interface(), r.spec_model(), r.spec_reset_pin(), r.spec_options()) == (
                self.spec_interface(),
                self.spec_model(),
                self.spec_reset_pin(),
                self.spec_options(),
            ),
    {
        let mut b = self;
        b.size = (width, height);
        b
    }

    /// Sets the display offset; `init` checks it against the panel's memory.
    pub fn display_offset(self, x: u16, y: u16) -> (r: Self)
        ensures
            r.spec_options() == (ModelOptions { display_offset: (x, y), ..self.spec_options() }),
            (r.spec_interface(), r.spec_model(), r.spec_reset_pin(), r.spec_size()) == (
                self.spec_interface(),
                self.spec_model(),
                self.spec_reset_pin(),
                self.spec_size(),
            ),
    {
        let mut b = self;
        b.options.display_offset = (x, y);
        b
    }

    /// Applies a whole configuration, as the individual setters would; a
    /// session's [Display::model_options] rebuilds an equivalent session.
    pub fn configure(self, options: &ModelOptions) -> (r: Self)
        ensures
            r.configured() == *options,
            r.spec_size() == (options.display_size.0 as usize, options.display_size.1 as usize),
            (r.spec_interface(), r.spec_model(), r.spec_reset_pin()) == (
                self.spec_interface(),
                self.spec_model(),
                self.spec_reset_pin(),
            ),
    {
        let r = self.color_order(options.color_order)
            .orientation(options.orientation)
            .invert_colors(options.invert_colors)
            .refresh_order(options.refresh_order)
            .display_size(options.display_size.0 as usize, options.display_size.1 as usize)
            .display_offset(options.display_offset.0, options.display_offset.1);
        assert(r.configured() == *options);
        r
    }

    /// Sets the reset pin; the bring-up then pulses it instead of sending a
    /// software reset.
    pub fn reset_pin<RST2>(self, rst: RST2) -> (r: Builder<DI, M, RST2>)
        ensures
            r.spec_reset_pin() == Some(rst),
            (r.spec_interface(), r.spec_model(), r.spec_options(), r.spec_size()) == (
                self.spec_interface(),
                self.spec_model(),
                self.spec_options(),
                self.spec_size(),
            ),
    {
        Builder { di: self.di, model: self.model, rst: Some(rst), options: self.options, size: self.size }
    }
}

impl<DI: Interface, M: Model, RST> Builder<DI, M, RST> {
    /// The configuration fits the panel, which can be driven through the interface.
    pub open spec fn passes_checks(&self) -> bool {
        &&& configuration_valid(
            (self.spec_size().0 as int, self.spec_size().1 as int),
            self.spec_options().display_offset,
            M::spec_framebuffer_size(),
        )
        &&& M::supports(kind_of::<DI>())
    }

    /// Checks the display size and offset, then plans the bring-up: a reset,
    /// then the model's initialisation. The session is had from the
    /// [Startup] once every action went through. When the size or offset is
    /// invalid, nothing is planned. When the panel rejects the interface, the
    /// error comes with the reset, which the host still carries out.
    /// `E` and `P` are the error types of the interface and of the reset pin,
    /// which the host reports if an action fails.
    pub fn init<E, P>(self) -> (r: Result<(Startup<DI, M, RST>, Vec<Action>), Rejection<DI, RST, E, P>>)
        ensures
            ({
                let fb = M::spec_framebuffer_size();
                let size = (self.spec_size().0 as int, self.spec_size().1 as int);
                let offset = self.spec_options().display_offset;
                let reset = reset_plan(self.spec_reset_pin() is Some, M::spec_reset_duration());
                &&& !size_valid(size, fb) ==> r is Err && r->Err_0.error == InitError::<E, P>::InvalidConfiguration(
                    ConfigurationError::InvalidDisplaySize,
                ) && r->Err_0.actions@.len() == 0
                &&& size_valid(size, fb) && !offset_valid(size, offset, fb) ==> r is Err && r->Err_0.error
                    == InitError::<E, P>::InvalidConfiguration(ConfigurationError::InvalidDisplayOffset)
                    && r->Err_0.actions@.len() == 0
                &&& configuration_valid(size, offset, fb) && !M::supports(kind_of::<DI>()) ==> r is Err
                    && r->Err_0.error == InitError::<E, P>::InvalidConfiguration(
                    ConfigurationError::UnsupportedInterface,
                ) && plan(r->Err_0.actions@) == reset
                &&& r is Err ==> r->Err_0.di == self.spec_interface() && r->Err_0.rst
                    == self.spec_reset_pin()
                &&& r is Ok <==> self.passes_checks()
                &&& r is Ok ==> ({
                    let (startup, actions) = r->Ok_0;
                    &&& self.yields(startup.display())
                    &&& startup.display().wf()
                    &&& plan(actions@) == reset + M::bring_up(self.configured())
                })
            }),
    {
        let mut b = self;
        let size = match validate_configuration(b.size, b.options.display_offset, M::framebuffer_size()) {
            Ok(size) => size,
            Err(e) => {
                return Err(
                    Rejection {
                        error: InitError::InvalidConfiguration(e),
                        actions: Vec::new(),
                        di: b.di,
                        rst: b.rst,
                    },
                );
            },
        };
        b.options.display_size = size;
        assert(b.options == self.configured());

        let mut actions: Vec<Action> = Vec::new();
        if b.rst.is_some() {
            actions.push(Action::ResetLow);
            actions.push(Action::DelayUs(M::reset_duration()));
            actions.push(Action::ResetHigh);
            actions.push(Action::DelayUs(RESET_SETTLE_US));
        } else {
            actions.push(M::software_reset());
        }
        let ghost reset = plan(actions@);
        assert(reset =~= reset_plan(self.spec_reset_pin() is Some, M::spec_reset_duration()));

        let ghost before = actions@;
        let madctl = match b.model.init(interface_kind::<DI>(), &b.options, &mut actions) {
            Ok(madctl) => madctl,
            Err(e) => {
                return Err(
                    Rejection {
                        error: InitError::InvalidConfiguration(e),
                        actions,
                        di: b.di,
                        rst: b.rst,
                    },
                );
            },
        };
        assert(plan(actions@) =~= reset + M::bring_up(self.configured())) by {
            assert(actions@.subrange(0, before.len() as int) == before);
            assert forall|k: int| 0 <= k < actions@.len() implies plan(actions@)[k] == (reset
                + M::bring_up(self.configured()))[k] by {
                if k < before.len() {
                    assert(actions@.subrange(0, before.len() as int)[k] == before[k]);
                } else {
                    assert(actions@.subrange(before.len() as int, actions@.len() as int)[k
                        - before.len()] == actions@[k]);
                }
            }
        }
        let display = Display::from_parts(b.di, b.model, b.rst, b.options, madctl);
        Ok((Startup { display }, actions))
    }
}

/// Releasing a session and building anew from the released interface and
/// reset pin with the same configuration (for instance through
/// [Builder::configure] with the session's options) passes every check of `init`, and
/// the session it yields is equivalent: the same interface, reset pin and
/// options, awake, with the address mode its options ask for.
pub proof fn lemma_release_rebuild<DI: Interface, M: Model, RST>(
    d: Display<DI, M, RST>,
    b: Builder<DI, M, RST>,
)
    requires
        d.wf(),
        b.spec_interface() == d.release_parts().0,
        b.spec_reset_pin() == d.release_parts().2,
        b.spec_size() == (d.options().display_size.0 as usize, d.options().display_size.1 as usize),
        b.configured() == d.options(),
    ensures
        b.passes_checks(),
        forall|e: Display<DI, M, RST>|
            #[trigger] b.yields(e) ==> {
                &&& e.interface() == d.interface()
                &&& e.reset_pin() == d.reset_pin()
                &&& e.options() == d.options()
                &&& e.address_mode() == SetAddressMode::of(d.options())
                &&& !e.sleeping()
                &&& e.wf()
            },
{
}

/// A bring-up that `init` refused, with the interface and reset pin handed
/// back.
pub struct Rejection<DI, RST, E, P> {
    /// Why the bring-up was refused.
    pub error: InitError<E, P>,
    /// What still goes to the panel before the refusal is reported: the reset
    /// when the panel rejected the interface, nothing otherwise.
    pub actions: Vec<Action>,
    /// The interface.
    pub di: DI,
    /// The reset pin, if any.
    pub rst: Option<RST>,
}

/// A session whose bring-up is planned but not yet carried out.
pub struct Startup<DI, M, RST> {
    display: Display<DI, M, RST>,
}

impl<DI, M, RST> Startup<DI, M, RST> {
    /// The session it becomes.
    pub closed spec fn display(&self) -> Display<DI, M, RST> {
        self.display
    }

    /// Borrows the interface and the reset pin, to carry out the bring-up.
    pub fn parts_mut(&mut self) -> (r: (&mut DI, &mut Option<RST>))
        ensures
            *r.0 == old(self).display().interface(),
            *r.1 == old(self).display().reset_pin(),
            final(self).display().interface() == *final(r.0),
            final(self).display().reset_pin() == *final(r.1),
            final(self).display().model() == old(self).display().model(),
            final(self).display().options() == old(self).display().options(),
            final(self).display().address_mode() == old(self).display().address_mode(),
            final(self).display().sleeping() == old(self).display().sleeping(),
    {
        self.display.parts_mut()
    }

    /// The session, once every action of the bring-up went through.
    pub fn finish(self) -> (r: Display<DI, M, RST>)
        ensures
            r == self.display(),
    {
        self.display
    }
}

/// Error returned by [`Builder::init`].
#[derive(Debug)]
pub enum InitError<DIError, PinError> {
    /// Error caused by the interface.
    Interface(DIError),
    /// Error caused by the reset pin's output function.
    ResetPin(PinError),
    /// Invalid configuration error.
    InvalidConfiguration(ConfigurationError),
}

impl<DIError, PinError> From<ModelInitError<DIError>> for InitError<DIError, PinError> {
    fn from(value: ModelInitError<DIError>) -> (r: Self)
        ensures
            r == Self::from_model_error(value),
    {
        match value {
            ModelInitError::Interface(e) => InitError::Interface(e),
            ModelInitError::InvalidConfiguration(ce) => InitError::InvalidConfiguration(ce),
        }
    }
}

impl<DIError, PinError> InitError<DIError, PinError> {
    /// The error that a model's error becomes.
    pub open spec fn from_model_error(value: ModelInitError<DIError>) -> Self {
        match value {
            ModelInitError::Interface(e) => InitError::Interface(e),
            ModelInitError::InvalidConfiguration(ce) => InitError::InvalidConfiguration(ce),
        }
    }
}

impl<DIError, PinError> vstd::std_specs::convert::FromSpecImpl<ModelInitError<DIError>> for InitError<DIError, PinError> {
    open spec fn obeys_from_spec() -> bool {
        true
    }

    open spec fn from_spec(v: ModelInitError<DIError>) -> Self {
        Self::from_model_error(v)
    }
}

/// Specifies which part of the configuration was invalid.
#[non_exhaustive]
#[derive(Clone, Copy, Debug, PartialEq, Eq, Structural)]
pub enum ConfigurationError {
    /// Unsupported interface kind.
    UnsupportedInterface,
    /// Invalid display size: zero, or larger than the panel's memory.
    InvalidDisplaySize,
    /// Invalid display offset: offset and size reach past the panel's memory.
    InvalidDisplayOffset,
}

/// Marker type for a builder without a reset pin; it has no values outside
/// this crate, so a builder of this type never holds a pin.
#[derive(Clone, Copy, Debug)]
pub struct NoResetPin {
    _none: (),
}

} // verus!
