//! MIPI Display Command Set: structured commands and their byte layouts.
use vstd::prelude::*;

use embedded_graphics_core::pixelcolor::{Rgb565, RgbColor};

use crate::interface::{Action, ActionView};
use crate::options::{
    ColorInversion, ColorOrder, HorizontalRefreshOrder, MemoryMapping, ModelOptions, Orientation,
    RefreshOrder, TearingEffect, VerticalRefreshOrder,
};

verus! {

/// A command with a fixed opcode and a byte argument list.
pub trait DcsCommand {
    /// The opcode, as a spec value.
    spec fn spec_instruction(&self) -> u8;

    /// The argument bytes, as a spec value.
    spec fn spec_params(&self) -> Seq<u8>;

    /// The opcode.
    fn instruction(&self) -> (r: u8)
        ensures
            r == self.spec_instruction(),
    ;

    /// The argument bytes.
    fn params(&self) -> (r: Vec<u8>)
        ensures
            r@ == self.spec_params(),
    ;
}

/// What sending a command means.
pub open spec fn command_view<C: DcsCommand>(c: C) -> ActionView {
    ActionView::Command(c.spec_instruction(), c.spec_params())
}

/// The action that sends a command.
pub fn write_command<C: DcsCommand>(c: &C) -> (r: Action)
    ensures
        r@ == command_view(*c),
{
    Action::Command { instruction: c.instruction(), params: c.params() }
}

/// The action that sends an opcode with arguments as given, for registers
/// that have no structured command.
pub fn write_raw(instruction: u8, params: Vec<u8>) -> (r: Action)
    ensures
        r@ == ActionView::Command(instruction, params@),
{
    Action::Command { instruction, params }
}

/// A 16-bit value as two bytes, most significant first.
pub open spec fn be16(v: u16) -> Seq<u8> {
    seq![(v / 256) as u8, (v % 256) as u8]
}

fn push_be16(out: &mut Vec<u8>, v: u16)
    ensures
        final(out)@ == old(out)@ + be16(v),
{
    out.push((v / 256) as u8);
    out.push((v % 256) as u8);
    assert(final(out)@ =~= old(out)@ + be16(v));
}

/// Software reset.
#[derive(Clone, Copy, Debug, PartialEq, Eq, Structural)]
pub struct SoftReset;

/// Enter sleep mode.
#[derive(Clone, Copy, Debug, PartialEq, Eq, Structural)]
pub struct EnterSleepMode;

/// Exit sleep mode.
#[derive(Clone, Copy, Debug, PartialEq, Eq, Structural)]
pub struct ExitSleepMode;

/// Enter normal display mode.
#[derive(Clone, Copy, Debug, PartialEq, Eq, Structural)]
pub struct EnterNormalMode;

/// Turn the display on.
#[derive(Clone, Copy, Debug, PartialEq, Eq, Structural)]
pub struct SetDisplayOn;

/// Start writing to the memory window set last.
#[derive(Clone, Copy, Debug, PartialEq, Eq, Structural)]
pub struct WriteMemoryStart;

impl DcsCommand for SoftReset {
    open spec fn spec_instruction(&self) -> u8 {
        0x01
    }

    open spec fn spec_params(&self) -> Seq<u8> {
        Seq::empty()
    }

    fn instruction(&self) -> (r: u8) {
        0x01
    }

    fn params(&self) -> (r: Vec<u8>) {
        Vec::new()
    }
}

impl DcsCommand for EnterSleepMode {
    open spec fn spec_instruction(&self) -> u8 {
        0x10
    }

    open spec fn spec_params(&self) -> Seq<u8> {
        Seq::empty()
    }

    fn instruction(&self) -> (r: u8) {
        0x10
    }

    fn params(&self) -> (r: Vec<u8>) {
        Vec::new()
    }
}

impl DcsCommand for ExitSleepMode {
    open spec fn spec_instruction(&self) -> u8 {
        0x11
    }

    open spec fn spec_params(&self) -> Seq<u8> {
        Seq::empty()
    }

    fn instruction(&self) -> (r: u8) {
        0x11
    }

    fn params(&self) -> (r: Vec<u8>) {
        Vec::new()
    }
}

impl DcsCommand for EnterNormalMode {
    open spec fn spec_instruction(&self) -> u8 {
        0x13
    }

    open spec fn spec_params(&self) -> Seq<u8> {
        Seq::empty()
    }

    fn instruction(&self) -> (r: u8) {
        0x13
    }

    fn params(&self) -> (r: Vec<u8>) {
        Vec::new()
    }
}

impl DcsCommand for SetDisplayOn {
    open spec fn spec_instruction(&self) -> u8 {
        0x29
    }

    open spec fn spec_params(&self) -> Seq<u8> {
        Seq::empty()
    }

    fn instruction(&self) -> (r: u8) {
        0x29
    }

    fn params(&self) -> (r: Vec<u8>) {
        Vec::new()
    }
}

impl DcsCommand for WriteMemoryStart {
    open spec fn spec_instruction(&self) -> u8 {
        0x2C
    }

    open spec fn spec_params(&self) -> Seq<u8> {
        Seq::empty()
    }

    fn instruction(&self) -> (r: u8) {
        0x2C
    }

    fn params(&self) -> (r: Vec<u8>) {
        Vec::new()
    }
}

/// Set the column range of the memory window.
#[derive(Clone, Copy, Debug, PartialEq, Eq, Structural)]
pub struct SetColumnAddress {
    pub start_column: u16,
    pub end_column: u16,
}

impl SetColumnAddress {
    /// Creates a new command for the columns `start_column..=end_column`.
    pub fn new(start_column: u16, end_column: u16) -> (r: Self)
        ensures
            r == (SetColumnAddress { start_column, end_column }),
    {
        SetColumnAddress { start_column, end_column }
    }
}

impl DcsCommand for SetColumnAddress {
    open spec fn spec_instruction(&self) -> u8 {
        0x2A
    }

    open spec fn spec_params(&self) -> Seq<u8> {
        be16(self.start_column) + be16(self.end_column)
    }

    fn instruction(&self) -> (r: u8) {
        0x2A
    }

    fn params(&self) -> (r: Vec<u8>) {
        let mut r: Vec<u8> = Vec::new();
        push_be16(&mut r, self.start_column);
        push_be16(&mut r, self.end_column);
        assert(r@ =~= be16(self.start_column) + be16(self.end_column));
        r
    }
}

/// Set the row (page) range of the memory window.
#[derive(Clone, Copy, Debug, PartialEq, Eq, Structural)]
pub struct SetPageAddress {
    pub start_row: u16,
    pub end_row: u16,
}

impl SetPageAddress {
    /// Creates a new command for the rows `start_row..=end_row`.
    pub fn new(start_row: u16, end_row: u16) -> (r: Self)
        ensures
            r == (SetPageAddress { start_row, end_row }),
    {
        SetPageAddress { start_row, end_row }
    }
}

impl DcsCommand for SetPageAddress {
    open spec fn spec_instruction(&self) -> u8 {
        0x2B
    }

    open spec fn spec_params(&self) -> Seq<u8> {
        be16(self.start_row) + be16(self.end_row)
    }

    fn instruction(&self) -> (r: u8) {
        0x2B
    }

    fn params(&self) -> (r: Vec<u8>) {
        let mut r: Vec<u8> = Vec::new();
        push_be16(&mut r, self.start_row);
        push_be16(&mut r, self.end_row);
        assert(r@ =~= be16(self.start_row) + be16(self.end_row));
        r
    }
}

/// Define the vertical scroll area: top fixed, scrolling, bottom fixed rows.
#[derive(Clone, Copy, Debug, PartialEq, Eq, Structural)]
pub struct SetScrollArea {
    pub top_fixed_area: u16,
    pub vertical_scrolling_area: u16,
    pub bottom_fixed_area: u16,
}

impl SetScrollArea {
    /// Creates a new scroll area command.
    pub fn new(top_fixed_area: u16, vertical_scrolling_area: u16, bottom_fixed_area: u16) -> (r:
        Self)
        ensures
            r == (SetScrollArea { top_fixed_area, vertical_scrolling_area, bottom_fixed_area }),
    {
        SetScrollArea { top_fixed_area, vertical_scrolling_area, bottom_fixed_area }
    }
}

impl DcsCommand for SetScrollArea {
    open spec fn spec_instruction(&self) -> u8 {
        0x33
    }

    open spec fn spec_params(&self) -> Seq<u8> {
        be16(self.top_fixed_area) + be16(self.vertical_scrolling_area) + be16(
            self.bottom_fixed_area,
        )
    }

    fn instruction(&self) -> (r: u8) {
        0x33
    }

    fn params(&self) -> (r: Vec<u8>) {
        let mut r: Vec<u8> = Vec::new();
        push_be16(&mut r, self.top_fixed_area);
        push_be16(&mut r, self.vertical_scrolling_area);
        push_be16(&mut r, self.bottom_fixed_area);
        r
    }
}

/// Set the first row of the scrolling area that is shown.
#[derive(Clone, Copy, Debug, PartialEq, Eq, Structural)]
pub struct SetScrollStart(pub u16);

impl SetScrollStart {
    /// Creates a new scroll start command.
    pub fn new(offset: u16) -> (r: Self)
        ensures
            r == SetScrollStart(offset),
    {
        SetScrollStart(offset)
    }
}

impl DcsCommand for SetScrollStart {
    open spec fn spec_instruction(&self) -> u8 {
        0x37
    }

    open spec fn spec_params(&self) -> Seq<u8> {
        be16(self.0)
    }

    fn instruction(&self) -> (r: u8) {
        0x37
    }

    fn params(&self) -> (r: Vec<u8>) {
        let mut r: Vec<u8> = Vec::new();
        push_be16(&mut r, self.0);
        assert(r@ =~= be16(self.0));
        r
    }
}

/// Configure the tearing effect output: off (0x34), or on (0x35) with a mode byte.
#[derive(Clone, Copy, Debug, PartialEq, Eq, Structural)]
pub struct SetTearingEffect(pub TearingEffect);

impl SetTearingEffect {
    /// Creates a new tearing effect command.
    pub fn new(tearing_effect: TearingEffect) -> (r: Self)
        ensures
            r == SetTearingEffect(tearing_effect),
    {
        SetTearingEffect(tearing_effect)
    }
}

impl DcsCommand for SetTearingEffect {
    open spec fn spec_instruction(&self) -> u8 {
        match self.0 {
            TearingEffect::Off => 0x34,
            _ => 0x35,
        }
    }

    open spec fn spec_params(&self) -> Seq<u8> {
        match self.0 {
            TearingEffect::Off => Seq::empty(),
            TearingEffect::Vertical => seq![0u8],
            TearingEffect::HorizontalAndVertical => seq![1u8],
        }
    }

    fn instruction(&self) -> (r: u8) {
        match self.0 {
            TearingEffect::Off => 0x34,
            _ => 0x35,
        }
    }

    fn params(&self) -> (r: Vec<u8>) {
        let r = match self.0 {
            TearingEffect::Off => Vec::new(),
            TearingEffect::Vertical => vec![0u8],
            TearingEffect::HorizontalAndVertical => vec![1u8],
        };
        assert(r@ =~= self.spec_params());
        r
    }
}

/// Turn color inversion on (0x21) or off (0x20).
#[derive(Clone, Copy, Debug, PartialEq, Eq, Structural)]
pub struct SetInvertMode(pub ColorInversion);

impl SetInvertMode {
    /// Creates a new invert mode command.
    pub fn new(color_inversion: ColorInversion) -> (r: Self)
        ensures
            r == SetInvertMode(color_inversion),
    {
        SetInvertMode(color_inversion)
    }
}

impl DcsCommand for SetInvertMode {
    open spec fn spec_instruction(&self) -> u8 {
        match self.0 {
            ColorInversion::Normal => 0x20,
            ColorInversion::Inverted => 0x21,
        }
    }

    open spec fn spec_params(&self) -> Seq<u8> {
        Seq::empty()
    }

    fn instruction(&self) -> (r: u8) {
        match self.0 {
            ColorInversion::Normal => 0x20,
            ColorInversion::Inverted => 0x21,
        }
    }

    fn params(&self) -> (r: Vec<u8>) {
        Vec::new()
    }
}

/// Bits per pixel of an interface pixel format.
#[derive(Clone, Copy, Debug, PartialEq, Eq, Structural)]
pub enum BitsPerPixel {
    Three,
    Eight,
    Twelve,
    Sixteen,
    Eighteen,
    TwentyFour,
}

/// Number of consecutive one bits from the least significant end.
pub open spec fn trailing_ones(v: nat) -> nat
    decreases v,
{
    if v % 2 == 1 {
        1 + trailing_ones(v / 2)
    } else {
        0
    }
}

/// Relies on embedded-graphics-core's `RgbColor` impl for `Rgb565`: the
/// largest value of each channel (5, 6 and 5 bits).
#[verifier::external_body]
fn rgb565_channel_maxima() -> (r: (u8, u8, u8))
    ensures
        r == (31u8, 63u8, 31u8),
{
    (Rgb565::MAX_R, Rgb565::MAX_G, Rgb565::MAX_B)
}

fn channel_bits(max: u8) -> (r: u32)
    ensures
        r == trailing_ones(max as nat),
{
    let mut v: u8 = max;
    let mut n: u32 = 0;
    while v % 2 == 1
        invariant
            n + trailing_ones(v as nat) == trailing_ones(max as nat),
            n + v <= max,
        decreases v,
    {
        n = n + 1;
        v = v / 2;
    }
    n
}

impl BitsPerPixel {
    /// The 3-bit code of the format.
    pub open spec fn code(self) -> u8 {
        match self {
            BitsPerPixel::Three => 0b001,
            BitsPerPixel::Eight => 0b010,
            BitsPerPixel::Twelve => 0b011,
            BitsPerPixel::Sixteen => 0b101,
            BitsPerPixel::Eighteen => 0b110,
            BitsPerPixel::TwentyFour => 0b111,
        }
    }

    /// The number of bits of the format.
    pub open spec fn bits(self) -> nat {
        match self {
            BitsPerPixel::Three => 3,
            BitsPerPixel::Eight => 8,
            BitsPerPixel::Twelve => 12,
            BitsPerPixel::Sixteen => 16,
            BitsPerPixel::Eighteen => 18,
            BitsPerPixel::TwentyFour => 24,
        }
    }

    /// The format with the given number of bits per pixel, if there is one.
    pub fn from_bits(bits: u32) -> (r: Option<BitsPerPixel>)
        ensures
            r is Some <==> (bits == 3 || bits == 8 || bits == 12 || bits == 16 || bits == 18
                || bits == 24),
            r is Some ==> r->Some_0.bits() == bits,
    {
        match bits {
            3 => Some(BitsPerPixel::Three),
            8 => Some(BitsPerPixel::Eight),
            12 => Some(BitsPerPixel::Twelve),
            16 => Some(BitsPerPixel::Sixteen),
            18 => Some(BitsPerPixel::Eighteen),
            24 => Some(BitsPerPixel::TwentyFour),
            _ => None,
        }
    }

    /// The format of `Rgb565` colors, from the widths of their channels.
    pub fn rgb565() -> (r: BitsPerPixel)
        ensures
            r == BitsPerPixel::Sixteen,
    {
        let (max_r, max_g, max_b) = rgb565_channel_maxima();
        let r_bits = channel_bits(max_r);
        let g_bits = channel_bits(max_g);
        let b_bits = channel_bits(max_b);
        proof {
            reveal_with_fuel(trailing_ones, 8);
        }
        assert(trailing_ones(31) == 5);
        assert(trailing_ones(63) == 6);
        match BitsPerPixel::from_bits(r_bits + g_bits + b_bits) {
            Some(bpp) => bpp,
            None => BitsPerPixel::Sixteen,
        }
    }
}

/// Pixel format of the two panel interfaces.
#[derive(Clone, Copy, Debug, PartialEq, Eq, Structural)]
pub struct PixelFormat {
    /// Format of the RGB (DPI) interface.
    pub dpi: BitsPerPixel,
    /// Format of the control (DBI) interface.
    pub dbi: BitsPerPixel,
}

impl PixelFormat {
    /// The same format on both interfaces.
    pub fn with_all(bpp: BitsPerPixel) -> (r: Self)
        ensures
            r == (PixelFormat { dpi: bpp, dbi: bpp }),
    {
        PixelFormat { dpi: bpp, dbi: bpp }
    }

    /// The format byte: DPI code in bits 4..7, DBI code in bits 0..3.
    pub open spec fn spec_byte(self) -> u8 {
        (self.dpi.code() * 16 + self.dbi.code()) as u8
    }

    /// Returns the format byte.
    pub fn as_u8(&self) -> (r: u8)
        ensures
            r == self.spec_byte(),
    {
        BitsPerPixel::code_of(self.dpi) * 16 + BitsPerPixel::code_of(self.dbi)
    }
}

impl BitsPerPixel {
    /// Returns the 3-bit code of a format.
    pub fn code_of(bpp: BitsPerPixel) -> (r: u8)
        ensures
            r == bpp.code(),
    {
        match bpp {
            BitsPerPixel::Three => 0b001,
            BitsPerPixel::Eight => 0b010,
            BitsPerPixel::Twelve => 0b011,
            BitsPerPixel::Sixteen => 0b101,
            BitsPerPixel::Eighteen => 0b110,
            BitsPerPixel::TwentyFour => 0b111,
        }
    }
}

/// Set the interface pixel format.
#[derive(Clone, Copy, Debug, PartialEq, Eq, Structural)]
pub struct SetPixelFormat(pub PixelFormat);

impl SetPixelFormat {
    /// Creates a new pixel format command.
    pub fn new(pixel_format: PixelFormat) -> (r: Self)
        ensures
            r == SetPixelFormat(pixel_format),
    {
        SetPixelFormat(pixel_format)
    }
}

impl DcsCommand for SetPixelFormat {
    open spec fn spec_instruction(&self) -> u8 {
        0x3A
    }

    open spec fn spec_params(&self) -> Seq<u8> {
        seq![self.0.spec_byte()]
    }

    fn instruction(&self) -> (r: u8) {
        0x3A
    }

    fn params(&self) -> (r: Vec<u8>) {
        let r = vec![self.0.as_u8()];
        assert(r@ =~= self.spec_params());
        r
    }
}

/// The address mode (MADCTL) value: how the panel walks its memory, and its
/// subpixel and refresh order.
#[derive(Clone, Copy, Debug, PartialEq, Eq, Structural)]
pub struct SetAddressMode(pub u8);

/// The MADCTL byte, one bit per flag.
pub open spec fn address_mode_bits(
    color_order: ColorOrder,
    orientation: Orientation,
    refresh_order: RefreshOrder,
) -> u8 {
    let m = MemoryMapping::of(orientation);
    ((if m.reverse_rows { 0x80int } else { 0 }) + (if m.reverse_columns { 0x40int } else { 0 })
        + (if m.swap_rows_and_columns { 0x20int } else { 0 }) + (if refresh_order.vertical
        == VerticalRefreshOrder::BottomToTop { 0x10int } else { 0 }) + (if color_order
        == ColorOrder::Bgr { 0x08int } else { 0 }) + (if refresh_order.horizontal
        == HorizontalRefreshOrder::RightToLeft { 0x04int } else { 0 })) as u8
}

impl SetAddressMode {
    /// The address mode that a set of options asks for.
    pub open spec fn of(options: ModelOptions) -> SetAddressMode {
        SetAddressMode(
            address_mode_bits(options.color_order, options.orientation, options.refresh_order),
        )
    }

    /// Creates a new address mode value.
    pub fn new(color_order: ColorOrder, orientation: Orientation, refresh_order: RefreshOrder) -> (r:
        Self)
        ensures
            r.0 == address_mode_bits(color_order, orientation, refresh_order),
    {
        let m = MemoryMapping::from_orientation(orientation);
        let mut v: u8 = 0;
        if m.reverse_rows {
            v = v + 0x80;
        }
        if m.reverse_columns {
            v = v + 0x40;
        }
        if m.swap_rows_and_columns {
            v = v + 0x20;
        }
        if refresh_order.vertical == VerticalRefreshOrder::BottomToTop {
            v = v + 0x10;
        }
        if color_order == ColorOrder::Bgr {
            v = v + 0x08;
        }
        if refresh_order.horizontal == HorizontalRefreshOrder::RightToLeft {
            v = v + 0x04;
        }
        SetAddressMode(v)
    }

    /// The address mode that a set of options asks for.
    pub fn from_options(options: &ModelOptions) -> (r: Self)
        ensures
            r == SetAddressMode::of(*options),
    {
        SetAddressMode::new(options.color_order, options.orientation, options.refresh_order)
    }
}

impl DcsCommand for SetAddressMode {
    open spec fn spec_instruction(&self) -> u8 {
        0x36
    }

    open spec fn spec_params(&self) -> Seq<u8> {
        seq![self.0]
    }

    fn instruction(&self) -> (r: u8) {
        0x36
    }

    fn params(&self) -> (r: Vec<u8>) {
        let r = vec![self.0];
        assert(r@ =~= self.spec_params());
        r
    }
}

} // verus!
