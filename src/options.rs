//! [ModelOptions] and the small value types that configure a panel.
use vstd::prelude::*;

use crate::models::Model;

verus! {

/// Color inversion.
#[derive(Clone, Copy, Debug, PartialEq, Eq, Structural)]
pub enum ColorInversion {
    /// Normal colors.
    Normal,
    /// Inverted colors.
    Inverted,
}

impl Default for ColorInversion {
    fn default() -> (r: Self)
        ensures
            r == ColorInversion::Normal,
    {
        ColorInversion::Normal
    }
}

/// Vertical refresh order.
#[derive(Clone, Copy, Debug, PartialEq, Eq, Structural)]
pub enum VerticalRefreshOrder {
    /// Refresh from top to bottom.
    TopToBottom,
    /// Refresh from bottom to top.
    BottomToTop,
}

impl Default for VerticalRefreshOrder {
    fn default() -> (r: Self)
        ensures
            r == VerticalRefreshOrder::TopToBottom,
    {
        VerticalRefreshOrder::TopToBottom
    }
}

impl VerticalRefreshOrder {
    /// The opposite order, as a spec function.
    pub open spec fn flipped(self) -> Self {
        match self {
            VerticalRefreshOrder::TopToBottom => VerticalRefreshOrder::BottomToTop,
            VerticalRefreshOrder::BottomToTop => VerticalRefreshOrder::TopToBottom,
        }
    }

    /// Returns the opposite refresh order.
    pub fn flip(self) -> (r: Self)
        ensures
            r == self.flipped(),
            r != self,
    {
        match self {
            VerticalRefreshOrder::TopToBottom => VerticalRefreshOrder::BottomToTop,
            VerticalRefreshOrder::BottomToTop => VerticalRefreshOrder::TopToBottom,
        }
    }
}

/// Horizontal refresh order.
#[derive(Clone, Copy, Debug, PartialEq, Eq, Structural)]
pub enum HorizontalRefreshOrder {
    /// Refresh from left to right.
    LeftToRight,
    /// Refresh from right to left.
    RightToLeft,
}

impl Default for HorizontalRefreshOrder {
    fn default() -> (r: Self)
        ensures
            r == HorizontalRefreshOrder::LeftToRight,
    {
        HorizontalRefreshOrder::LeftToRight
    }
}

impl HorizontalRefreshOrder {
    /// The opposite order, as a spec function.
    pub open spec fn flipped(self) -> Self {
        match self {
            HorizontalRefreshOrder::LeftToRight => HorizontalRefreshOrder::RightToLeft,
            HorizontalRefreshOrder::RightToLeft => HorizontalRefreshOrder::LeftToRight,
        }
    }

    /// Returns the opposite refresh order.
    pub fn flip(self) -> (r: Self)
        ensures
            r == self.flipped(),
            r != self,
    {
        match self {
            HorizontalRefreshOrder::LeftToRight => HorizontalRefreshOrder::RightToLeft,
            HorizontalRefreshOrder::RightToLeft => HorizontalRefreshOrder::LeftToRight,
        }
    }
}

/// Display refresh order: left to right, top to bottom unless changed.
#[derive(Clone, Copy, Debug, PartialEq, Eq, Structural)]
pub struct RefreshOrder {
    /// Vertical refresh order.
    pub vertical: VerticalRefreshOrder,
    /// Horizontal refresh order.
    pub horizontal: HorizontalRefreshOrder,
}

impl Default for RefreshOrder {
    fn default() -> (r: Self)
        ensures
            r == (RefreshOrder {
                vertical: VerticalRefreshOrder::TopToBottom,
                horizontal: HorizontalRefreshOrder::LeftToRight,
            }),
    {
        RefreshOrder::new(VerticalRefreshOrder::default(), HorizontalRefreshOrder::default())
    }
}

impl RefreshOrder {
    /// Creates a new refresh order.
    pub fn new(vertical: VerticalRefreshOrder, horizontal: HorizontalRefreshOrder) -> (r: Self)
        ensures
            r.vertical == vertical,
            r.horizontal == horizontal,
    {
        RefreshOrder { vertical, horizontal }
    }

    /// Returns a refresh order with the vertical order flipped.
    pub fn flip_vertical(self) -> (r: Self)
        ensures
            r.vertical == self.vertical.flipped(),
            r.horizontal == self.horizontal,
    {
        RefreshOrder { vertical: self.vertical.flip(), horizontal: self.horizontal }
    }

    /// Returns a refresh order with the horizontal order flipped.
    pub fn flip_horizontal(self) -> (r: Self)
        ensures
            r.vertical == self.vertical,
            r.horizontal == self.horizontal.flipped(),
    {
        RefreshOrder { vertical: self.vertical, horizontal: self.horizontal.flip() }
    }
}

/// Tearing effect output setting.
#[derive(Clone, Copy, Debug, PartialEq, Eq, Structural)]
pub enum TearingEffect {
    /// Disable output.
    Off,
    /// Output vertical blanking information.
    Vertical,
    /// Output horizontal and vertical blanking information.
    HorizontalAndVertical,
}

/// Subpixel order.
#[derive(Clone, Copy, Debug, PartialEq, Eq, Structural)]
pub enum ColorOrder {
    /// RGB subpixel order.
    Rgb,
    /// BGR subpixel order.
    Bgr,
}

impl Default for ColorOrder {
    fn default() -> (r: Self)
        ensures
            r == ColorOrder::Rgb,
    {
        ColorOrder::Rgb
    }
}

/// Error returned for an angle that is not a multiple of 90 degrees in `0..360`.
#[derive(Clone, Copy, Debug, PartialEq, Eq, Structural)]
pub struct InvalidAngleError;

/// Display rotation, counted clockwise.
#[derive(Clone, Copy, Debug, PartialEq, Eq, Structural)]
pub enum Rotation {
    /// No rotation.
    Deg0,
    /// 90° rotation.
    Deg90,
    /// 180° rotation.
    Deg180,
    /// 270° rotation.
    Deg270,
}

impl Rotation {
    /// The angle in degrees.
    pub open spec fn degrees(self) -> int {
        match self {
            Rotation::Deg0 => 0,
            Rotation::Deg90 => 90,
            Rotation::Deg180 => 180,
            Rotation::Deg270 => 270,
        }
    }

    /// Whether the rotation turns the panel on its side.
    pub open spec fn spec_is_vertical(self) -> bool {
        self == Rotation::Deg90 || self == Rotation::Deg270
    }

    /// Returns the angle in degrees.
    pub fn to_degrees(self) -> (r: i32)
        ensures
            r == self.degrees(),
    {
        match self {
            Rotation::Deg0 => 0,
            Rotation::Deg90 => 90,
            Rotation::Deg180 => 180,
            Rotation::Deg270 => 270,
        }
    }

    /// Converts an angle in degrees; only 0, 90, 180 and 270 are accepted.
    pub fn from_degrees(angle: i32) -> (r: Result<Rotation, InvalidAngleError>)
        ensures
            r is Ok <==> (angle == 0 || angle == 90 || angle == 180 || angle == 270),
            r is Ok ==> r->Ok_0.degrees() == angle,
    {
        match angle {
            0 => Ok(Rotation::Deg0),
            90 => Ok(Rotation::Deg90),
            180 => Ok(Rotation::Deg180),
            270 => Ok(Rotation::Deg270),
            _ => Err(InvalidAngleError),
        }
    }

    /// Adds another rotation to this one.
    pub fn rotate(self, other: Rotation) -> (r: Rotation)
        ensures
            r.degrees() == (self.degrees() + other.degrees()) % 360,
    {
        let sum: i32 = self.to_degrees() + other.to_degrees();
        let angle: i32 = if sum >= 360 { sum - 360 } else { sum };
        match Rotation::from_degrees(angle) {
            Ok(rotation) => rotation,
            Err(_) => Rotation::Deg0,
        }
    }

    /// Returns `true` for 90° and 270°.
    pub fn is_vertical(self) -> (r: bool)
        ensures
            r == self.spec_is_vertical(),
    {
        match self {
            Rotation::Deg90 | Rotation::Deg270 => true,
            _ => false,
        }
    }

    /// Returns `true` for 0° and 180°.
    pub fn is_horizontal(self) -> (r: bool)
        ensures
            r == !self.spec_is_vertical(),
    {
        !self.is_vertical()
    }
}

/// Display orientation: a rotation, and whether the image is mirrored.
#[derive(Clone, Copy, Debug, PartialEq, Eq, Structural)]
pub struct Orientation {
    /// Rotation.
    pub rotation: Rotation,
    /// Mirrored.
    pub mirrored: bool,
}

impl Default for Orientation {
    fn default() -> (r: Self)
        ensures
            r == (Orientation { rotation: Rotation::Deg0, mirrored: false }),
    {
        Orientation::new()
    }
}

impl Orientation {
    /// The default orientation: not rotated, not mirrored.
    pub fn new() -> (r: Self)
        ensures
            r == (Orientation { rotation: Rotation::Deg0, mirrored: false }),
    {
        Orientation { rotation: Rotation::Deg0, mirrored: false }
    }

    /// Rotates the orientation further.
    pub fn rotate(self, rotation: Rotation) -> (r: Self)
        ensures
            r.rotation.degrees() == (self.rotation.degrees() + rotation.degrees()) % 360,
            r.mirrored == self.mirrored,
    {
        Orientation { rotation: self.rotation.rotate(rotation), mirrored: self.mirrored }
    }

    /// Mirrors the image left to right.
    pub fn flip_horizontal(self) -> (r: Self)
        ensures
            r.rotation == self.rotation,
            r.mirrored == !self.mirrored,
    {
        Orientation { rotation: self.rotation, mirrored: !self.mirrored }
    }

    /// Mirrors the image top to bottom.
    pub fn flip_vertical(self) -> (r: Self)
        ensures
            r.rotation.degrees() == (self.rotation.degrees() + 180) % 360,
            r.mirrored == !self.mirrored,
    {
        Orientation { rotation: self.rotation.rotate(Rotation::Deg180), mirrored: !self.mirrored }
    }
}

/// How the panel walks its memory for a given orientation.
#[derive(Clone, Copy, Debug, PartialEq, Eq, Structural)]
pub struct MemoryMapping {
    /// Rows are walked from the last to the first.
    pub reverse_rows: bool,
    /// Columns are walked from the last to the first.
    pub reverse_columns: bool,
    /// Rows and columns are exchanged.
    pub swap_rows_and_columns: bool,
}

impl MemoryMapping {
    /// The mapping of an orientation.
    pub open spec fn of(orientation: Orientation) -> MemoryMapping {
        let r = orientation.rotation;
        let reverse_rows = r == Rotation::Deg180 || r == Rotation::Deg270;
        let reverse_columns = r == Rotation::Deg90 || r == Rotation::Deg180;
        MemoryMapping {
            reverse_rows,
            reverse_columns: reverse_columns != orientation.mirrored,
            swap_rows_and_columns: r.spec_is_vertical(),
        }
    }

    /// Derives the memory mapping from an orientation.
    pub fn from_orientation(orientation: Orientation) -> (r: MemoryMapping)
        ensures
            r == MemoryMapping::of(orientation),
    {
        let (reverse_rows, reverse_columns) = match orientation.rotation {
            Rotation::Deg0 => (false, false),
            Rotation::Deg90 => (false, true),
            Rotation::Deg180 => (true, true),
            Rotation::Deg270 => (true, false),
        };
        MemoryMapping {
            reverse_rows,
            reverse_columns: reverse_columns != orientation.mirrored,
            swap_rows_and_columns: orientation.rotation.is_vertical(),
        }
    }
}

/// Options handed to a panel's initialisation and kept by the session.
#[derive(Clone, Copy, Debug)]
pub struct ModelOptions {
    /// Subpixel order.
    pub color_order: ColorOrder,
    /// Initial display orientation.
    pub orientation: Orientation,
    /// Whether to invert colors for this display/model.
    pub invert_colors: ColorInversion,
    /// Display refresh order.
    pub refresh_order: RefreshOrder,
    /// Display size (w, h) for given display.
    pub display_size: (u16, u16),
    /// Display offset (x, y) for given display.
    pub display_offset: (u16, u16),
}

impl ModelOptions {
    /// The options that every setting starts from, for a given size and offset.
    pub open spec fn defaults(display_size: (u16, u16), display_offset: (u16, u16)) -> ModelOptions {
        ModelOptions {
            color_order: ColorOrder::Rgb,
            orientation: Orientation { rotation: Rotation::Deg0, mirrored: false },
            invert_colors: ColorInversion::Normal,
            refresh_order: RefreshOrder {
                vertical: VerticalRefreshOrder::TopToBottom,
                horizontal: HorizontalRefreshOrder::LeftToRight,
            },
            display_size,
            display_offset,
        }
    }

    /// Creates model options for the entire framebuffer of a model.
    pub fn full_size<M: Model>() -> (r: Self)
        ensures
            r == ModelOptions::defaults(M::spec_framebuffer_size(), (0, 0)),
    {
        ModelOptions::with_all(M::framebuffer_size(), (0, 0))
    }

    /// Creates model options for the given size and offset.
    pub fn with_all(display_size: (u16, u16), display_offset: (u16, u16)) -> (r: Self)
        ensures
            r == ModelOptions::defaults(display_size, display_offset),
    {
        ModelOptions {
            color_order: ColorOrder::default(),
            orientation: Orientation::default(),
            invert_colors: ColorInversion::default(),
            refresh_order: RefreshOrder::default(),
            display_size,
            display_offset,
        }
    }

    /// The display size as seen in the current orientation.
    pub open spec fn oriented_size(self) -> (u16, u16) {
        if self.orientation.rotation.spec_is_vertical() {
            (self.display_size.1, self.display_size.0)
        } else {
            self.display_size
        }
    }

    /// Returns the display size based on current orientation and display options.
    pub fn display_size(&self) -> (r: (u16, u16))
        ensures
            r == self.oriented_size(),
    {
        if self.orientation.rotation.is_horizontal() {
            self.display_size
        } else {
            (self.display_size.1, self.display_size.0)
        }
    }
}

} // verus!
