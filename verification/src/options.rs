//! What the caller chooses once for a display: how it is mounted, in which
//! order it takes the colour channels, and whether it inverts colours.
use vstd::prelude::*;

verus! {

/// The order in which the panel takes the colour channels of a pixel.
#[derive(Debug, Clone, Copy, PartialEq, Eq)]
pub enum ColorOrder {
    Rgb,
    Bgr,
}

/// Whether the panel shows colours as sent or inverted.
#[derive(Debug, Clone, Copy, PartialEq, Eq)]
pub enum ColorInversion {
    Normal,
    Inverted,
}

/// A clockwise rotation of the picture.
#[derive(Debug, Clone, Copy, PartialEq, Eq)]
pub enum Rotation {
    Deg0,
    Deg90,
    Deg180,
    Deg270,
}

impl Rotation {
    /// Whether the rotation turns rows into columns.
    pub open spec fn spec_is_vertical(self) -> bool {
        self is Deg90 || self is Deg270
    }

    /// Whether the rotation turns rows into columns.
    pub fn is_vertical(self) -> (vertical: bool)
        ensures
            vertical == self.spec_is_vertical(),
    {
        match self {
            Rotation::Deg0 => false,
            Rotation::Deg90 => true,
            Rotation::Deg180 => false,
            Rotation::Deg270 => true,
        }
    }
}

/// How the picture is turned and whether it is mirrored.
#[derive(Debug, Clone, Copy, PartialEq, Eq)]
pub struct Orientation {
    pub rotation: Rotation,
    pub mirrored: bool,
}

/// How frame memory is walked to give an orientation.
#[derive(Debug, Clone, Copy, PartialEq, Eq)]
pub struct MemoryMapping {
    pub reverse_rows: bool,
    pub reverse_columns: bool,
    pub swap_rows_and_columns: bool,
}

impl MemoryMapping {
    /// The mapping that shows the picture in `orientation`: the rotation
    /// decides which axes are reversed and whether they are swapped, and
    /// mirroring reverses the columns once more.
    pub open spec fn spec_from_orientation(orientation: Orientation) -> MemoryMapping {
        let (reverse_rows, reverse_columns) = match orientation.rotation {
            Rotation::Deg0 => (false, false),
            Rotation::Deg90 => (false, true),
            Rotation::Deg180 => (true, true),
            Rotation::Deg270 => (true, false),
        };
        MemoryMapping {
            reverse_rows,
            reverse_columns: reverse_columns != orientation.mirrored,
            swap_rows_and_columns: orientation.rotation.spec_is_vertical(),
        }
    }

    /// The mapping that shows the picture in `orientation`.
    pub fn from_orientation(orientation: Orientation) -> (mapping: MemoryMapping)
        ensures
            mapping == Self::spec_from_orientation(orientation),
    {
        let (reverse_rows, reverse_columns) = match orientation.rotation {
            Rotation::Deg0 => (false, false),
            Rotation::Deg90 => (false, true),
            Rotation::Deg180 => (true, true),
            Rotation::Deg270 => (true, false),
        };
        MemoryMapping {
            reverse_rows,
            reverse_columns: reverse_columns != orientation.mirrored,
            swap_rows_and_columns: orientation.rotation.is_vertical(),
        }
    }
}

/// The configuration of one display, read by its bring-up and by the
/// commands that depend on it.
#[derive(Debug, Clone, Copy, PartialEq, Eq)]
pub struct ModelOptions {
    pub color_order: ColorOrder,
    pub orientation: Orientation,
    pub invert_colors: ColorInversion,
}

} // verus!
