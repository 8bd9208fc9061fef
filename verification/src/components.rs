//! The kinds of component that the user-interface templates write, and the
//! plain values they are made of.

use vstd::prelude::*;
use crate::assets::Handle;

verus! {

/// A real number in single precision, kept as the 32 bits of its IEEE 754
/// encoding. The library moves such numbers around and never computes with
/// them.
#[derive(Clone, Copy, Debug, PartialEq, Eq, Structural)]
pub struct Scalar {
    pub bits: u32,
}

/// The encoding of the number one.
pub const ONE_BITS: u32 = 0x3F80_0000;

impl Scalar {
    /// The number with the given encoding.
    pub fn from_bits(bits: u32) -> (scalar: Scalar)
        ensures
            scalar.bits == bits,
    {
        Scalar { bits }
    }

    /// The encoding of this number.
    pub fn to_bits(&self) -> (bits: u32)
        ensures
            bits == self.bits,
    {
        self.bits
    }

    /// The number zero.
    pub open spec fn spec_zero() -> Scalar {
        Scalar { bits: 0 }
    }

    /// The number one.
    pub open spec fn spec_one() -> Scalar {
        Scalar { bits: ONE_BITS }
    }

    /// The number zero.
    #[verifier::when_used_as_spec(spec_zero)]
    pub fn zero() -> (scalar: Scalar)
        ensures
            scalar == Self::spec_zero(),
    {
        Scalar { bits: 0 }
    }

    /// The number one.
    #[verifier::when_used_as_spec(spec_one)]
    pub fn one() -> (scalar: Scalar)
        ensures
            scalar == Self::spec_one(),
    {
        Scalar { bits: ONE_BITS }
    }
}

/// A colour: red, green, blue and opacity.
#[derive(Clone, Copy, Debug, PartialEq, Eq, Structural)]
pub struct Color {
    pub red: Scalar,
    pub green: Scalar,
    pub blue: Scalar,
    pub alpha: Scalar,
}

impl Color {
    /// The colour with the given parts.
    pub fn new(red: Scalar, green: Scalar, blue: Scalar, alpha: Scalar) -> (color: Color)
        ensures
            color == (Color { red, green, blue, alpha }),
    {
        Color { red, green, blue, alpha }
    }

    /// Opaque black.
    pub open spec fn spec_black() -> Color {
        Color {
            red: Scalar::spec_zero(),
            green: Scalar::spec_zero(),
            blue: Scalar::spec_zero(),
            alpha: Scalar::spec_one(),
        }
    }

    /// Opaque white.
    pub open spec fn spec_white() -> Color {
        Color {
            red: Scalar::spec_one(),
            green: Scalar::spec_one(),
            blue: Scalar::spec_one(),
            alpha: Scalar::spec_one(),
        }
    }

    /// Opaque black.
    #[verifier::when_used_as_spec(spec_black)]
    pub fn black() -> (color: Color)
        ensures
            color == Self::spec_black(),
    {
        Color { red: Scalar::zero(), green: Scalar::zero(), blue: Scalar::zero(), alpha: Scalar::one() }
    }

    /// Opaque white.
    #[verifier::when_used_as_spec(spec_white)]
    pub fn white() -> (color: Color)
        ensures
            color == Self::spec_white(),
    {
        Color { red: Scalar::one(), green: Scalar::one(), blue: Scalar::one(), alpha: Scalar::one() }
    }
}

/// The point of the parent that an element is placed against.
#[derive(Clone, Copy, Debug, PartialEq, Eq, Structural)]
pub enum Anchor {
    TopLeft,
    TopMiddle,
    TopRight,
    MiddleLeft,
    Middle,
    MiddleRight,
    BottomLeft,
    BottomMiddle,
    BottomRight,
}

/// The axes along which an element fills its parent.
#[derive(Clone, Copy, Debug, PartialEq, Eq, Structural)]
pub enum Stretch {
    X,
    Y,
    XY,
}

/// Component: the element is placed against a point of its parent.
#[derive(Clone, Copy, Debug, PartialEq, Eq, Structural)]
pub struct Anchored {
    pub anchor: Anchor,
}

impl Anchored {
    /// Placement against `anchor`.
    pub fn new(anchor: Anchor) -> (anchored: Anchored)
        ensures
            anchored == (Anchored { anchor }),
    {
        Anchored { anchor }
    }
}

/// Component: the element fills its parent along some axes, less a margin.
#[derive(Clone, Copy, Debug, PartialEq, Eq, Structural)]
pub struct Stretched {
    pub stretch: Stretch,
    pub margin_x: Scalar,
    pub margin_y: Scalar,
}

impl Stretched {
    /// Filling along `stretch` with the given margins.
    pub fn new(stretch: Stretch, margin_x: Scalar, margin_y: Scalar) -> (stretched: Stretched)
        ensures
            stretched == (Stretched { stretch, margin_x, margin_y }),
    {
        Stretched { stretch, margin_x, margin_y }
    }
}

/// Component: the element reacts to the mouse.
#[derive(Clone, Copy, Debug, PartialEq, Eq, Structural)]
pub struct MouseReactive;

/// Component: where an element is, how large it is, and how it takes part
/// in events.
#[derive(Clone, Debug)]
pub struct UiTransform {
    pub id: String,
    pub x: Scalar,
    pub y: Scalar,
    pub z: Scalar,
    pub width: Scalar,
    pub height: Scalar,
    pub tab_order: i32,
    /// Whether the element stops events from reaching what lies behind it.
    pub opaque: bool,
    /// Whether position and size are fractions of the parent's.
    pub percent: bool,
}

impl UiTransform {
    /// An element that is opaque to events and measured in absolute units.
    pub fn new(
        id: String,
        x: Scalar,
        y: Scalar,
        z: Scalar,
        width: Scalar,
        height: Scalar,
        tab_order: i32,
    ) -> (transform: UiTransform)
        ensures
            transform == (UiTransform {
                id,
                x,
                y,
                z,
                width,
                height,
                tab_order,
                opaque: true,
                percent: false,
            }),
    {
        UiTransform { id, x, y, z, width, height, tab_order, opaque: true, percent: false }
    }

    /// The same element, letting events through.
    pub fn as_transparent(self) -> (transform: UiTransform)
        ensures
            transform == (UiTransform { opaque: false, ..self }),
    {
        let mut transform = self;
        transform.opaque = false;
        transform
    }

    /// The same element, measured in fractions of its parent.
    pub fn as_percent(self) -> (transform: UiTransform)
        ensures
            transform == (UiTransform { percent: true, ..self }),
    {
        let mut transform = self;
        transform.percent = true;
        transform
    }
}

/// A font, decoded. The library hands it on and never looks inside.
#[derive(Clone, Debug)]
pub struct FontAsset {
    pub data: Vec<u8>,
}

/// An image, decoded. The library hands it on and never looks inside.
#[derive(Clone, Debug)]
pub struct Texture {
    pub data: Vec<u8>,
}

/// Component: a line of text.
pub struct UiText {
    pub font: Handle<FontAsset>,
    pub text: String,
    pub color: Color,
    pub font_size: Scalar,
    /// Whether the text is shown as a password.
    pub password: bool,
}

impl UiText {
    /// Text that is shown as it is.
    pub fn new(font: Handle<FontAsset>, text: String, color: Color, font_size: Scalar) -> (ui_text:
        UiText)
        ensures
            ui_text == (UiText { font, text, color, font_size, password: false }),
    {
        UiText { font, text, color, font_size, password: false }
    }
}

/// Component: the text of the element can be edited.
#[derive(Clone, Copy, Debug, PartialEq, Eq, Structural)]
pub struct TextEditing {
    /// Largest number of graphemes.
    pub max_length: usize,
    pub selected_text_color: Color,
    pub selected_background_color: Color,
    /// Whether the cursor is a block rather than a line.
    pub use_block_cursor: bool,
}

impl TextEditing {
    /// Editing with the given limits and colours.
    pub fn new(
        max_length: usize,
        selected_text_color: Color,
        selected_background_color: Color,
        use_block_cursor: bool,
    ) -> (editing: TextEditing)
        ensures
            editing == (TextEditing {
                max_length,
                selected_text_color,
                selected_background_color,
                use_block_cursor,
            }),
    {
        TextEditing { max_length, selected_text_color, selected_background_color, use_block_cursor }
    }
}

/// Component: an image.
pub struct UiImage {
    pub texture: Handle<Texture>,
}

} // verus!
