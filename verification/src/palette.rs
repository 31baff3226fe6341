//! The colours of the scene.

use vstd::prelude::*;

verus! {

/// A colour by its red, green and blue parts, each in hundredths of the full
/// intensity.
#[derive(Clone, Copy, Debug, PartialEq, Eq, Structural)]
pub struct Rgb {
    pub r: u8,
    pub g: u8,
    pub b: u8,
}

/// Number of colours that the layers of a stack cycle through.
pub const NUM_COLORS: usize = 5;

/// The colours of the layers, in the order in which the layers take them.
pub open spec fn palette() -> Seq<Rgb> {
    seq![
        Rgb { r: 24, g: 24, b: 24 },
        Rgb { r: 10, g: 43, b: 65 },
        Rgb { r: 38, g: 68, b: 67 },
        Rgb { r: 92, g: 54, b: 38 },
        Rgb { r: 65, g: 54, b: 68 },
    ]
}

/// The colour of layer `i`: the palette's colours in turn, starting over
/// after the last.
pub open spec fn layer_color(i: int) -> Rgb {
    palette()[i % (NUM_COLORS as int)]
}

/// The colour behind the stacks.
pub open spec fn background_color() -> Rgb {
    Rgb { r: 88, g: 87, b: 85 }
}

/// Whether no part of the colour is above the full intensity.
pub open spec fn is_color(c: Rgb) -> bool {
    c.r <= 100 && c.g <= 100 && c.b <= 100
}

/// The colour in which layer `i` of a stack is drawn.
pub fn color_of_layer(i: usize) -> (c: Rgb)
    ensures
        c == layer_color(i as int),
        is_color(c),
{
    let k: usize = i % NUM_COLORS;
    if k == 0 {
        Rgb { r: 24, g: 24, b: 24 }
    } else if k == 1 {
        Rgb { r: 10, g: 43, b: 65 }
    } else if k == 2 {
        Rgb { r: 38, g: 68, b: 67 }
    } else if k == 3 {
        Rgb { r: 92, g: 54, b: 38 }
    } else {
        Rgb { r: 65, g: 54, b: 68 }
    }
}

/// The colour with which a frame is cleared before the stacks are drawn.
pub fn background() -> (c: Rgb)
    ensures
        c == background_color(),
        is_color(c),
{
    Rgb { r: 88, g: 87, b: 85 }
}

} // verus!
