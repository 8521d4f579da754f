//! A minimal retained-mode UI core: widgets are registered under unique
//! identities, pointer events are dispatched to them by spatial hit-testing,
//! and each frame is rendered by collecting every visible widget's drawing
//! commands in order.
//!
//! The windowing bridge and the drawing backend are external collaborators:
//! this crate computes hit tests, state transitions and command lists over
//! plain values, and an embedding shell forwards them to a platform.

use vstd::prelude::*;

pub mod event;
pub mod management;
pub mod object;
pub mod render;
pub mod widget;

verus! {

/// An area on the screen.
///
/// The rectangle is held by the coordinates of its upper-left and
/// lower-right corners, in whole window pixels. Every rectangle built by
/// [`Rect::from_coordinate`] is well formed: the corners are ordered and
/// both fit a signed 32-bit cursor coordinate.
#[derive(Clone, Copy, Debug, PartialEq, Eq, Structural)]
pub struct Rect {
    pub left: u32,
    pub top: u32,
    pub right: u32,
    pub bottom: u32,
}

impl Rect {
    /// A rectangle is well formed when its corners are ordered and fit a
    /// signed 32-bit coordinate, so that hit tests against a cursor
    /// position are exact.
    pub open spec fn wf(&self) -> bool {
        &&& self.left <= self.right
        &&& self.top <= self.bottom
        &&& self.right <= 0x7fff_ffff
        &&& self.bottom <= 0x7fff_ffff
    }

    /// Whether the point `(x, y)` lies inside this rectangle, with
    /// inclusive bounds on all four edges.
    pub open spec fn spec_contains(&self, x: int, y: int) -> bool {
        &&& self.left <= x <= self.right
        &&& self.top <= y <= self.bottom
    }

    /// Obtains the X coordinate.
    pub fn x(&self) -> (r: u32)
        ensures
            r == self.left,
    {
        self.left
    }

    /// Obtains the Y coordinate.
    pub fn y(&self) -> (r: u32)
        ensures
            r == self.top,
    {
        self.top
    }

    /// Get width.
    pub fn width(&self) -> (r: u32)
        requires
            self.wf(),
        ensures
            r == self.right - self.left,
    {
        self.right - self.left
    }

    /// Get height.
    pub fn height(&self) -> (r: u32)
        requires
            self.wf(),
        ensures
            r == self.bottom - self.top,
    {
        self.bottom - self.top
    }

    /// Builds the rectangle with upper-left corner `(x, y)` and the given
    /// extents.
    pub fn from_coordinate(x: u32, y: u32, width: u32, height: u32) -> (r: Self)
        requires
            x + width <= 0x7fff_ffff,
            y + height <= 0x7fff_ffff,
        ensures
            r == (Rect { left: x, top: y, right: (x + width) as u32, bottom: (y + height) as u32 }),
            r.wf(),
    {
        Self { left: x, top: y, right: x + width, bottom: y + height }
    }

    /// Tests whether the cursor position `(x, y)` lies inside this
    /// rectangle, with inclusive bounds on all four edges.
    pub fn contains_point(&self, x: i32, y: i32) -> (r: bool)
        requires
            self.wf(),
        ensures
            r == self.spec_contains(x as int, y as int),
    {
        let cx = self.left as i32;
        let cy = self.top as i32;
        let width = (self.right - self.left) as i32;
        let height = (self.bottom - self.top) as i32;
        x >= cx && x <= cx + width && y >= cy && y <= cy + height
    }
}

impl Default for Rect {
    /// The default rectangle covers `(0, 0)` to `(800, 600)`.
    fn default() -> (r: Self)
        ensures
            r == (Rect { left: 0, top: 0, right: 800, bottom: 600 }),
    {
        Self::from_coordinate(0, 0, 800, 600)
    }
}

/// A color, either one of the two named shades or an ARGB quadruple.
#[derive(Clone, Copy, Debug, PartialEq, Eq, Structural)]
pub enum Color {
    Black,
    White,
    /// Initialization with ARGB allows you to create your own colors.
    ARGB(u8, u8, u8, u8),
}

impl Color {
    /// The color with every channel of an ARGB quadruple flipped; black and
    /// white are swapped, and alpha is kept.
    pub open spec fn spec_inversion(&self) -> Color {
        match self {
            Color::Black => Color::White,
            Color::White => Color::Black,
            Color::ARGB(a, r, g, b) => Color::ARGB(
                *a,
                (255 - *r) as u8,
                (255 - *g) as u8,
                (255 - *b) as u8,
            ),
        }
    }

    /// Returns the inverted color.
    pub fn inversion(&self) -> (r: Color)
        ensures
            r == self.spec_inversion(),
    {
        match self {
            Color::Black => Color::White,
            Color::White => Color::Black,
            Color::ARGB(a, r, g, b) => {
                Color::ARGB(*a, u8::MAX - (*r), u8::MAX - (*g), u8::MAX - (*b))
            },
        }
    }
}

/// The color triple a widget draws with while in one interaction state.
#[derive(Clone, Copy, Debug, PartialEq, Eq, Structural)]
pub struct ColorPair {
    pub color: Color,
    pub bgr: Color,
    pub shadow: Color,
}

impl ColorPair {
    /// Builds the triple of text color, background and shadow.
    pub fn new(color: Color, bgr: Color, shadow: Color) -> (r: Self)
        ensures
            r == (ColorPair { color, bgr, shadow }),
    {
        Self { color, bgr, shadow }
    }
}

/// The window-level affinity of a theme: whether it suits a light or a dark
/// platform appearance.
#[derive(Clone, Copy, Debug, PartialEq, Eq, Structural)]
pub enum WindowTheme {
    Light,
    Dark,
}

/// An immutable palette: one color triple for each interaction state, a
/// window-level affinity, and the default background a frame is cleared to.
#[derive(Clone, Copy, Debug, PartialEq, Eq, Structural)]
pub struct Theme {
    pub hover: ColorPair,
    pub click: ColorPair,
    pub normal: ColorPair,
    pub window: WindowTheme,
    pub bgr: Color,
}

impl Theme {
    /// The light palette.
    pub open spec fn spec_light() -> Theme {
        Theme {
            hover: ColorPair {
                color: Color::Black,
                bgr: Color::White,
                shadow: Color::ARGB(255, 0, 170, 204),
            },
            click: ColorPair {
                color: Color::Black,
                bgr: Color::ARGB(255, 200, 200, 200),
                shadow: Color::ARGB(255, 0, 70, 204),
            },
            normal: ColorPair {
                color: Color::Black,
                bgr: Color::White,
                shadow: Color::ARGB(255, 128, 128, 128),
            },
            window: WindowTheme::Light,
            bgr: Color::ARGB(255, 240, 240, 240),
        }
    }

    /// The dark palette.
    pub open spec fn spec_dark() -> Theme {
        Theme {
            hover: ColorPair {
                color: Color::White,
                bgr: Color::ARGB(255, 180, 180, 180),
                shadow: Color::ARGB(255, 200, 200, 200),
            },
            click: ColorPair {
                color: Color::White,
                bgr: Color::ARGB(255, 144, 144, 144),
                shadow: Color::White,
            },
            normal: ColorPair {
                color: Color::ARGB(255, 220, 220, 220),
                bgr: Color::ARGB(255, 72, 72, 72),
                shadow: Color::ARGB(255, 200, 200, 200),
            },
            window: WindowTheme::Dark,
            bgr: Color::ARGB(255, 72, 72, 72),
        }
    }

    /// The light palette with raised contrast.
    pub open spec fn spec_light_high_contrast() -> Theme {
        Theme {
            hover: ColorPair {
                color: Color::Black,
                bgr: Color::White,
                shadow: Color::ARGB(255, 0, 108, 255),
            },
            click: ColorPair {
                color: Color::Black,
                bgr: Color::White,
                shadow: Color::ARGB(255, 39, 135, 255),
            },
            normal: ColorPair {
                color: Color::Black,
                bgr: Color::White,
                shadow: Color::ARGB(255, 40, 40, 40),
            },
            window: WindowTheme::Light,
            bgr: Color::White,
        }
    }

    /// The dark palette with raised contrast.
    pub open spec fn spec_dark_high_contrast() -> Theme {
        Theme {
            hover: ColorPair {
                color: Color::White,
                bgr: Color::Black,
                shadow: Color::ARGB(255, 255, 159, 59),
            },
            click: ColorPair {
                color: Color::White,
                bgr: Color::Black,
                shadow: Color::ARGB(255, 255, 135, 0),
            },
            normal: ColorPair {
                color: Color::White,
                bgr: Color::Black,
                shadow: Color::ARGB(255, 0, 255, 224),
            },
            window: WindowTheme::Dark,
            bgr: Color::Black,
        }
    }

    /// Builds the light palette.
    pub fn light() -> (r: Theme)
        ensures
            r == Theme::spec_light(),
    {
        Theme {
            hover: ColorPair {
                color: Color::Black,
                bgr: Color::White,
                shadow: Color::ARGB(255, 0, 170, 204),
            },
            click: ColorPair {
                color: Color::Black,
                bgr: Color::ARGB(255, 200, 200, 200),
                shadow: Color::ARGB(255, 0, 70, 204),
            },
            normal: ColorPair {
                color: Color::Black,
                bgr: Color::White,
                shadow: Color::ARGB(255, 128, 128, 128),
            },
            window: WindowTheme::Light,
            bgr: Color::ARGB(255, 240, 240, 240),
        }
    }

    /// Builds the dark palette.
    pub fn dark() -> (r: Theme)
        ensures
            r == Theme::spec_dark(),
    {
        Theme {
            hover: ColorPair {
                color: Color::White,
                bgr: Color::ARGB(255, 180, 180, 180),
                shadow: Color::ARGB(255, 200, 200, 200),
            },
            click: ColorPair {
                color: Color::White,
                bgr: Color::ARGB(255, 144, 144, 144),
                shadow: Color::White,
            },
            normal: ColorPair {
                color: Color::ARGB(255, 220, 220, 220),
                bgr: Color::ARGB(255, 72, 72, 72),
                shadow: Color::ARGB(255, 200, 200, 200),
            },
            window: WindowTheme::Dark,
            bgr: Color::ARGB(255, 72, 72, 72),
        }
    }

    /// Builds the light palette with raised contrast.
    pub fn light_high_contrast() -> (r: Theme)
        ensures
            r == Theme::spec_light_high_contrast(),
    {
        Theme {
            hover: ColorPair {
                color: Color::Black,
                bgr: Color::White,
                shadow: Color::ARGB(255, 0, 108, 255),
            },
            click: ColorPair {
                color: Color::Black,
                bgr: Color::White,
                shadow: Color::ARGB(255, 39, 135, 255),
            },
            normal: ColorPair {
                color: Color::Black,
                bgr: Color::White,
                shadow: Color::ARGB(255, 40, 40, 40),
            },
            window: WindowTheme::Light,
            bgr: Color::White,
        }
    }

    /// Builds the dark palette with raised contrast.
    pub fn dark_high_contrast() -> (r: Theme)
        ensures
            r == Theme::spec_dark_high_contrast(),
    {
        Theme {
            hover: ColorPair {
                color: Color::White,
                bgr: Color::Black,
                shadow: Color::ARGB(255, 255, 159, 59),
            },
            click: ColorPair {
                color: Color::White,
                bgr: Color::Black,
                shadow: Color::ARGB(255, 255, 135, 0),
            },
            normal: ColorPair {
                color: Color::White,
                bgr: Color::Black,
                shadow: Color::ARGB(255, 0, 255, 224),
            },
            window: WindowTheme::Dark,
            bgr: Color::Black,
        }
    }

    /// Builds the default palette.
    pub fn new() -> (r: Self)
        ensures
            r == Theme::spec_light(),
    {
        Theme::light()
    }
}

impl Default for Theme {
    /// The default palette is the light one.
    fn default() -> (r: Self)
        ensures
            r == Theme::spec_light(),
    {
        Theme::light()
    }
}

/// A trigger a widget reacted to.
#[derive(Clone, Copy, Debug, PartialEq, Eq, Structural)]
pub enum WidgetEvent {
    OnHover,
    OnClick,
}

/// An event surfaced to the application shell's handler.
#[derive(Clone, Copy, Debug)]
pub enum ApplicationEvent {
    Close,
    RedrawRequested,
    OnEvent(WidgetEvent, crate::object::ID),
}

} // verus!
