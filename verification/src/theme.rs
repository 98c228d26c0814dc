//! The theme boundary: a read-only table of drawing parameters, keyed by
//! widget kind, enabled/disabled, and variant.  Looked up during render and
//! never mutated by the engine.

use vstd::prelude::*;
use crate::geom::{Point, Size};

verus! {

/// A color as `0xRRGGBBAA`.
pub type Color = u32;

/// Widget kinds with mostly distinct theming.
#[derive(Clone, Copy, Debug, PartialEq, Eq, Structural)]
pub enum WidgetType {
    Button,
    Dropdown,
    Tab,
    ToggleButton,
    Checkbox,
    Radiobutton,
    ProgressBar,
}

/// The visual variant a widget is drawn in.
#[derive(Clone, Copy, Debug, PartialEq, Eq, Structural)]
pub enum WidgetVariant {
    Normal,
    Active,
    Danger,
}

/// One theme value per visual variant.
#[derive(Clone, Copy, Debug, PartialEq, Eq, Structural)]
pub struct WidgetVariants<T> {
    pub normal: T,
    pub active: T,
    pub danger: T,
}

/// Theme values for the enabled and the disabled rendering of a widget.
#[derive(Clone, Copy, Debug, PartialEq, Eq, Structural)]
pub struct WidgetTheme<T> {
    pub enabled: WidgetVariants<T>,
    pub disabled: WidgetVariants<T>,
}

impl<T: Copy> WidgetTheme<T> {
    /// The theme value selected by `variant` and `enabled`.
    pub open spec fn get_spec(self, variant: WidgetVariant, enabled: bool) -> T {
        let variants = if enabled {
            self.enabled
        } else {
            self.disabled
        };
        match variant {
            WidgetVariant::Normal => variants.normal,
            WidgetVariant::Active => variants.active,
            WidgetVariant::Danger => variants.danger,
        }
    }

    pub fn get(&self, variant: WidgetVariant, enabled: bool) -> (r: T)
        ensures
            r == self.get_spec(variant, enabled),
    {
        let variant_themes = if enabled {
            &self.enabled
        } else {
            &self.disabled
        };
        match variant {
            WidgetVariant::Normal => variant_themes.normal,
            WidgetVariant::Active => variant_themes.active,
            WidgetVariant::Danger => variant_themes.danger,
        }
    }
}

/// Font parameters for text rendering.
#[derive(Clone, Copy, Debug, PartialEq, Eq)]
pub struct TextTheme {
    pub font: &'static str,
    pub size: u16,
}

/// Border drawing parameters.
#[derive(Clone, Copy, Debug, PartialEq, Eq, Structural)]
pub struct BorderTheme {
    pub color: Color,
    pub radius: u64,
    pub padding: u64,
    pub margin: u64,
}

/// The outline shape of a themed rectangle.
#[derive(Clone, Copy, Debug, PartialEq, Eq, Structural)]
pub enum RectShape {
    Square,
    Round(u64),
}

/// Drawing parameters for a themed rectangle.  Paired colors are
/// (background, foreground-over-background) pairs.
#[derive(Clone, Copy, Debug, PartialEq, Eq)]
pub struct RectTheme {
    pub background_color: (Color, Color),
    pub foreground_color: (Color, Color),
    pub border_color: (Color, Color),
    pub border_width: u64,
    pub padding: u64,
    pub margin: u64,
}

impl RectTheme {
    /// The full extent occupied by padding, margin, and half the border,
    /// rounded down to whole surface units; saturates at `u64::MAX`.
    pub fn full_border_width(&self) -> (r: u64)
        ensures
            r as int == if self.padding as int + self.margin as int + self.border_width as int / 2
                <= u64::MAX as int {
                self.padding as int + self.margin as int + self.border_width as int / 2
            } else {
                u64::MAX as int
            },
    {
        let half: u64 = self.border_width / 2;
        if self.padding <= u64::MAX - self.margin && self.padding + self.margin <= u64::MAX - half {
            self.padding + self.margin + half
        } else {
            u64::MAX
        }
    }

    /// Whether `point` falls inside the rectangle at `pos` of extent
    /// `size`, once this theme's margin is taken off every side.
    pub open spec fn point_in_rect_spec(self, pos: Point, size: Size, point: Point) -> bool {
        &&& point.x as int >= pos.x as int + self.margin as int
        &&& point.x as int <= pos.x as int + size.width as int - self.margin as int
        &&& point.y as int >= pos.y as int + self.margin as int
        &&& point.y as int <= pos.y as int + size.height as int - self.margin as int
    }

    pub fn point_in_rect(&self, pos: Point, size: Size, point: Point) -> (r: bool)
        ensures
            r == self.point_in_rect_spec(pos, size, point),
    {
        let margin: u128 = self.margin as u128;
        let px: u128 = point.x as u128;
        let py: u128 = point.y as u128;
        px >= pos.x as u128 + margin
            && px + margin <= pos.x as u128 + size.width as u128
            && py >= pos.y as u128 + margin
            && py + margin <= pos.y as u128 + size.height as u128
    }
}

/// The theme table the engine reads: rectangle fills, outlined rectangles,
/// and text.
#[derive(Clone, Copy, Debug, PartialEq, Eq)]
pub struct Theme {
    pub rect: WidgetTheme<RectTheme>,
    pub rect_outline: WidgetTheme<RectTheme>,
    pub text: WidgetTheme<TextTheme>,
}

} // verus!
