//! Colour families in eleven shades each.

use crate::theme::Color;
use vstd::prelude::*;

verus! {

/// A single colour family with eleven shades, from 50 to 950.
#[derive(Debug, Clone, Copy, PartialEq, Eq, Structural)]
pub struct ColorScale {
    pub c50: Color,
    pub c100: Color,
    pub c200: Color,
    pub c300: Color,
    pub c400: Color,
    pub c500: Color,
    pub c600: Color,
    pub c700: Color,
    pub c800: Color,
    pub c900: Color,
    pub c950: Color,
}

impl ColorScale {
    /// The grey scale that every family starts as.
    pub open spec fn spec_default() -> ColorScale {
        ColorScale {
            c50: Color::Rgb { r: 249, g: 250, b: 251 },
            c100: Color::Rgb { r: 243, g: 244, b: 246 },
            c200: Color::Rgb { r: 229, g: 231, b: 235 },
            c300: Color::Rgb { r: 209, g: 213, b: 219 },
            c400: Color::Rgb { r: 156, g: 163, b: 175 },
            c500: Color::Rgb { r: 107, g: 114, b: 128 },
            c600: Color::Rgb { r: 75, g: 85, b: 99 },
            c700: Color::Rgb { r: 55, g: 65, b: 81 },
            c800: Color::Rgb { r: 31, g: 41, b: 55 },
            c900: Color::Rgb { r: 17, g: 24, b: 39 },
            c950: Color::Rgb { r: 3, g: 7, b: 18 },
        }
    }
}

impl Default for ColorScale {
    fn default() -> (scale: Self)
        ensures
            scale == Self::spec_default(),
    {
        Self {
            c50: Color::Rgb { r: 249, g: 250, b: 251 },
            c100: Color::Rgb { r: 243, g: 244, b: 246 },
            c200: Color::Rgb { r: 229, g: 231, b: 235 },
            c300: Color::Rgb { r: 209, g: 213, b: 219 },
            c400: Color::Rgb { r: 156, g: 163, b: 175 },
            c500: Color::Rgb { r: 107, g: 114, b: 128 },
            c600: Color::Rgb { r: 75, g: 85, b: 99 },
            c700: Color::Rgb { r: 55, g: 65, b: 81 },
            c800: Color::Rgb { r: 31, g: 41, b: 55 },
            c900: Color::Rgb { r: 17, g: 24, b: 39 },
            c950: Color::Rgb { r: 3, g: 7, b: 18 },
        }
    }
}

/// Named colour families.
#[derive(Debug, Clone, Copy, PartialEq, Eq, Structural)]
pub struct ColorFamilies {
    pub slate: ColorScale,
    pub gray: ColorScale,
    pub zinc: ColorScale,
    pub neutral: ColorScale,
    pub stone: ColorScale,
    pub red: ColorScale,
    pub orange: ColorScale,
    pub amber: ColorScale,
    pub yellow: ColorScale,
    pub lime: ColorScale,
    pub green: ColorScale,
    pub emerald: ColorScale,
    pub teal: ColorScale,
    pub cyan: ColorScale,
    pub sky: ColorScale,
    pub blue: ColorScale,
    pub indigo: ColorScale,
    pub violet: ColorScale,
    pub purple: ColorScale,
    pub fuchsia: ColorScale,
    pub pink: ColorScale,
    pub rose: ColorScale,
}

impl Default for ColorFamilies {
    /// Every family is the default scale.
    fn default() -> (families: Self)
        ensures
            families.slate == ColorScale::spec_default(),
            families.gray == ColorScale::spec_default(),
            families.zinc == ColorScale::spec_default(),
            families.neutral == ColorScale::spec_default(),
            families.stone == ColorScale::spec_default(),
            families.red == ColorScale::spec_default(),
            families.orange == ColorScale::spec_default(),
            families.amber == ColorScale::spec_default(),
            families.yellow == ColorScale::spec_default(),
            families.lime == ColorScale::spec_default(),
            families.green == ColorScale::spec_default(),
            families.emerald == ColorScale::spec_default(),
            families.teal == ColorScale::spec_default(),
            families.cyan == ColorScale::spec_default(),
            families.sky == ColorScale::spec_default(),
            families.blue == ColorScale::spec_default(),
            families.indigo == ColorScale::spec_default(),
            families.violet == ColorScale::spec_default(),
            families.purple == ColorScale::spec_default(),
            families.fuchsia == ColorScale::spec_default(),
            families.pink == ColorScale::spec_default(),
            families.rose == ColorScale::spec_default(),
    {
        let scale = ColorScale::default();
        Self {
            slate: scale,
            gray: scale,
            zinc: scale,
            neutral: scale,
            stone: scale,
            red: scale,
            orange: scale,
            amber: scale,
            yellow: scale,
            lime: scale,
            green: scale,
            emerald: scale,
            teal: scale,
            cyan: scale,
            sky: scale,
            blue: scale,
            indigo: scale,
            violet: scale,
            purple: scale,
            fuchsia: scale,
            pink: scale,
            rose: scale,
        }
    }
}

} // verus!
