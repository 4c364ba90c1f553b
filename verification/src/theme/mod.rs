//! The theme: named colours, and the styles that the components draw
//! with.

use crate::primitives::chars::chars_of;
use vstd::prelude::*;
use vstd::string::*;

pub mod colors;

verus! {

/// A colour: red, green and blue, or an index into the terminal's palette.
#[derive(Debug, Clone, Copy, PartialEq, Eq, Structural)]
pub enum Color {
    Rgb { r: u8, g: u8, b: u8 },
    Indexed(u8),
}

impl Default for Color {
    /// White.
    fn default() -> (c: Self)
        ensures
            c == (Color::Rgb { r: 255, g: 255, b: 255 }),
    {
        Self::Rgb { r: 255, g: 255, b: 255 }
    }
}

/// The line that a border is drawn with.
#[derive(Debug, Clone, Copy, PartialEq, Eq, Structural)]
pub enum BorderKind {
    Plain,
    Rounded,
    Double,
    Thick,
    QuadrantInside,
    QuadrantOutside,
}

/// How a run of cells is drawn: the colours that it sets, and the
/// modifiers that it adds.
#[derive(Debug, Clone, Copy, PartialEq, Eq, Structural)]
pub struct CellStyle {
    pub fg: Option<Color>,
    pub bg: Option<Color>,
    pub bold: bool,
    pub dim: bool,
    pub italic: bool,
}

impl CellStyle {
    /// The style that sets nothing.
    pub open spec fn spec_plain() -> CellStyle {
        CellStyle { fg: None, bg: None, bold: false, dim: false, italic: false }
    }

    /// The style that sets nothing.
    pub fn plain() -> (s: Self)
        ensures
            s == Self::spec_plain(),
    {
        CellStyle { fg: None, bg: None, bold: false, dim: false, italic: false }
    }

    /// This style with the foreground `color`.
    pub fn fg(self, color: Color) -> (s: Self)
        ensures
            s == (CellStyle { fg: Some(color), ..self }),
    {
        CellStyle { fg: Some(color), ..self }
    }

    /// This style with the background `color`.
    pub fn bg(self, color: Color) -> (s: Self)
        ensures
            s == (CellStyle { bg: Some(color), ..self }),
    {
        CellStyle { bg: Some(color), ..self }
    }

    /// This style, bold.
    pub fn bold(self) -> (s: Self)
        ensures
            s == (CellStyle { bold: true, ..self }),
    {
        CellStyle { bold: true, ..self }
    }

    /// This style, dim.
    pub fn dim(self) -> (s: Self)
        ensures
            s == (CellStyle { dim: true, ..self }),
    {
        CellStyle { dim: true, ..self }
    }

    /// This style, italic.
    pub fn italic(self) -> (s: Self)
        ensures
            s == (CellStyle { italic: true, ..self }),
    {
        CellStyle { italic: true, ..self }
    }
}

/// Colours that replace those of a theme, by name, and a new name for it.
/// Where a name occurs twice, the later colour counts.
#[derive(Debug, Clone)]
pub struct ThemeOverride {
    pub name: Option<String>,
    pub colors: Vec<(String, Color)>,
}

/// The few colours that a consumer needs to draw in the theme's manner.
#[derive(Debug, Clone, Copy, PartialEq, Eq, Structural)]
pub struct ThemePalette {
    pub background_surface: Color,
    pub primary: Color,
    pub background_elevated: Color,
    pub foreground: Color,
    pub border_focused: Color,
    pub secondary: Color,
    pub success: Color,
    pub error: Color,
}

/// A named set of colours and a border.
#[derive(Debug, Clone, PartialEq)]
pub struct Theme {
    pub name: String,
    pub background: Color,
    pub foreground: Color,
    pub primary: Color,
    pub secondary: Color,
    pub tertiary: Color,
    pub quaternary: Color,
    pub accent1: Color,
    pub accent2: Color,
    pub accent3: Color,
    pub accent4: Color,
    pub user_input: Color,
    pub success: Color,
    pub error: Color,
    pub info: Color,
    pub selection: Color,
    pub cursor: Color,
    pub border: Color,
    pub border_subtle: Color,
    pub border_focused: Color,
    pub background_void: Color,
    pub background_canvas: Color,
    pub background_subtle: Color,
    pub background_surface: Color,
    pub background_elevated: Color,
    pub background_floating: Color,
    pub background_hover: Color,
    pub background_active: Color,
    pub background_selected: Color,
    pub background_faded: Color,
    pub background_input: Color,
    pub background_badge: Color,
    pub background_track: Color,
    pub background_thumb: Color,
    pub gray50: Color,
    pub gray100: Color,
    pub gray200: Color,
    pub gray300: Color,
    pub gray400: Color,
    pub gray500: Color,
    pub gray600: Color,
    pub gray700: Color,
    pub gray800: Color,
    pub gray900: Color,
    pub gray950: Color,
    pub border_type: BorderKind,
}

/// What a style is asked for.
#[derive(Debug, Clone, Copy, PartialEq, Eq, Structural)]
pub enum ThemeElement {
    Base,
    Foreground,
    Primary,
    Secondary,
    Tertiary,
    Quaternary,
    Accent1,
    Accent2,
    Accent3,
    Accent4,
    UserInput,
    Success,
    Error,
    Info,
    Selection,
    Cursor,
    Border,
    BorderSubtle,
    BorderFocused,
    BackgroundVoid,
    BackgroundCanvas,
    BackgroundSubtle,
    BackgroundSurface,
    BackgroundElevated,
    BackgroundFloating,
    BackgroundHover,
    BackgroundActive,
    BackgroundSelected,
    BackgroundFaded,
    BackgroundInput,
    BackgroundBadge,
    BackgroundTrack,
    BackgroundThumb,
    Gray50,
    Gray100,
    Gray200,
    Gray300,
    Gray400,
    Gray500,
    Gray600,
    Gray700,
    Gray800,
    Gray900,
    Gray950,
}

/// The state of the thing that is drawn.
#[derive(Debug, Clone, Copy, PartialEq, Eq, Structural)]
pub enum ThemeState {
    Normal,
    Hovered,
    Active,
    Disabled,
}

/// A theme could not be made.
#[derive(Debug, Clone)]
pub struct ThemeFacadeError(pub String);

impl Theme {
    /// The default theme: dark, with a plain border.
    pub open spec fn spec_default(name: String) -> Theme {
        Theme {
            name,
            border_type: BorderKind::Plain,
            background: Color::Rgb { r: 10, g: 12, b: 14 },
            foreground: Color::Rgb { r: 230, g: 232, b: 235 },
            primary: Color::Rgb { r: 232, g: 236, b: 244 },
            secondary: Color::Rgb { r: 168, g: 176, b: 188 },
            tertiary: Color::Rgb { r: 134, g: 145, b: 160 },
            quaternary: Color::Rgb { r: 108, g: 121, b: 138 },
            accent1: Color::Rgb { r: 110, g: 168, b: 255 },
            accent2: Color::Rgb { r: 71, g: 208, b: 177 },
            accent3: Color::Rgb { r: 255, g: 198, b: 93 },
            accent4: Color::Rgb { r: 219, g: 132, b: 255 },
            user_input: Color::Rgb { r: 232, g: 236, b: 244 },
            success: Color::Rgb { r: 94, g: 201, b: 123 },
            error: Color::Rgb { r: 236, g: 99, b: 110 },
            info: Color::Rgb { r: 90, g: 175, b: 255 },
            selection: Color::Rgb { r: 60, g: 72, b: 89 },
            cursor: Color::Rgb { r: 232, g: 236, b: 244 },
            border: Color::Rgb { r: 58, g: 67, b: 80 },
            border_subtle: Color::Rgb { r: 41, g: 47, b: 56 },
            border_focused: Color::Rgb { r: 110, g: 168, b: 255 },
            background_void: Color::Rgb { r: 6, g: 8, b: 10 },
            background_canvas: Color::Rgb { r: 10, g: 12, b: 14 },
            background_subtle: Color::Rgb { r: 15, g: 18, b: 22 },
            background_surface: Color::Rgb { r: 19, g: 23, b: 28 },
            background_elevated: Color::Rgb { r: 24, g: 29, b: 35 },
            background_floating: Color::Rgb { r: 28, g: 34, b: 41 },
            background_hover: Color::Rgb { r: 31, g: 38, b: 46 },
            background_active: Color::Rgb { r: 35, g: 43, b: 53 },
            background_selected: Color::Rgb { r: 46, g: 55, b: 67 },
            background_faded: Color::Rgb { r: 12, g: 15, b: 18 },
            background_input: Color::Rgb { r: 12, g: 15, b: 18 },
            background_badge: Color::Rgb { r: 32, g: 38, b: 46 },
            background_track: Color::Rgb { r: 24, g: 30, b: 37 },
            background_thumb: Color::Rgb { r: 72, g: 84, b: 99 },
            gray50: Color::Rgb { r: 249, g: 250, b: 251 },
            gray100: Color::Rgb { r: 243, g: 244, b: 246 },
            gray200: Color::Rgb { r: 229, g: 231, b: 235 },
            gray300: Color::Rgb { r: 209, g: 213, b: 219 },
            gray400: Color::Rgb { r: 156, g: 163, b: 175 },
            gray500: Color::Rgb { r: 107, g: 114, b: 128 },
            gray600: Color::Rgb { r: 75, g: 85, b: 99 },
            gray700: Color::Rgb { r: 55, g: 65, b: 81 },
            gray800: Color::Rgb { r: 31, g: 41, b: 55 },
            gray900: Color::Rgb { r: 17, g: 24, b: 39 },
            gray950: Color::Rgb { r: 3, g: 7, b: 18 },
        }
    }

    /// The colour that an element is drawn in.
    pub open spec fn spec_color(&self, element: ThemeElement) -> Color {
        match element {
            ThemeElement::Base => self.foreground,
            ThemeElement::Foreground => self.foreground,
            ThemeElement::Primary => self.primary,
            ThemeElement::Secondary => self.secondary,
            ThemeElement::Tertiary => self.tertiary,
            ThemeElement::Quaternary => self.quaternary,
            ThemeElement::Accent1 => self.accent1,
            ThemeElement::Accent2 => self.accent2,
            ThemeElement::Accent3 => self.accent3,
            ThemeElement::Accent4 => self.accent4,
            ThemeElement::UserInput => self.user_input,
            ThemeElement::Success => self.success,
            ThemeElement::Error => self.error,
            ThemeElement::Info => self.info,
            ThemeElement::Selection => self.selection,
            ThemeElement::Cursor => self.cursor,
            ThemeElement::Border => self.border,
            ThemeElement::BorderSubtle => self.border_subtle,
            ThemeElement::BorderFocused => self.border_focused,
            ThemeElement::BackgroundVoid => self.background_void,
            ThemeElement::BackgroundCanvas => self.background_canvas,
            ThemeElement::BackgroundSubtle => self.background_subtle,
            ThemeElement::BackgroundSurface => self.background_surface,
            ThemeElement::BackgroundElevated => self.background_elevated,
            ThemeElement::BackgroundFloating => self.background_floating,
            ThemeElement::BackgroundHover => self.background_hover,
            ThemeElement::BackgroundActive => self.background_active,
            ThemeElement::BackgroundSelected => self.background_selected,
            ThemeElement::BackgroundFaded => self.background_faded,
            ThemeElement::BackgroundInput => self.background_input,
            ThemeElement::BackgroundBadge => self.background_badge,
            ThemeElement::BackgroundTrack => self.background_track,
            ThemeElement::BackgroundThumb => self.background_thumb,
            ThemeElement::Gray50 => self.gray50,
            ThemeElement::Gray100 => self.gray100,
            ThemeElement::Gray200 => self.gray200,
            ThemeElement::Gray300 => self.gray300,
            ThemeElement::Gray400 => self.gray400,
            ThemeElement::Gray500 => self.gray500,
            ThemeElement::Gray600 => self.gray600,
            ThemeElement::Gray700 => self.gray700,
            ThemeElement::Gray800 => self.gray800,
            ThemeElement::Gray900 => self.gray900,
            ThemeElement::Gray950 => self.gray950,
        }
    }

    /// This theme with the colour named `key` replaced by `value`; the
    /// same theme where no colour has that name.
    pub open spec fn spec_with(self, key: Seq<char>, value: Color) -> Theme {
        if key == "background"@ {
            Theme { background: value, ..self }
        } else if key == "foreground"@ {
            Theme { foreground: value, ..self }
        } else if key == "primary"@ {
            Theme { primary: value, ..self }
        } else if key == "secondary"@ {
            Theme { secondary: value, ..self }
        } else if key == "tertiary"@ {
            Theme { tertiary: value, ..self }
        } else if key == "quaternary"@ {
            Theme { quaternary: value, ..self }
        } else if key == "accent1"@ {
            Theme { accent1: value, ..self }
        } else if key == "accent2"@ {
            Theme { accent2: value, ..self }
        } else if key == "accent3"@ {
            Theme { accent3: value, ..self }
        } else if key == "accent4"@ {
            Theme { accent4: value, ..self }
        } else if key == "user-input"@ {
            Theme { user_input: value, ..self }
        } else if key == "success"@ {
            Theme { success: value, ..self }
        } else if key == "error"@ {
            Theme { error: value, ..self }
        } else if key == "info"@ {
            Theme { info: value, ..self }
        } else if key == "selection"@ {
            Theme { selection: value, ..self }
        } else if key == "cursor"@ {
            Theme { cursor: value, ..self }
        } else if key == "border"@ {
            Theme { border: value, ..self }
        } else if key == "border-subtle"@ {
            Theme { border_subtle: value, ..self }
        } else if key == "border-focused"@ {
            Theme { border_focused: value, ..self }
        } else if key == "background-void"@ {
            Theme { background_void: value, ..self }
        } else if key == "background-canvas"@ {
            Theme { background_canvas: value, ..self }
        } else if key == "background-subtle"@ {
            Theme { background_subtle: value, ..self }
        } else if key == "background-surface"@ {
            Theme { background_surface: value, ..self }
        } else if key == "background-elevated"@ {
            Theme { background_elevated: value, ..self }
        } else if key == "background-floating"@ {
            Theme { background_floating: value, ..self }
        } else if key == "background-hover"@ {
            Theme { background_hover: value, ..self }
        } else if key == "background-active"@ {
            Theme { background_active: value, ..self }
        } else if key == "background-selected"@ {
            Theme { background_selected: value, ..self }
        } else if key == "background-faded"@ {
            Theme { background_faded: value, ..self }
        } else if key == "background-input"@ {
            Theme { background_input: value, ..self }
        } else if key == "background-badge"@ {
            Theme { background_badge: value, ..self }
        } else if key == "background-track"@ {
            Theme { background_track: value, ..self }
        } else if key == "background-thumb"@ {
            Theme { background_thumb: value, ..self }
        } else if key == "gray50"@ {
            Theme { gray50: value, ..self }
        } else if key == "gray100"@ {
            Theme { gray100: value, ..self }
        } else if key == "gray200"@ {
            Theme { gray200: value, ..self }
        } else if key == "gray300"@ {
            Theme { gray300: value, ..self }
        } else if key == "gray400"@ {
            Theme { gray400: value, ..self }
        } else if key == "gray500"@ {
            Theme { gray500: value, ..self }
        } else if key == "gray600"@ {
            Theme { gray600: value, ..self }
        } else if key == "gray700"@ {
            Theme { gray700: value, ..self }
        } else if key == "gray800"@ {
            Theme { gray800: value, ..self }
        } else if key == "gray900"@ {
            Theme { gray900: value, ..self }
        } else if key == "gray950"@ {
            Theme { gray950: value, ..self }
        } else {
            self
        }
    }

    /// The colour that an element is drawn in: its own, and the foreground
    /// for the base element.
    pub fn color(&self, element: ThemeElement) -> (c: Color)
        ensures
            c == self.spec_color(element),
    {
        match element {
            ThemeElement::Base => self.foreground,
            ThemeElement::Foreground => self.foreground,
            ThemeElement::Primary => self.primary,
            ThemeElement::Secondary => self.secondary,
            ThemeElement::Tertiary => self.tertiary,
            ThemeElement::Quaternary => self.quaternary,
            ThemeElement::Accent1 => self.accent1,
            ThemeElement::Accent2 => self.accent2,
            ThemeElement::Accent3 => self.accent3,
            ThemeElement::Accent4 => self.accent4,
            ThemeElement::UserInput => self.user_input,
            ThemeElement::Success => self.success,
            ThemeElement::Error => self.error,
            ThemeElement::Info => self.info,
            ThemeElement::Selection => self.selection,
            ThemeElement::Cursor => self.cursor,
            ThemeElement::Border => self.border,
            ThemeElement::BorderSubtle => self.border_subtle,
            ThemeElement::BorderFocused => self.border_focused,
            ThemeElement::BackgroundVoid => self.background_void,
            ThemeElement::BackgroundCanvas => self.background_canvas,
            ThemeElement::BackgroundSubtle => self.background_subtle,
            ThemeElement::BackgroundSurface => self.background_surface,
            ThemeElement::BackgroundElevated => self.background_elevated,
            ThemeElement::BackgroundFloating => self.background_floating,
            ThemeElement::BackgroundHover => self.background_hover,
            ThemeElement::BackgroundActive => self.background_active,
            ThemeElement::BackgroundSelected => self.background_selected,
            ThemeElement::BackgroundFaded => self.background_faded,
            ThemeElement::BackgroundInput => self.background_input,
            ThemeElement::BackgroundBadge => self.background_badge,
            ThemeElement::BackgroundTrack => self.background_track,
            ThemeElement::BackgroundThumb => self.background_thumb,
            ThemeElement::Gray50 => self.gray50,
            ThemeElement::Gray100 => self.gray100,
            ThemeElement::Gray200 => self.gray200,
            ThemeElement::Gray300 => self.gray300,
            ThemeElement::Gray400 => self.gray400,
            ThemeElement::Gray500 => self.gray500,
            ThemeElement::Gray600 => self.gray600,
            ThemeElement::Gray700 => self.gray700,
            ThemeElement::Gray800 => self.gray800,
            ThemeElement::Gray900 => self.gray900,
            ThemeElement::Gray950 => self.gray950,
        }
    }

    /// Replaces the colour named `key` by `value`. Names are those of the
    /// fields, with hyphens for underscores; other names change nothing.
    pub fn with(self, key: &str, value: Color) -> (theme: Self)
        ensures
            theme == self.spec_with(key@, value),
    {
        let name = chars_of(key);
        if same_chars(&name, "background") {
            Theme { background: value, ..self }
        } else if same_chars(&name, "foreground") {
            Theme { foreground: value, ..self }
        } else if same_chars(&name, "primary") {
            Theme { primary: value, ..self }
        } else if same_chars(&name, "secondary") {
            Theme { secondary: value, ..self }
        } else if same_chars(&name, "tertiary") {
            Theme { tertiary: value, ..self }
        } else if same_chars(&name, "quaternary") {
            Theme { quaternary: value, ..self }
        } else if same_chars(&name, "accent1") {
            Theme { accent1: value, ..self }
        } else if same_chars(&name, "accent2") {
            Theme { accent2: value, ..self }
        } else if same_chars(&name, "accent3") {
            Theme { accent3: value, ..self }
        } else if same_chars(&name, "accent4") {
            Theme { accent4: value, ..self }
        } else if same_chars(&name, "user-input") {
            Theme { user_input: value, ..self }
        } else if same_chars(&name, "success") {
            Theme { success: value, ..self }
        } else if same_chars(&name, "error") {
            Theme { error: value, ..self }
        } else if same_chars(&name, "info") {
            Theme { info: value, ..self }
        } else if same_chars(&name, "selection") {
            Theme { selection: value, ..self }
        } else if same_chars(&name, "cursor") {
            Theme { cursor: value, ..self }
        } else if same_chars(&name, "border") {
            Theme { border: value, ..self }
        } else if same_chars(&name, "border-subtle") {
            Theme { border_subtle: value, ..self }
        } else if same_chars(&name, "border-focused") {
            Theme { border_focused: value, ..self }
        } else if same_chars(&name, "background-void") {
            Theme { background_void: value, ..self }
        } else if same_chars(&name, "background-canvas") {
            Theme { background_canvas: value, ..self }
        } else if same_chars(&name, "background-subtle") {
            Theme { background_subtle: value, ..self }
        } else if same_chars(&name, "background-surface") {
            Theme { background_surface: value, ..self }
        } else if same_chars(&name, "background-elevated") {
            Theme { background_elevated: value, ..self }
        } else if same_chars(&name, "background-floating") {
            Theme { background_floating: value, ..self }
        } else if same_chars(&name, "background-hover") {
            Theme { background_hover: value, ..self }
        } else if same_chars(&name, "background-active") {
            Theme { background_active: value, ..self }
        } else if same_chars(&name, "background-selected") {
            Theme { background_selected: value, ..self }
        } else if same_chars(&name, "background-faded") {
            Theme { background_faded: value, ..self }
        } else if same_chars(&name, "background-input") {
            Theme { background_input: value, ..self }
        } else if same_chars(&name, "background-badge") {
            Theme { background_badge: value, ..self }
        } else if same_chars(&name, "background-track") {
            Theme { background_track: value, ..self }
        } else if same_chars(&name, "background-thumb") {
            Theme { background_thumb: value, ..self }
        } else if same_chars(&name, "gray50") {
            Theme { gray50: value, ..self }
        } else if same_chars(&name, "gray100") {
            Theme { gray100: value, ..self }
        } else if same_chars(&name, "gray200") {
            Theme { gray200: value, ..self }
        } else if same_chars(&name, "gray300") {
            Theme { gray300: value, ..self }
        } else if same_chars(&name, "gray400") {
            Theme { gray400: value, ..self }
        } else if same_chars(&name, "gray500") {
            Theme { gray500: value, ..self }
        } else if same_chars(&name, "gray600") {
            Theme { gray600: value, ..self }
        } else if same_chars(&name, "gray700") {
            Theme { gray700: value, ..self }
        } else if same_chars(&name, "gray800") {
            Theme { gray800: value, ..self }
        } else if same_chars(&name, "gray900") {
            Theme { gray900: value, ..self }
        } else if same_chars(&name, "gray950") {
            Theme { gray950: value, ..self }
        } else {
            self
        }
    }
}

/// Whether `name` spells `literal`.
pub fn same_chars(name: &Vec<char>, literal: &str) -> (same: bool)
    ensures
        same == (name@ == literal@),
{
    let other = chars_of(literal);
    if name.len() != other.len() {
        return false;
    }
    let mut k: usize = 0;
    while k < name.len()
        invariant
            k <= name.len(),
            name.len() == other.len(),
            other@ == literal@,
            forall|i: int| 0 <= i < k ==> name@[i] == other@[i],
        decreases name.len() - k,
    {
        if name[k] != other[k] {
            proof {
                assert(name@[k as int] != other@[k as int]);
            }
            return false;
        }
        k = k + 1;
    }
    proof {
        assert(name@ =~= other@);
    }
    true
}

/// An element that names a background, or the cursor: it is drawn as a
/// background colour.
pub open spec fn fills_background(element: ThemeElement) -> bool {
    match element {
        ThemeElement::Cursor => true,
        ThemeElement::BackgroundVoid => true,
        ThemeElement::BackgroundCanvas => true,
        ThemeElement::BackgroundSubtle => true,
        ThemeElement::BackgroundSurface => true,
        ThemeElement::BackgroundElevated => true,
        ThemeElement::BackgroundFloating => true,
        ThemeElement::BackgroundHover => true,
        ThemeElement::BackgroundActive => true,
        ThemeElement::BackgroundSelected => true,
        ThemeElement::BackgroundFaded => true,
        ThemeElement::BackgroundInput => true,
        ThemeElement::BackgroundBadge => true,
        ThemeElement::BackgroundTrack => true,
        ThemeElement::BackgroundThumb => true,
        _ => false,
    }
}

/// Whether an element is drawn as a background colour.
pub fn is_fill(element: ThemeElement) -> (b: bool)
    ensures
        b == fills_background(element),
{
    match element {
        ThemeElement::Cursor => true,
        ThemeElement::BackgroundVoid => true,
        ThemeElement::BackgroundCanvas => true,
        ThemeElement::BackgroundSubtle => true,
        ThemeElement::BackgroundSurface => true,
        ThemeElement::BackgroundElevated => true,
        ThemeElement::BackgroundFloating => true,
        ThemeElement::BackgroundHover => true,
        ThemeElement::BackgroundActive => true,
        ThemeElement::BackgroundSelected => true,
        ThemeElement::BackgroundFaded => true,
        ThemeElement::BackgroundInput => true,
        ThemeElement::BackgroundBadge => true,
        ThemeElement::BackgroundTrack => true,
        ThemeElement::BackgroundThumb => true,
        _ => false,
    }
}

impl Theme {
    /// Style of an element: the base element sets foreground and
    /// background, a background element or the cursor sets the background,
    /// every other element sets the foreground.
    pub open spec fn spec_style(&self, element: ThemeElement) -> CellStyle {
        if element == ThemeElement::Base {
            CellStyle {
                fg: Some(self.foreground),
                bg: Some(self.background),
                ..CellStyle::spec_plain()
            }
        } else if fills_background(element) {
            CellStyle { bg: Some(self.spec_color(element)), ..CellStyle::spec_plain() }
        } else {
            CellStyle { fg: Some(self.spec_color(element)), ..CellStyle::spec_plain() }
        }
    }

    /// Style of an element in a state: hovered and active set the
    /// background for that state, disabled sets the quaternary foreground
    /// and dims.
    pub open spec fn spec_style_state(&self, element: ThemeElement, state: ThemeState) -> CellStyle {
        let base = self.spec_style(element);
        match state {
            ThemeState::Normal => base,
            ThemeState::Hovered => CellStyle { bg: Some(self.background_hover), ..base },
            ThemeState::Active => CellStyle { bg: Some(self.background_active), ..base },
            ThemeState::Disabled => CellStyle {
                fg: Some(self.quaternary),
                dim: true,
                ..base
            },
        }
    }

    /// Colour of an agent's prompt: the override where there is one, else
    /// by the agent's name.
    pub open spec fn spec_agent_color(&self, agent: Seq<char>, over: Option<(u8, u8, u8)>) -> Color {
        match over {
            Some(rgb) => Color::Rgb { r: rgb.0, g: rgb.1, b: rgb.2 },
            None => if agent == "exec"@ {
                self.success
            } else if agent == "plan"@ {
                self.accent2
            } else {
                self.info
            },
        }
    }

    /// The theme with the first `k` of the given colours applied, in
    /// order.
    pub open spec fn spec_overridden(self, given: Seq<(String, Color)>, k: int) -> Theme
        decreases k,
    {
        if k <= 0 {
            self
        } else {
            self.spec_overridden(given, k - 1).spec_with(given[k - 1].0@, given[k - 1].1)
        }
    }

    /// This theme under another name.
    pub open spec fn spec_named(self, name: Option<String>) -> Theme {
        match name {
            Some(name) => Theme { name, ..self },
            None => self,
        }
    }

    /// Applies the overrides: the name, where one is given, and each
    /// colour in turn.
    pub fn apply_overrides(self, ov: &ThemeOverride) -> (theme: Self)
        ensures
            theme == self.spec_named(ov.name).spec_overridden(ov.colors@, ov.colors@.len() as int),
    {
        let mut theme = self;
        if let Some(name) = &ov.name {
            theme.name = name.clone();
        }
        let ghost start = theme;
        let mut k: usize = 0;
        while k < ov.colors.len()
            invariant
                k <= ov.colors.len(),
                theme == start.spec_overridden(ov.colors@, k as int),
            decreases ov.colors.len() - k,
        {
            theme = theme.with(ov.colors[k].0.as_str(), ov.colors[k].1);
            k = k + 1;
        }
        theme
    }

    /// The colours that a consumer draws with.
    pub fn palette(&self) -> (p: ThemePalette)
        ensures
            p == (ThemePalette {
                background_surface: self.background_surface,
                primary: self.primary,
                background_elevated: self.background_elevated,
                foreground: self.foreground,
                border_focused: self.border_focused,
                secondary: self.secondary,
                success: self.success,
                error: self.error,
            }),
    {
        ThemePalette {
            background_surface: self.background_surface,
            primary: self.primary,
            background_elevated: self.background_elevated,
            foreground: self.foreground,
            border_focused: self.border_focused,
            secondary: self.secondary,
            success: self.success,
            error: self.error,
        }
    }

    /// Style of an element.
    #[must_use]
    pub fn style(&self, element: ThemeElement) -> (s: CellStyle)
        ensures
            s == self.spec_style(element),
    {
        match element {
            ThemeElement::Base => CellStyle::plain().fg(self.foreground).bg(
                self.background,
            ),
            _ => if is_fill(element) {
                CellStyle::plain().bg(self.color(element))
            } else {
                CellStyle::plain().fg(self.color(element))
            },
        }
    }

    /// Style of an element in a state.
    #[must_use]
    pub fn style_state(&self, element: ThemeElement, state: ThemeState) -> (s: CellStyle)
        ensures
            s == self.spec_style_state(element, state),
    {
        let base = self.style(element);
        match state {
            ThemeState::Normal => base,
            ThemeState::Hovered => base.bg(self.background_hover),
            ThemeState::Active => base.bg(self.background_active),
            ThemeState::Disabled => base.fg(self.quaternary).dim(),
        }
    }

    /// Style of the base element.
    #[must_use]
    pub fn base_style(&self) -> (s: CellStyle)
        ensures
            s == self.spec_style(ThemeElement::Base),
    {
        self.style(ThemeElement::Base)
    }

    /// Style of the primary element.
    #[must_use]
    pub fn primary_style(&self) -> (s: CellStyle)
        ensures
            s == self.spec_style(ThemeElement::Primary),
    {
        self.style(ThemeElement::Primary)
    }

    /// Style of the secondary element.
    #[must_use]
    pub fn secondary_style(&self) -> (s: CellStyle)
        ensures
            s == self.spec_style(ThemeElement::Secondary),
    {
        self.style(ThemeElement::Secondary)
    }

    /// Style of a focused border: its colour, bold.
    #[must_use]
    pub fn border_focused_style(&self) -> (s: CellStyle)
        ensures
            s == (CellStyle { bold: true, ..self.spec_style(ThemeElement::BorderFocused) }),
    {
        self.style(ThemeElement::BorderFocused).bold()
    }

    /// Colour of an agent's prompt: the override where there is one; else
    /// the success colour for `exec`, the second accent for `plan`, the
    /// info colour for any other agent.
    #[must_use]
    pub fn agent_color(&self, agent: &str, agent_color_override: Option<(u8, u8, u8)>) -> (c: Color)
        ensures
            c == self.spec_agent_color(agent@, agent_color_override),
    {
        if let Some(rgb) = agent_color_override {
            return Color::Rgb { r: rgb.0, g: rgb.1, b: rgb.2 };
        }
        let name = chars_of(agent);
        if same_chars(&name, "exec") {
            self.success
        } else if same_chars(&name, "plan") {
            self.accent2
        } else {
            self.info
        }
    }
}

impl Default for Theme {
    /// The default theme: dark, with a plain border.
    fn default() -> (theme: Self)
        ensures
            theme.name@ == "nodecode-default"@,
            theme == Theme::spec_default(theme.name),
    {
        Theme {
            name: "nodecode-default".to_owned(),
                background: Color::Rgb { r: 10, g: 12, b: 14 },
                foreground: Color::Rgb { r: 230, g: 232, b: 235 },
                primary: Color::Rgb { r: 232, g: 236, b: 244 },
                secondary: Color::Rgb { r: 168, g: 176, b: 188 },
                tertiary: Color::Rgb { r: 134, g: 145, b: 160 },
                quaternary: Color::Rgb { r: 108, g: 121, b: 138 },
                accent1: Color::Rgb { r: 110, g: 168, b: 255 },
                accent2: Color::Rgb { r: 71, g: 208, b: 177 },
                accent3: Color::Rgb { r: 255, g: 198, b: 93 },
                accent4: Color::Rgb { r: 219, g: 132, b: 255 },
                user_input: Color::Rgb { r: 232, g: 236, b: 244 },
                success: Color::Rgb { r: 94, g: 201, b: 123 },
                error: Color::Rgb { r: 236, g: 99, b: 110 },
                info: Color::Rgb { r: 90, g: 175, b: 255 },
                selection: Color::Rgb { r: 60, g: 72, b: 89 },
                cursor: Color::Rgb { r: 232, g: 236, b: 244 },
                border: Color::Rgb { r: 58, g: 67, b: 80 },
                border_subtle: Color::Rgb { r: 41, g: 47, b: 56 },
                border_focused: Color::Rgb { r: 110, g: 168, b: 255 },
                background_void: Color::Rgb { r: 6, g: 8, b: 10 },
                background_canvas: Color::Rgb { r: 10, g: 12, b: 14 },
                background_subtle: Color::Rgb { r: 15, g: 18, b: 22 },
                background_surface: Color::Rgb { r: 19, g: 23, b: 28 },
                background_elevated: Color::Rgb { r: 24, g: 29, b: 35 },
                background_floating: Color::Rgb { r: 28, g: 34, b: 41 },
                background_hover: Color::Rgb { r: 31, g: 38, b: 46 },
                background_active: Color::Rgb { r: 35, g: 43, b: 53 },
                background_selected: Color::Rgb { r: 46, g: 55, b: 67 },
                background_faded: Color::Rgb { r: 12, g: 15, b: 18 },
                background_input: Color::Rgb { r: 12, g: 15, b: 18 },
                background_badge: Color::Rgb { r: 32, g: 38, b: 46 },
                background_track: Color::Rgb { r: 24, g: 30, b: 37 },
                background_thumb: Color::Rgb { r: 72, g: 84, b: 99 },
                gray50: Color::Rgb { r: 249, g: 250, b: 251 },
                gray100: Color::Rgb { r: 243, g: 244, b: 246 },
                gray200: Color::Rgb { r: 229, g: 231, b: 235 },
                gray300: Color::Rgb { r: 209, g: 213, b: 219 },
                gray400: Color::Rgb { r: 156, g: 163, b: 175 },
                gray500: Color::Rgb { r: 107, g: 114, b: 128 },
                gray600: Color::Rgb { r: 75, g: 85, b: 99 },
                gray700: Color::Rgb { r: 55, g: 65, b: 81 },
                gray800: Color::Rgb { r: 31, g: 41, b: 55 },
                gray900: Color::Rgb { r: 17, g: 24, b: 39 },
                gray950: Color::Rgb { r: 3, g: 7, b: 18 },
            border_type: BorderKind::Plain,
        }
    }
}

/// Style of a list item. A selected item is drawn in the selection colour,
/// bold. Else an item of the base element is drawn in the foreground colour
/// on the hover background when hovered, on the surface otherwise; any
/// other element in its own style, hovered or normal.
pub open spec fn spec_list_item_style(
    theme: &Theme,
    element: ThemeElement,
    selected: bool,
    hovered: bool,
) -> CellStyle {
    if selected {
        CellStyle { fg: Some(theme.selection), bold: true, ..CellStyle::spec_plain() }
    } else if element == ThemeElement::Base {
        CellStyle {
            fg: Some(theme.foreground),
            bg: Some(
                if hovered {
                    theme.background_hover
                } else {
                    theme.background_surface
                },
            ),
            ..CellStyle::spec_plain()
        }
    } else {
        theme.spec_style_state(
            element,
            if hovered {
                ThemeState::Hovered
            } else {
                ThemeState::Normal
            },
        )
    }
}

/// Style of a list item by its element and state.
#[must_use]
pub fn list_item_style(theme: &Theme, element: ThemeElement, selected: bool, hovered: bool) -> (s:
    CellStyle)
    ensures
        s == spec_list_item_style(theme, element, selected, hovered),
{
    if selected {
        CellStyle::plain().fg(theme.selection).bold()
    } else if element == ThemeElement::Base {
        let bg = if hovered {
            theme.background_hover
        } else {
            theme.background_surface
        };
        CellStyle::plain().fg(theme.foreground).bg(bg)
    } else {
        theme.style_state(
            element,
            if hovered {
                ThemeState::Hovered
            } else {
                ThemeState::Normal
            },
        )
    }
}

/// The red, green and blue of a colour that has them.
pub fn color_to_rgb(color: Color) -> (rgb: Option<(u8, u8, u8)>)
    ensures
        rgb == (match color {
            Color::Rgb { r, g, b } => Some((r, g, b)),
            Color::Indexed(_) => None,
        }),
{
    match color {
        Color::Rgb { r, g, b } => Some((r, g, b)),
        Color::Indexed(_) => None,
    }
}

/// A theme, held for consumers that only read it.
#[derive(Debug, Clone)]
pub struct ThemeFacade {
    inner: Theme,
}

impl ThemeFacade {
    /// The theme inside.
    pub closed spec fn spec_theme(&self) -> Theme {
        self.inner
    }

    pub fn from_theme(theme: Theme) -> (facade: Self)
        ensures
            facade.spec_theme() == theme,
    {
        Self { inner: theme }
    }

    /// The facade of the theme with the overrides applied.
    pub fn apply_overrides(self, ov: &ThemeOverride) -> (facade: Self)
        ensures
            facade.spec_theme() == self.spec_theme().spec_named(ov.name).spec_overridden(
                ov.colors@,
                ov.colors@.len() as int,
            ),
    {
        Self { inner: self.inner.apply_overrides(ov) }
    }

    pub fn palette(&self) -> (p: ThemePalette)
        ensures
            p.background_surface == self.spec_theme().background_surface,
            p.primary == self.spec_theme().primary,
            p.background_elevated == self.spec_theme().background_elevated,
            p.foreground == self.spec_theme().foreground,
            p.border_focused == self.spec_theme().border_focused,
            p.secondary == self.spec_theme().secondary,
            p.success == self.spec_theme().success,
            p.error == self.spec_theme().error,
    {
        self.inner.palette()
    }

    pub fn theme(&self) -> (theme: &Theme)
        ensures
            *theme == self.spec_theme(),
    {
        &self.inner
    }
}

impl Default for ThemeFacade {
    fn default() -> (facade: Self)
        ensures
            facade.spec_theme().name@ == "nodecode-default"@,
            facade.spec_theme() == Theme::spec_default(facade.spec_theme().name),
    {
        Self { inner: Theme::default() }
    }
}

} // verus!
