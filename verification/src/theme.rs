//! Themes: the mode, the light and dark palettes, custom accent, font and
//! corner radius, and a manager that tracks when the theme must be applied
//! again; also the settings panel's tabs.
use vstd::prelude::*;
use crate::text::{
    ascii_lower_letters, chars_of, contains_seq, eq_ignore_ascii_case,
    eq_ignore_ascii_case_spec, find_seq, lowercase_of, to_lowercase, trim, trim_chars,
};

verus! {

/// Theme mode.
#[derive(Debug, Clone, Copy, PartialEq, Eq, Structural, Default)]
pub enum ThemeMode {
    #[default]
    Light,
    Dark,
    /// Follow the system preference.
    Auto,
}

/// The mode a settings text names: `dark`, `auto` or `system` in any case
/// (by Unicode lower-casing); anything else is light.
pub open spec fn mode_named(text: Seq<char>) -> ThemeMode {
    let l = lowercase_of(text);
    if l == seq!['d', 'a', 'r', 'k'] {
        ThemeMode::Dark
    } else if l == seq!['a', 'u', 't', 'o'] || l == seq!['s', 'y', 's', 't', 'e', 'm'] {
        ThemeMode::Auto
    } else {
        ThemeMode::Light
    }
}

/// The settings text of a mode.
pub open spec fn mode_text(m: ThemeMode) -> Seq<char> {
    match m {
        ThemeMode::Light => "light"@,
        ThemeMode::Dark => "dark"@,
        ThemeMode::Auto => "auto"@,
    }
}

impl ThemeMode {
    /// The mode's settings text.
    pub fn as_str(&self) -> (s: &'static str)
        ensures
            s@ == mode_text(*self),
    {
        match self {
            ThemeMode::Light => "light",
            ThemeMode::Dark => "dark",
            ThemeMode::Auto => "auto",
        }
    }

    /// The mode a settings text names; unknown texts give light.  The
    /// settings text of a mode gives that mode back.
    pub fn parse(s: &str) -> (m: ThemeMode)
        ensures
            m == mode_named(s@),
            forall|k: ThemeMode| s@ == mode_text(k) ==> m == k,
    {
        let lower = to_lowercase(s);
        proof {
            reveal_strlit("light");
            reveal_strlit("dark");
            reveal_strlit("auto");
            assert(ascii_lower_letters("light"@));
            assert(ascii_lower_letters("dark"@));
            assert(ascii_lower_letters("auto"@));
        }
        let l = chars_of(lower.as_str());
        if l.len() == 4 && l[0] == 'd' && l[1] == 'a' && l[2] == 'r' && l[3] == 'k' {
            assert(l@ =~= seq!['d', 'a', 'r', 'k']);
            ThemeMode::Dark
        } else if l.len() == 4 && l[0] == 'a' && l[1] == 'u' && l[2] == 't' && l[3] == 'o' {
            assert(l@ =~= seq!['a', 'u', 't', 'o']);
            ThemeMode::Auto
        } else if l.len() == 6 && l[0] == 's' && l[1] == 'y' && l[2] == 's' && l[3] == 't' && l[4]
            == 'e' && l[5] == 'm' {
            assert(l@ =~= seq!['s', 'y', 's', 't', 'e', 'm']);
            ThemeMode::Auto
        } else {
            proof {
                if l@ == seq!['d', 'a', 'r', 'k'] {
                    assert(l@[0] == 'd' && l@[1] == 'a' && l@[2] == 'r' && l@[3] == 'k');
                }
                if l@ == seq!['a', 'u', 't', 'o'] {
                    assert(l@[0] == 'a' && l@[1] == 'u' && l@[2] == 't' && l@[3] == 'o');
                }
                if l@ == seq!['s', 'y', 's', 't', 'e', 'm'] {
                    assert(l@[0] == 's' && l@[1] == 'y' && l@[2] == 's' && l@[3] == 't' && l@[4]
                        == 'e' && l@[5] == 'm');
                }
            }
            ThemeMode::Light
        }
    }
}

impl std::str::FromStr for ThemeMode {
    type Err = std::convert::Infallible;

    /// The mode a settings text names; this never fails.
    fn from_str(s: &str) -> Result<Self, Self::Err> {
        Ok(ThemeMode::parse(s))
    }
}

/// `p` occurs in `s`.
fn text_contains(s: &str, p: &str) -> (b: bool)
    ensures
        b == contains_seq(s@, p@),
{
    let sv = chars_of(s);
    let pv = chars_of(p);
    find_seq(&sv, &pv).is_some()
}

/// The desktop's colour-scheme setting, as printed, asks for a dark scheme.
pub open spec fn color_scheme_dark(printed: Seq<char>) -> bool {
    contains_seq(printed, "prefer-dark"@) || contains_seq(printed, "dark"@)
}

/// A theme name is that of a dark theme: it holds "dark" in any case.
pub open spec fn theme_name_dark(name: Seq<char>) -> bool {
    contains_seq(lowercase_of(name), "dark"@)
}

/// The interface style a Mac prints is dark: "dark" in any ASCII case,
/// surrounding white space aside.
pub open spec fn interface_style_dark(printed: Seq<char>) -> bool {
    eq_ignore_ascii_case_spec(trim(printed), "dark"@)
}

/// The Windows theme key, as printed, turns the light theme for apps off.
pub open spec fn light_theme_off(printed: Seq<char>) -> bool {
    contains_seq(printed, "0x0"@)
}

/// Whether the printed colour-scheme setting asks for a dark scheme.
pub fn color_scheme_prefers_dark(printed: &str) -> (b: bool)
    ensures
        b == color_scheme_dark(printed@),
{
    text_contains(printed, "prefer-dark") || text_contains(printed, "dark")
}

/// Whether a GTK theme name (from the settings or the environment) is that
/// of a dark theme.
pub fn theme_name_is_dark(name: &str) -> (b: bool)
    ensures
        b == theme_name_dark(name@),
{
    let lower = to_lowercase(name);
    text_contains(lower.as_str(), "dark")
}

/// Whether the interface style a Mac prints is the dark one.
pub fn interface_style_is_dark(printed: &str) -> (b: bool)
    ensures
        b == interface_style_dark(printed@),
{
    let t = trim_chars(&chars_of(printed));
    let dark = chars_of("dark");
    eq_ignore_ascii_case(&t, &dark)
}

/// Whether the printed Windows theme key turns the light theme off, which
/// means the system prefers dark.
pub fn light_theme_turned_off(printed: &str) -> (b: bool)
    ensures
        b == light_theme_off(printed@),
{
    text_contains(printed, "0x0")
}

/// Tabs of the settings panel.
#[derive(Debug, Clone, Copy, PartialEq, Eq, Structural)]
pub enum SettingsTab {
    General,
    Appearance,
    Privacy,
    Security,
    Downloads,
    Advanced,
}

impl SettingsTab {
    /// Every tab, in order.
    pub open spec fn all_spec() -> Seq<SettingsTab> {
        seq![
            SettingsTab::General,
            SettingsTab::Appearance,
            SettingsTab::Privacy,
            SettingsTab::Security,
            SettingsTab::Downloads,
            SettingsTab::Advanced,
        ]
    }

    /// Every tab, in order.
    pub fn all() -> (v: Vec<SettingsTab>)
        ensures
            v@ == Self::all_spec(),
    {
        let v = vec![
            SettingsTab::General,
            SettingsTab::Appearance,
            SettingsTab::Privacy,
            SettingsTab::Security,
            SettingsTab::Downloads,
            SettingsTab::Advanced,
        ];
        assert(v@ =~= Self::all_spec());
        v
    }

    /// The tab's name.
    pub fn name(&self) -> (s: &'static str)
        ensures
            s@ == match self {
                SettingsTab::General => "General"@,
                SettingsTab::Appearance => "Appearance"@,
                SettingsTab::Privacy => "Privacy"@,
                SettingsTab::Security => "Security"@,
                SettingsTab::Downloads => "Downloads"@,
                SettingsTab::Advanced => "Advanced"@,
            },
    {
        match self {
            SettingsTab::General => "General",
            SettingsTab::Appearance => "Appearance",
            SettingsTab::Privacy => "Privacy",
            SettingsTab::Security => "Security",
            SettingsTab::Downloads => "Downloads",
            SettingsTab::Advanced => "Advanced",
        }
    }

    /// The tab's icon.
    pub fn icon(&self) -> (s: &'static str)
        ensures
            s@ == match self {
                SettingsTab::General => "\u{2699}"@,
                SettingsTab::Appearance => "\u{1f3a8}"@,
                SettingsTab::Privacy => "\u{1f512}"@,
                SettingsTab::Security => "\u{1f6e1}"@,
                SettingsTab::Downloads => "\u{2b07}"@,
                SettingsTab::Advanced => "\u{1f527}"@,
            },
    {
        match self {
            SettingsTab::General => "\u{2699}",
            SettingsTab::Appearance => "\u{1f3a8}",
            SettingsTab::Privacy => "\u{1f512}",
            SettingsTab::Security => "\u{1f6e1}",
            SettingsTab::Downloads => "\u{2b07}",
            SettingsTab::Advanced => "\u{1f527}",
        }
    }
}


/// A colour: red, green, blue and opacity.
#[derive(Debug, Clone, Copy, PartialEq, Eq, Structural)]
pub struct Color32 {
    pub r: u8,
    pub g: u8,
    pub b: u8,
    pub a: u8,
}

impl Color32 {
    /// An opaque colour.
    pub fn from_rgb(r: u8, g: u8, b: u8) -> (c: Color32)
        ensures
            c == (Color32 { r, g, b, a: 255 }),
    {
        Color32 { r, g, b, a: 255 }
    }

    /// Opaque red.
    pub fn red() -> (c: Color32)
        ensures
            c == (Color32 { r: 255, g: 0, b: 0, a: 255 }),
    {
        Color32 { r: 255, g: 0, b: 0, a: 255 }
    }

    /// Opaque green.
    pub fn green() -> (c: Color32)
        ensures
            c == (Color32 { r: 0, g: 255, b: 0, a: 255 }),
    {
        Color32 { r: 0, g: 255, b: 0, a: 255 }
    }
}

/// An opaque colour, in spec.
pub open spec fn rgb(r: u8, g: u8, b: u8) -> Color32 {
    Color32 { r, g, b, a: 255 }
}

/// Colours, font and corner radius of the interface.
#[derive(Debug, PartialEq, Eq)]
pub struct Theme {
    pub mode: ThemeMode,
    pub background: Color32,
    pub foreground: Color32,
    pub accent: Color32,
    pub toolbar_bg: Color32,
    pub tab_active_bg: Color32,
    pub tab_inactive_bg: Color32,
    pub font_family: String,
    /// Base font size, in points.
    pub font_size: u32,
    /// Corner radius, in pixels.
    pub border_radius: u32,
}

impl Clone for Theme {
    fn clone(&self) -> (t: Self)
        ensures
            t == *self,
    {
        Theme { font_family: self.font_family.clone(), ..*self }
    }
}

/// The light palette.
pub open spec fn is_light_palette(t: Theme) -> bool {
    &&& t.background == rgb(255, 255, 255)
    &&& t.foreground == rgb(30, 30, 30)
    &&& t.toolbar_bg == rgb(243, 243, 243)
    &&& t.tab_active_bg == rgb(255, 255, 255)
    &&& t.tab_inactive_bg == rgb(230, 230, 230)
}

/// The dark palette.
pub open spec fn is_dark_palette(t: Theme) -> bool {
    &&& t.background == rgb(30, 30, 30)
    &&& t.foreground == rgb(230, 230, 230)
    &&& t.toolbar_bg == rgb(45, 45, 45)
    &&& t.tab_active_bg == rgb(60, 60, 60)
    &&& t.tab_inactive_bg == rgb(40, 40, 40)
}

/// The palette for dark or light.
pub open spec fn has_palette(t: Theme, dark: bool) -> bool {
    if dark {
        is_dark_palette(t)
    } else {
        is_light_palette(t)
    }
}

/// The stock settings: system font at 14 points, corners of 4 pixels.
pub open spec fn stock_font(t: Theme) -> bool {
    t.font_family@ == "system-ui"@ && t.font_size == 14 && t.border_radius == 4
}

impl Default for Theme {
    /// The light theme.
    fn default() -> (t: Self)
        ensures
            t.mode == ThemeMode::Light,
            is_light_palette(t),
            t.accent == rgb(0, 120, 212),
            stock_font(t),
    {
        Theme::light()
    }
}

impl Theme {
    /// The light theme with a blue accent.
    pub fn light() -> (t: Theme)
        ensures
            t.mode == ThemeMode::Light,
            is_light_palette(t),
            t.accent == rgb(0, 120, 212),
            stock_font(t),
    {
        Theme {
            mode: ThemeMode::Light,
            background: Color32::from_rgb(255, 255, 255),
            foreground: Color32::from_rgb(30, 30, 30),
            accent: Color32::from_rgb(0, 120, 212),
            toolbar_bg: Color32::from_rgb(243, 243, 243),
            tab_active_bg: Color32::from_rgb(255, 255, 255),
            tab_inactive_bg: Color32::from_rgb(230, 230, 230),
            font_family: String::from_str("system-ui"),
            font_size: 14,
            border_radius: 4,
        }
    }

    /// The dark theme with a light blue accent.
    pub fn dark() -> (t: Theme)
        ensures
            t.mode == ThemeMode::Dark,
            is_dark_palette(t),
            t.accent == rgb(96, 165, 250),
            stock_font(t),
    {
        Theme {
            mode: ThemeMode::Dark,
            background: Color32::from_rgb(30, 30, 30),
            foreground: Color32::from_rgb(230, 230, 230),
            accent: Color32::from_rgb(96, 165, 250),
            toolbar_bg: Color32::from_rgb(45, 45, 45),
            tab_active_bg: Color32::from_rgb(60, 60, 60),
            tab_inactive_bg: Color32::from_rgb(40, 40, 40),
            font_family: String::from_str("system-ui"),
            font_size: 14,
            border_radius: 4,
        }
    }

    /// The theme for a mode; automatic mode takes the dark or light theme
    /// after the system preference `system_dark`.
    pub fn for_mode(mode: ThemeMode, system_dark: bool) -> (t: Theme)
        ensures
            match mode {
                ThemeMode::Light => t.mode == ThemeMode::Light && is_light_palette(t)
                    && t.accent == rgb(0, 120, 212),
                ThemeMode::Dark => t.mode == ThemeMode::Dark && is_dark_palette(t)
                    && t.accent == rgb(96, 165, 250),
                ThemeMode::Auto => if system_dark {
                    t.mode == ThemeMode::Dark && is_dark_palette(t) && t.accent == rgb(96, 165, 250)
                } else {
                    t.mode == ThemeMode::Light && is_light_palette(t) && t.accent == rgb(0, 120, 212)
                },
            },
            stock_font(t),
    {
        match mode {
            ThemeMode::Light => Theme::light(),
            ThemeMode::Dark => Theme::dark(),
            ThemeMode::Auto => if system_dark {
                Theme::dark()
            } else {
                Theme::light()
            },
        }
    }

    /// This theme with another accent.
    pub fn with_accent(self, accent: Color32) -> (t: Theme)
        ensures
            t == (Theme { accent: accent, ..self }),
    {
        Theme { accent, ..self }
    }

    /// This theme with another font.
    pub fn with_font(self, family: String, size: u32) -> (t: Theme)
        ensures
            t == (Theme { font_family: family, font_size: size, ..self }),
    {
        Theme { font_family: family, font_size: size, ..self }
    }

    /// This theme with another corner radius.
    pub fn with_border_radius(self, radius: u32) -> (t: Theme)
        ensures
            t == (Theme { border_radius: radius, ..self }),
    {
        Theme { border_radius: radius, ..self }
    }

    /// Whether the theme is dark: dark mode, or automatic mode while the
    /// system prefers dark.
    pub fn is_dark(&self, system_dark: bool) -> (b: bool)
        ensures
            b == (self.mode == ThemeMode::Dark || (self.mode == ThemeMode::Auto && system_dark)),
    {
        match self.mode {
            ThemeMode::Dark => true,
            ThemeMode::Auto => system_dark,
            ThemeMode::Light => false,
        }
    }

    /// The theme in effect: an automatic theme takes the dark or light
    /// palette after the system preference, keeping its accent, font and
    /// radius; other themes are themselves.
    pub fn resolve(&self, system_dark: bool) -> (t: Theme)
        ensures
            self.mode == ThemeMode::Auto ==> (t.mode == ThemeMode::Auto && has_palette(t, system_dark)
                && t.accent == self.accent && t.font_family == self.font_family && t.font_size
                == self.font_size && t.border_radius == self.border_radius),
            self.mode != ThemeMode::Auto ==> t == *self,
    {
        if self.mode == ThemeMode::Auto {
            let base = if system_dark {
                Theme::dark()
            } else {
                Theme::light()
            };
            Theme {
                mode: ThemeMode::Auto,
                accent: self.accent,
                font_family: self.font_family.clone(),
                font_size: self.font_size,
                border_radius: self.border_radius,
                ..base
            }
        } else {
            self.clone()
        }
    }
}

/// Keeps the current theme and whether it must be applied again.
#[derive(Debug, Clone)]
pub struct ThemeManager {
    current_theme: Theme,
    /// The theme changed since it was last applied.
    pub needs_apply: bool,
}

impl ThemeManager {
    /// The current theme.
    pub closed spec fn spec_theme(&self) -> Theme {
        self.current_theme
    }

    /// Whether the theme must be applied again.
    pub closed spec fn spec_needs_apply(&self) -> bool {
        self.needs_apply
    }

    /// The light theme, to be applied.
    pub fn new() -> (m: Self)
        ensures
            m.spec_theme().mode == ThemeMode::Light,
            is_light_palette(m.spec_theme()),
            stock_font(m.spec_theme()),
            m.spec_needs_apply(),
    {
        ThemeManager { current_theme: Theme::default(), needs_apply: true }
    }

    /// This theme, to be applied.
    pub fn with_theme(theme: Theme) -> (m: Self)
        ensures
            m.spec_theme() == theme,
            m.spec_needs_apply(),
    {
        ThemeManager { current_theme: theme, needs_apply: true }
    }

    /// The current theme.
    pub fn theme(&self) -> (t: &Theme)
        ensures
            *t == self.spec_theme(),
    {
        &self.current_theme
    }

    /// The current mode.
    pub fn mode(&self) -> (m: ThemeMode)
        ensures
            m == self.spec_theme().mode,
    {
        self.current_theme.mode
    }

    /// Switch mode: the theme for the new mode (automatic mode after the
    /// system preference) keeps the accent, font and radius, and must be
    /// applied.  The same mode changes nothing.
    pub fn set_mode(&mut self, mode: ThemeMode, system_dark: bool)
        ensures
            old(self).spec_theme().mode == mode ==> final(self).spec_theme() == old(self).spec_theme()
                && final(self).spec_needs_apply() == old(self).spec_needs_apply(),
            old(self).spec_theme().mode != mode ==> ({
                let t = final(self).spec_theme();
                &&& t.mode == mode
                &&& has_palette(t, mode == ThemeMode::Dark || (mode == ThemeMode::Auto && system_dark))
                &&& t.accent == old(self).spec_theme().accent
                &&& t.font_family == old(self).spec_theme().font_family
                &&& t.font_size == old(self).spec_theme().font_size
                &&& t.border_radius == old(self).spec_theme().border_radius
                &&& final(self).spec_needs_apply()
            }),
    {
        if self.current_theme.mode != mode {
            let accent = self.current_theme.accent;
            let family = self.current_theme.font_family.clone();
            let size = self.current_theme.font_size;
            let radius = self.current_theme.border_radius;
            let mut t = Theme::for_mode(mode, system_dark).with_accent(accent).with_font(family, size).with_border_radius(
                radius,
            );
            t.mode = mode;
            self.current_theme = t;
            self.needs_apply = true;
        }
    }

    /// Use another accent; a change must be applied.
    pub fn set_accent(&mut self, accent: Color32)
        ensures
            final(self).spec_theme() == (Theme { accent: accent, ..old(self).spec_theme() }),
            final(self).spec_needs_apply() == (old(self).spec_needs_apply() || old(self).spec_theme().accent != accent),
    {
        if self.current_theme.accent != accent {
            self.current_theme.accent = accent;
            self.needs_apply = true;
        }
    }

    /// Use another font; a change must be applied.
    pub fn set_font(&mut self, family: String, size: u32)
        ensures
            final(self).spec_theme() == (Theme {
                font_family: final(self).spec_theme().font_family,
                font_size: size,
                ..old(self).spec_theme()
            }),
            final(self).spec_theme().font_family@ == family@,
            final(self).spec_needs_apply() == (old(self).spec_needs_apply() || old(self).spec_theme().font_family@
                != family@ || old(self).spec_theme().font_size != size),
    {
        let cur = chars_of(self.current_theme.font_family.as_str());
        let new = chars_of(family.as_str());
        let same_family = crate::text::chars_eq(&cur, &new);
        if !same_family || self.current_theme.font_size != size {
            self.current_theme.font_family = family;
            self.current_theme.font_size = size;
            self.needs_apply = true;
        }
    }

    /// Use another corner radius; a change must be applied.
    pub fn set_border_radius(&mut self, radius: u32)
        ensures
            final(self).spec_theme() == (Theme { border_radius: radius, ..old(self).spec_theme() }),
            final(self).spec_needs_apply() == (old(self).spec_needs_apply() || old(self).spec_theme().border_radius
                != radius),
    {
        if self.current_theme.border_radius != radius {
            self.current_theme.border_radius = radius;
            self.needs_apply = true;
        }
    }

    /// Whether the theme must be applied now; it then counts as applied.
    pub fn apply_if_needed(&mut self) -> (b: bool)
        ensures
            b == old(self).spec_needs_apply(),
            !final(self).spec_needs_apply(),
            final(self).spec_theme() == old(self).spec_theme(),
    {
        if self.needs_apply {
            self.needs_apply = false;
            true
        } else {
            false
        }
    }

    /// The theme counts as applied.
    pub fn apply(&mut self)
        ensures
            !final(self).spec_needs_apply(),
            final(self).spec_theme() == old(self).spec_theme(),
    {
        self.needs_apply = false;
    }

    /// Follow a change of the system preference in automatic mode.
    /// `was_dark` is the theme's darkness as first read (`Theme::is_dark`
    /// with the system preference at that moment) and `system_dark` the
    /// preference read afterwards; when they differ, the theme takes the
    /// palette for `system_dark` and must be applied.
    pub fn check_system_change(&mut self, system_dark: bool, was_dark: bool)
        ensures
            (old(self).spec_theme().mode == ThemeMode::Auto && was_dark != system_dark) ==> (
            final(self).spec_needs_apply() && has_palette(final(self).spec_theme(), system_dark)
                && final(self).spec_theme().mode == old(self).spec_theme().mode
                && final(self).spec_theme().accent == old(self).spec_theme().accent
                && final(self).spec_theme().font_family == old(self).spec_theme().font_family
                && final(self).spec_theme().font_size == old(self).spec_theme().font_size
                && final(self).spec_theme().border_radius == old(self).spec_theme().border_radius),
            !(old(self).spec_theme().mode == ThemeMode::Auto && was_dark != system_dark) ==> (
            final(self).spec_theme() == old(self).spec_theme() && final(self).spec_needs_apply() == old(
                self,
            ).spec_needs_apply()),
    {
        if self.current_theme.mode == ThemeMode::Auto {
            if was_dark != system_dark {
                self.needs_apply = true;
                let base = if system_dark {
                    Theme::dark()
                } else {
                    Theme::light()
                };
                self.current_theme.background = base.background;
                self.current_theme.foreground = base.foreground;
                self.current_theme.toolbar_bg = base.toolbar_bg;
                self.current_theme.tab_active_bg = base.tab_active_bg;
                self.current_theme.tab_inactive_bg = base.tab_inactive_bg;
            }
        }
    }
}

impl Default for ThemeManager {
    fn default() -> (m: Self)
        ensures
            m.spec_theme().mode == ThemeMode::Light,
            m.spec_needs_apply(),
    {
        ThemeManager::new()
    }
}

} // verus!
