//! The colour themes of the client.

use vstd::prelude::*;
use vstd::string::*;

verus! {

/// A colour theme.
#[derive(Clone, Copy, PartialEq, Eq, Structural, Debug)]
pub enum Theme {
    Default,
    Light,
    Dark,
}

/// The name of a theme, as the page's `theme` attribute holds it.
pub open spec fn theme_name(theme: Theme) -> Seq<char> {
    match theme {
        Theme::Default => "default"@,
        Theme::Light => "light"@,
        Theme::Dark => "dark"@,
    }
}

/// Each theme has its own name: "default", "light" and "dark".
pub proof fn lemma_theme_names(a: Theme, b: Theme)
    ensures
        theme_name(Theme::Default) == "default"@,
        theme_name(Theme::Light) == "light"@,
        theme_name(Theme::Dark) == "dark"@,
        a != b ==> theme_name(a) != theme_name(b),
{
    reveal_strlit("default");
    reveal_strlit("light");
    reveal_strlit("dark");
    if a != b && theme_name(a) == theme_name(b) {
        assert(theme_name(a).len() == theme_name(b).len());
        assert(theme_name(a)[0] == theme_name(b)[0]);
    }
}

impl Theme {
    /// The name of the theme.
    pub fn as_str(&self) -> (r: &'static str)
        ensures
            r@ == theme_name(*self),
    {
        match self {
            Theme::Default => "default",
            Theme::Light => "light",
            Theme::Dark => "dark",
        }
    }
}

/// The attribute of the page's body that selects the theme.
pub fn theme_attribute() -> (r: &'static str)
    ensures
        r@ == "theme"@,
{
    "theme"
}

/// The theme shared with the components, and how to change it (`C` is the
/// callback type of the user interface).
#[derive(Clone, PartialEq)]
pub struct ThemeManager<C> {
    pub current: Theme,
    pub set_theme: C,
}

impl<C> ThemeManager<C> {
    /// A manager that starts with the default theme and changes it through
    /// `set_theme`.
    pub fn new(set_theme: C) -> (m: ThemeManager<C>)
        ensures
            m.current == Theme::Default,
            m.set_theme == set_theme,
    {
        ThemeManager { current: Theme::Default, set_theme }
    }
}

/// What the theme hook hands out: how to change the theme.
#[derive(Clone)]
pub struct UseThemeHandle<C> {
    pub set_theme: C,
}

/// The themes that the navigation bar offers, in order.
pub fn theme_choices() -> (r: Vec<Theme>)
    ensures
        r@ == seq![Theme::Default, Theme::Light, Theme::Dark],
{
    let mut r: Vec<Theme> = Vec::new();
    r.push(Theme::Default);
    r.push(Theme::Light);
    r.push(Theme::Dark);
    assert(r@ =~= seq![Theme::Default, Theme::Light, Theme::Dark]);
    r
}

} // verus!
