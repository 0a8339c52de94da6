//! Application-wide appearance settings.
use vstd::prelude::*;

verus! {

/// Colour scheme of the interface.
#[derive(Clone, Copy, Debug, PartialEq, Eq, Structural)]
pub enum ColorTheme {
    Light,
    Dark,
    Auto,
}

/// Whether the scheme is drawn with the dark visuals; the automatic scheme
/// uses the light ones.
pub fn uses_dark_visuals(theme: ColorTheme) -> (dark: bool)
    ensures
        dark == (theme == ColorTheme::Dark),
{
    match theme {
        ColorTheme::Light => false,
        ColorTheme::Dark => true,
        ColorTheme::Auto => false,
    }
}

} // verus!
