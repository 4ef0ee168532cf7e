//! The names of the color themes offered by `ratatui_themes`.
use vstd::prelude::*;

verus! {

/// The slugs of `ratatui_themes::ThemeName::all()`, in its order.
pub open spec fn theme_slug_list() -> Seq<Seq<char>> {
    seq![
        "dracula"@, "one-dark-pro"@, "nord"@, "catppuccin-mocha"@, "catppuccin-latte"@, "gruvbox-dark"@,
        "gruvbox-light"@, "tokyo-night"@, "solarized-dark"@, "solarized-light"@, "monokai-pro"@,
        "rose-pine"@, "kanagawa"@, "everforest"@, "cyberpunk"@, "midnight-commander"@,
    ]
}

/// The views of a list of strings.
pub open spec fn string_views(v: Seq<String>) -> Seq<Seq<char>> {
    v.map_values(|s: String| s@)
}

/// Calls `ratatui_themes::ThemeName::all()` and `slug()` on each theme.
/// Trusted: the crate's source lists the sixteen themes in this order with
/// these slugs.
#[verifier::external_body]
pub(crate) fn theme_slugs() -> (r: Vec<String>)
    ensures
        string_views(r@) == theme_slug_list(),
{
    ratatui_themes::ThemeName::all().iter().map(|t| t.slug().to_string()).collect()
}

} // verus!
