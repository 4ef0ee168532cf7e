//! The glyphs used in the list, with a plain fallback for terminals without
//! a Nerd Font.
use vstd::prelude::*;

verus! {

/// Chooses glyphs by whether Nerd Font icons are on.
#[derive(Debug)]
pub struct Icons {
    pub use_nerd_fonts: bool,
}

impl Icons {
    /// Icons in the given style.
    pub fn new(use_nerd_fonts: bool) -> (r: Icons)
        ensures
            r.use_nerd_fonts == use_nerd_fonts,
    {
        Icons { use_nerd_fonts }
    }

    /// The comment glyph.
    pub fn comment(&self) -> (r: &'static str)
        ensures
            r@ == (if self.use_nerd_fonts { "󰆈"@ } else { "💬"@ }),
    {
        if self.use_nerd_fonts { "󰆈" } else { "💬" }
    }

    /// The passing-check glyph.
    pub fn check_ok(&self) -> (r: &'static str)
        ensures
            r@ == (if self.use_nerd_fonts { "󰄬"@ } else { "✓"@ }),
    {
        if self.use_nerd_fonts { "󰄬" } else { "✓" }
    }

    /// The failing-check glyph.
    pub fn check_err(&self) -> (r: &'static str)
        ensures
            r@ == (if self.use_nerd_fonts { "󰅖"@ } else { "✗"@ }),
    {
        if self.use_nerd_fonts { "󰅖" } else { "✗" }
    }

    /// The additions marker.
    pub fn additions(&self) -> (r: &'static str)
        ensures
            r@ == "+"@,
    {
        "+"
    }

    /// The deletions marker.
    pub fn deletions(&self) -> (r: &'static str)
        ensures
            r@ == "-"@,
    {
        "-"
    }
}

} // verus!
