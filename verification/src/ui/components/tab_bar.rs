//! Which tab of the tab bar a mode belongs to.
use vstd::prelude::*;
use crate::app::AppMode;

verus! {

/// The tab of a mode: 0 for the pull request screens, 1 for the archive,
/// 2 for the settings screens.
pub open spec fn spec_active_tab(mode: AppMode) -> usize {
    match mode {
        AppMode::Normal | AppMode::Search | AppMode::Follow | AppMode::Help => 0,
        AppMode::Archive => 1,
        _ => 2,
    }
}

/// The tab of a mode (see `spec_active_tab`).
pub fn active_tab(mode: &AppMode) -> (r: usize)
    ensures
        r == spec_active_tab(*mode),
{
    match mode {
        AppMode::Normal | AppMode::Search | AppMode::Follow | AppMode::Help => 0,
        AppMode::Archive => 1,
        AppMode::Settings
        | AppMode::Diagnostic
        | AppMode::LogDetail
        | AppMode::AddQueryName
        | AppMode::AddQuerySearch
        | AppMode::ConfirmQuery
        | AppMode::DeleteQueryConfirm
        | AppMode::ThemePicker
        | AppMode::EditMaxAgeDays => 2,
    }
}

} // verus!
