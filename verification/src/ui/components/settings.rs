//! What each row of the settings screen does.
use vstd::prelude::*;
use crate::config::{AppConfig, Column};

verus! {

/// The row index where the column rows begin.
pub const COLUMNS_START: usize = 6;

/// The number of column rows.
pub const COLUMN_ROWS: usize = 4;

/// The row index where the query rows begin.
pub const QUERIES_START: usize = 10;

/// The action of a settings row.
#[derive(Debug, Clone, Copy, PartialEq, Eq, Structural)]
pub enum SettingAction {
    /// A row that does nothing.
    NoAction,
    ToggleNerdFonts,
    ToggleStatusBar,
    CycleTheme,
    ToggleColumn(Column),
    ToggleQuery(usize),
    AddQuery,
}

/// The column of the column rows (rows 6 to 9).
pub open spec fn column_at(i: int) -> Column {
    if i == 0 { Column::Author } else if i == 1 { Column::Age } else if i == 2 { Column::Diff } else { Column::Comments }
}

/// The action of row `index`: rows 2, 3, 4 toggle nerd fonts, toggle the
/// status bar and cycle the theme; rows 6 to 9 toggle the columns; then
/// one row per query toggles it and the next adds a query; others do nothing.
pub open spec fn spec_setting_action(queries: int, index: int) -> SettingAction {
    if index == 2 {
        SettingAction::ToggleNerdFonts
    } else if index == 3 {
        SettingAction::ToggleStatusBar
    } else if index == 4 {
        SettingAction::CycleTheme
    } else if 6 <= index < 10 {
        SettingAction::ToggleColumn(column_at(index - 6))
    } else if 10 <= index < 10 + queries {
        SettingAction::ToggleQuery((index - 10) as usize)
    } else if index == 10 + queries {
        SettingAction::AddQuery
    } else {
        SettingAction::NoAction
    }
}

/// The action of a settings row (see `spec_setting_action`).
pub fn get_setting_action(config: &AppConfig, index: usize) -> (r: SettingAction)
    ensures
        r == spec_setting_action(config.queries@.len() as int, index as int),
{
    let n = config.queries.len();
    if index == 0 || index == 1 || index == 5 {
        SettingAction::NoAction
    } else if index == 2 {
        SettingAction::ToggleNerdFonts
    } else if index == 3 {
        SettingAction::ToggleStatusBar
    } else if index == 4 {
        SettingAction::CycleTheme
    } else if 6 <= index && index < 10 {
        let col = if index == 6 {
            Column::Author
        } else if index == 7 {
            Column::Age
        } else if index == 8 {
            Column::Diff
        } else {
            Column::Comments
        };
        SettingAction::ToggleColumn(col)
    } else if index >= 10 && index - 10 < n {
        SettingAction::ToggleQuery(index - 10)
    } else if index >= 10 && index - 10 == n {
        SettingAction::AddQuery
    } else {
        SettingAction::NoAction
    }
}

/// The column of the column row `i` (counted from `COLUMNS_START`).
pub fn settings_column(i: usize) -> (r: Column)
    requires
        i < COLUMN_ROWS,
    ensures
        r == column_at(i as int),
        spec_setting_action(0, COLUMNS_START + i) == SettingAction::ToggleColumn(r),
{
    if i == 0 {
        Column::Author
    } else if i == 1 {
        Column::Age
    } else if i == 2 {
        Column::Diff
    } else {
        Column::Comments
    }
}

} // verus!
