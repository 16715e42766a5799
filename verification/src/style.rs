//! Inline CSS of the interface, and the colour of each log line.

use vstd::prelude::*;
use vstd::string::*;
use crate::text::{has_infix, has_prefix, contains_str, starts_with_str};

verus! {

/// Style of a flag toggle button when active.
pub const ACTIVE_FLAG_BUTTON_CSS: &'static str = "
            padding: 4px 8px;
            background: #6c63ff;
            color: white;
            border: 1px solid #8880ff;
            border-radius: 4px;
            cursor: pointer;
            font-size: 11px;
            font-family: monospace;
        ";

/// Style of a flag toggle button when inactive.
pub const INACTIVE_FLAG_BUTTON_CSS: &'static str = "
            padding: 4px 8px;
            background: #1a1a2e;
            color: #a0a0c0;
            border: 1px solid #2a2a4a;
            border-radius: 4px;
            cursor: pointer;
            font-size: 11px;
            font-family: monospace;
        ";

/// Style of a download type tab when active.
pub const ACTIVE_TYPE_TAB_CSS: &'static str = "
            padding: 8px 20px;
            background: #6c63ff;
            color: white;
            border: none;
            border-radius: 6px;
            cursor: pointer;
            font-size: 13px;
            font-weight: bold;
            font-family: monospace;
            letter-spacing: 0.5px;
        ";

/// Style of a download type tab when inactive.
pub const INACTIVE_TYPE_TAB_CSS: &'static str = "
            padding: 8px 20px;
            background: transparent;
            color: #666;
            border: 1px solid #2a2a4a;
            border-radius: 6px;
            cursor: pointer;
            font-size: 13px;
            font-family: monospace;
            letter-spacing: 0.5px;
        ";

/// Style of a download source pill when active.
pub const ACTIVE_SOURCE_PILL_CSS: &'static str = "
            padding: 6px 12px;
            background: #1e1e4a;
            color: #b0a8ff;
            border: 1px solid #6c63ff;
            border-radius: 20px;
            cursor: pointer;
            font-size: 12px;
            font-family: monospace;
        ";

/// Style of a download source pill when inactive.
pub const INACTIVE_SOURCE_PILL_CSS: &'static str = "
            padding: 6px 12px;
            background: transparent;
            color: #555;
            border: 1px solid #2a2a4a;
            border-radius: 20px;
            cursor: pointer;
            font-size: 12px;
            font-family: monospace;
        ";

/// Style of a quality pill when active.
pub const ACTIVE_QUALITY_PILL_CSS: &'static str = "
            padding: 4px 10px;
            background: #2a2a4a;
            color: #6c63ff;
            border: 1px solid #6c63ff;
            border-radius: 4px;
            cursor: pointer;
            font-size: 11px;
            font-family: monospace;
            font-weight: bold;
        ";

/// Style of a quality pill when inactive.
pub const INACTIVE_QUALITY_PILL_CSS: &'static str = "
            padding: 4px 10px;
            background: transparent;
            color: #444;
            border: 1px solid #2a2a4a;
            border-radius: 4px;
            cursor: pointer;
            font-size: 11px;
            font-family: monospace;
        ";

/// Style of a preset card when active.
pub const ACTIVE_PRESET_CARD_CSS: &'static str = "
            padding: 8px;
            background: #1a1a3e;
            border: 1px solid #6c63ff;
            border-radius: 6px;
            cursor: pointer;
        ";

/// Style of a preset card when inactive.
pub const INACTIVE_PRESET_CARD_CSS: &'static str = "
            padding: 8px;
            background: #131320;
            border: 1px solid #1e1e36;
            border-radius: 6px;
            cursor: pointer;
        ";

/// Style of the custom-mode card when active.
pub const ACTIVE_CUSTOM_CARD_CSS: &'static str = "
            padding: 8px 10px;
            background: #1a1a3e;
            border: 1px solid #6c63ff;
            border-radius: 6px;
            cursor: pointer;
        ";

/// Style of the custom-mode card when inactive.
pub const INACTIVE_CUSTOM_CARD_CSS: &'static str = "
            padding: 8px 10px;
            background: #131320;
            border: 1px solid #1e1e36;
            border-radius: 6px;
            cursor: pointer;
        ";

/// Style of the download button.
pub const DOWNLOAD_BUTTON_CSS: &'static str = "
            padding: 10px 18px;
            background: #6c63ff;
            color: white;
            border: none;
            border-radius: 6px;
            cursor: pointer;
            font-size: 13px;
            font-weight: bold;
            white-space: nowrap;
        ";

/// Style of the stop button.
pub const STOP_BUTTON_CSS: &'static str = "
            padding: 10px 18px;
            background: #ff4444;
            color: white;
            border: none;
            border-radius: 6px;
            cursor: pointer;
            font-size: 13px;
            font-weight: bold;
            white-space: nowrap;
        ";

/// Style of the folder picker button.
pub const FOLDER_BUTTON_CSS: &'static str = "
            padding: 10px 12px;
            background: #1e1e3a;
            color: #888;
            border: 1px solid #2a2a4a;
            border-radius: 6px;
            cursor: pointer;
            font-size: 15px;
        ";

/// Returns inline CSS for a flag toggle button based on active state.
pub fn flag_btn_style(active: bool) -> (r: &'static str)
    ensures
        r@ == (if active { ACTIVE_FLAG_BUTTON_CSS@ } else { INACTIVE_FLAG_BUTTON_CSS@ }),
{
    if active {
        ACTIVE_FLAG_BUTTON_CSS
    } else {
        INACTIVE_FLAG_BUTTON_CSS
    }
}

/// Returns inline CSS for a download type tab based on active state.
pub fn type_tab_style(active: bool) -> (r: &'static str)
    ensures
        r@ == (if active { ACTIVE_TYPE_TAB_CSS@ } else { INACTIVE_TYPE_TAB_CSS@ }),
{
    if active {
        ACTIVE_TYPE_TAB_CSS
    } else {
        INACTIVE_TYPE_TAB_CSS
    }
}

/// Returns inline CSS for a download source pill based on active state.
pub fn source_pill_style(active: bool) -> (r: &'static str)
    ensures
        r@ == (if active { ACTIVE_SOURCE_PILL_CSS@ } else { INACTIVE_SOURCE_PILL_CSS@ }),
{
    if active {
        ACTIVE_SOURCE_PILL_CSS
    } else {
        INACTIVE_SOURCE_PILL_CSS
    }
}

/// Returns inline CSS for a quality pill based on active state.
pub fn quality_pill_style(active: bool) -> (r: &'static str)
    ensures
        r@ == (if active { ACTIVE_QUALITY_PILL_CSS@ } else { INACTIVE_QUALITY_PILL_CSS@ }),
{
    if active {
        ACTIVE_QUALITY_PILL_CSS
    } else {
        INACTIVE_QUALITY_PILL_CSS
    }
}

/// Returns inline CSS for a preset card based on active state.
pub fn preset_card_style(active: bool) -> (r: &'static str)
    ensures
        r@ == (if active { ACTIVE_PRESET_CARD_CSS@ } else { INACTIVE_PRESET_CARD_CSS@ }),
{
    if active {
        ACTIVE_PRESET_CARD_CSS
    } else {
        INACTIVE_PRESET_CARD_CSS
    }
}

/// Returns inline CSS for the custom-mode card based on active state.
pub fn custom_card_style(active: bool) -> (r: &'static str)
    ensures
        r@ == (if active { ACTIVE_CUSTOM_CARD_CSS@ } else { INACTIVE_CUSTOM_CARD_CSS@ }),
{
    if active {
        ACTIVE_CUSTOM_CARD_CSS
    } else {
        INACTIVE_CUSTOM_CARD_CSS
    }
}
/// Kinds of button in the input bar.
#[derive(Debug, Clone, Copy, PartialEq, Eq, Structural)]
pub enum ButtonKind {
    Download,
    Stop,
    Folder,
}

/// Returns inline CSS for a button of the input bar.
pub fn btn_style(kind: ButtonKind) -> (r: &'static str)
    ensures
        r@ == (match kind {
            ButtonKind::Download => DOWNLOAD_BUTTON_CSS@,
            ButtonKind::Stop => STOP_BUTTON_CSS@,
            ButtonKind::Folder => FOLDER_BUTTON_CSS@,
        }),
{
    match kind {
        ButtonKind::Download => DOWNLOAD_BUTTON_CSS,
        ButtonKind::Stop => STOP_BUTTON_CSS,
        ButtonKind::Folder => FOLDER_BUTTON_CSS,
    }
}

/// The colour of a log line, by its content:
/// 1. starting with `✔` → green (success);
/// 2. starting with `✗` or `⚠` → red (error / warning);
/// 3. starting with `▶` or `$` → purple (command);
/// 4. containing `[download]` → cyan (download progress);
/// 5. containing `[info]` → orange (information);
/// 6. anything else → grey.
pub open spec fn log_line_css(line: Seq<char>) -> Seq<char> {
    if has_prefix(line, "✔"@) {
        "color: #50fa7b;"@
    } else if has_prefix(line, "✗"@) || has_prefix(line, "⚠"@) {
        "color: #ff5555;"@
    } else if has_prefix(line, "▶"@) || has_prefix(line, "$"@) {
        "color: #6c63ff;"@
    } else if has_infix(line, "[download]"@) {
        "color: #8be9fd;"@
    } else if has_infix(line, "[info]"@) {
        "color: #ffb86c;"@
    } else {
        "color: #b0b0c0;"@
    }
}

/// Returns the CSS colour style of a log line, chosen by its content.
pub fn log_line_style(line: &str) -> (r: &'static str)
    ensures
        r@ == log_line_css(line@),
{
    if starts_with_str(line, "✔") {
        "color: #50fa7b;"
    } else if starts_with_str(line, "✗") || starts_with_str(line, "⚠") {
        "color: #ff5555;"
    } else if starts_with_str(line, "▶") || starts_with_str(line, "$") {
        "color: #6c63ff;"
    } else if contains_str(line, "[download]") {
        "color: #8be9fd;"
    } else if contains_str(line, "[info]") {
        "color: #ffb86c;"
    } else {
        "color: #b0b0c0;"
    }
}

} // verus!
