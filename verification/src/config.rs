//! Editor and UI preferences with their defaults. Reading and writing the
//! configuration file is an outside concern; the core only holds the
//! values the editor consults.

use vstd::prelude::*;

verus! {

/// Default tab width.
pub fn default_tab_size() -> (r: usize)
    ensures
        r == 4,
{
    4
}

/// Whether tabs are written as spaces by default.
pub fn default_use_spaces() -> (r: bool)
    ensures
        r,
{
    true
}

/// Whether the line-number gutter is shown by default.
pub fn default_show_line_numbers() -> (r: bool)
    ensures
        r,
{
    true
}

/// Whether the cursor line is highlighted by default.
pub fn default_highlight_current_line() -> (r: bool)
    ensures
        r,
{
    true
}

/// Whether long lines wrap by default.
pub fn default_word_wrap() -> (r: bool)
    ensures
        !r,
{
    false
}

/// Whether buffers save themselves by default.
pub fn default_auto_save() -> (r: bool)
    ensures
        !r,
{
    false
}

/// The default auto-save delay in milliseconds.
pub fn default_auto_save_delay() -> (r: u64)
    ensures
        r == 1000,
{
    1000
}

/// The default color theme name.
pub fn default_theme() -> (r: String)
    ensures
        r@ == "default"@,
{
    String::from_str("default")
}

/// The default font name.
pub fn default_font() -> (r: String)
    ensures
        r@ == "Jetbrains Mono"@,
{
    String::from_str("Jetbrains Mono")
}

/// The default font size.
pub fn default_font_size() -> (r: usize)
    ensures
        r == 12,
{
    12
}

/// Whether the status bar is shown by default.
pub fn default_show_status_bar() -> (r: bool)
    ensures
        r,
{
    true
}

/// Whether the menu bar is shown by default.
pub fn default_show_menu_bar() -> (r: bool)
    ensures
        r,
{
    true
}

/// Whether the minimap is shown by default.
pub fn default_show_minimap() -> (r: bool)
    ensures
        !r,
{
    false
}

/// Editing behavior settings.
#[derive(Debug, Clone)]
pub struct EditorConfig {
    pub tab_size: usize,
    pub use_spaces: bool,
    pub show_line_numbers: bool,
    pub highlight_current_line: bool,
    pub word_wrap: bool,
    pub auto_save: bool,
    pub auto_save_delay: u64,
}

impl Default for EditorConfig {
    /// The defaults above, gathered.
    fn default() -> (r: EditorConfig)
        ensures
            r.tab_size == 4,
            r.use_spaces,
            r.show_line_numbers,
            r.highlight_current_line,
            !r.word_wrap,
            !r.auto_save,
            r.auto_save_delay == 1000,
    {
        EditorConfig {
            tab_size: default_tab_size(),
            use_spaces: default_use_spaces(),
            show_line_numbers: default_show_line_numbers(),
            highlight_current_line: default_highlight_current_line(),
            word_wrap: default_word_wrap(),
            auto_save: default_auto_save(),
            auto_save_delay: default_auto_save_delay(),
        }
    }
}

/// Appearance settings.
#[derive(Debug, Clone)]
pub struct UiConfig {
    pub theme: String,
    pub font: String,
    pub font_size: usize,
    pub show_status_bar: bool,
    pub show_menu_bar: bool,
    pub show_minimap: bool,
}

impl Default for UiConfig {
    /// The defaults above, gathered.
    fn default() -> (r: UiConfig)
        ensures
            r.theme@ == "default"@,
            r.font@ == "Jetbrains Mono"@,
            r.font_size == 12,
            r.show_status_bar,
            r.show_menu_bar,
            !r.show_minimap,
    {
        UiConfig {
            theme: default_theme(),
            font: default_font(),
            font_size: default_font_size(),
            show_status_bar: default_show_status_bar(),
            show_menu_bar: default_show_menu_bar(),
            show_minimap: default_show_minimap(),
        }
    }
}

} // verus!
