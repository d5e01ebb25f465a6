//! Settings of the interface.

use crate::publish::entry;
use crate::publish::EntryView;
use crate::text::bool_text;
use crate::text::bool_to_string;
use crate::text::usize_to_string;
use crate::text::decimal;
use vstd::prelude::*;

verus! {

/// The settings of the interface.
#[derive(Debug, Clone, PartialEq, Eq)]
pub struct UiConfig {
    /// Whether the interface hides what is not needed.
    pub hyde: bool,
    /// The name of the colour theme.
    pub theme: String,
    /// Whether notifications are shown.
    pub notify: bool,
    /// Whether icons from the nonicons font are used.
    pub nonicons: bool,
    /// Whether the line of the cursor is highlighted.
    pub cursor_line: bool,
    /// Whether the column of the cursor is highlighted.
    pub cursor_column: bool,
    /// The width of one level of indentation.
    pub indents: usize,
    /// The line numbers.
    pub line_numbers: LineNumbersConfig,
    /// The font.
    pub font: FontConfig,
}

/// The settings of the line numbers.
#[derive(Debug, Clone, Copy, PartialEq, Eq)]
pub struct LineNumbersConfig {
    /// Whether relative numbers are switched on and off with the mode.
    pub auto_switch_relative: bool,
    /// Whether line numbers are shown.
    pub numbers_enabled: bool,
    /// Whether the numbers count from the line of the cursor.
    pub relative_numbers: bool,
}

/// The settings of the font.
#[derive(Debug, Clone, PartialEq, Eq)]
pub struct FontConfig {
    /// The font's family.
    pub family: String,
    /// The font's size.
    pub size: usize,
}

/// [`FontConfig`] with the family as a sequence of characters.
pub struct FontConfigView {
    pub family: Seq<char>,
    pub size: nat,
}

/// [`UiConfig`] with its strings as sequences of characters.
pub struct UiConfigView {
    pub hyde: bool,
    pub theme: Seq<char>,
    pub notify: bool,
    pub nonicons: bool,
    pub cursor_line: bool,
    pub cursor_column: bool,
    pub indents: nat,
    pub line_numbers: LineNumbersConfig,
    pub font: FontConfigView,
}

impl View for FontConfig {
    type V = FontConfigView;

    open spec fn view(&self) -> FontConfigView {
        FontConfigView { family: self.family@, size: self.size as nat }
    }
}

impl View for UiConfig {
    type V = UiConfigView;

    open spec fn view(&self) -> UiConfigView {
        UiConfigView {
            hyde: self.hyde,
            theme: self.theme@,
            notify: self.notify,
            nonicons: self.nonicons,
            cursor_line: self.cursor_line,
            cursor_column: self.cursor_column,
            indents: self.indents as nat,
            line_numbers: self.line_numbers,
            font: self.font@,
        }
    }
}

impl LineNumbersConfig {
    /// The default settings of the line numbers.
    pub open spec fn defaults() -> LineNumbersConfig {
        LineNumbersConfig {
            auto_switch_relative: true,
            numbers_enabled: true,
            relative_numbers: true,
        }
    }

    /// The default settings of the line numbers.
    pub fn default() -> (r: LineNumbersConfig)
        ensures
            r == LineNumbersConfig::defaults(),
    {
        LineNumbersConfig {
            auto_switch_relative: true,
            numbers_enabled: true,
            relative_numbers: true,
        }
    }
}

impl FontConfigView {
    /// The default font.
    pub open spec fn defaults() -> FontConfigView {
        FontConfigView { family: "JetBrainsMono Nerd Font"@, size: 11 }
    }
}

impl FontConfig {
    /// The default font.
    pub fn default() -> (r: FontConfig)
        ensures
            r@ == FontConfigView::defaults(),
    {
        FontConfig { family: String::from_str("JetBrainsMono Nerd Font"), size: 11 }
    }
}

impl UiConfigView {
    /// The default settings of the interface.
    pub open spec fn defaults() -> UiConfigView {
        UiConfigView {
            hyde: false,
            theme: "Catppuccin-Mocha"@,
            notify: true,
            nonicons: true,
            cursor_line: true,
            cursor_column: false,
            indents: 4,
            line_numbers: LineNumbersConfig::defaults(),
            font: FontConfigView::defaults(),
        }
    }

    /// The writes that publish these settings, one per leaf field and in the
    /// order of the fields, each key the dotted path of its field. Strings are
    /// written as they are, numbers in decimal.
    pub open spec fn entries(self) -> Seq<EntryView> {
        seq![
            entry("ui.hyde"@, bool_text(self.hyde)),
            entry("ui.theme"@, self.theme),
            entry("ui.notify"@, bool_text(self.notify)),
            entry("ui.nonicons"@, bool_text(self.nonicons)),
            entry("ui.cursor_line"@, bool_text(self.cursor_line)),
            entry("ui.cursor_column"@, bool_text(self.cursor_column)),
            entry("ui.indents"@, decimal(self.indents)),
            entry(
                "ui.line_numbers.auto_switch_relative"@,
                bool_text(self.line_numbers.auto_switch_relative),
            ),
            entry(
                "ui.line_numbers.numbers_enabled"@,
                bool_text(self.line_numbers.numbers_enabled),
            ),
            entry(
                "ui.line_numbers.relative_numbers"@,
                bool_text(self.line_numbers.relative_numbers),
            ),
            entry("ui.font.family"@, self.font.family),
            entry("ui.font.size"@, decimal(self.font.size)),
        ]
    }
}

impl UiConfig {
    /// The default settings of the interface.
    pub fn default() -> (r: UiConfig)
        ensures
            r@ == UiConfigView::defaults(),
    {
        UiConfig {
            hyde: false,
            theme: String::from_str("Catppuccin-Mocha"),
            notify: true,
            nonicons: true,
            cursor_line: true,
            cursor_column: false,
            indents: 4,
            line_numbers: LineNumbersConfig::default(),
            font: FontConfig::default(),
        }
    }
}

impl LineNumbersConfig {
    /// These settings as a line of text: the record's name, then each field
    /// with its value.
    pub open spec fn rendered(self) -> Seq<char> {
        "LineNumbersConfig { auto_switch_relative: "@ + bool_text(self.auto_switch_relative)
            + ", numbers_enabled: "@ + bool_text(self.numbers_enabled) + ", relative_numbers: "@
            + bool_text(self.relative_numbers) + " }"@
    }

    /// Writes these settings as a line of text.
    pub fn render(&self) -> (r: String)
        ensures
            r@ == self.rendered(),
    {
        let mut r = String::from_str("LineNumbersConfig { auto_switch_relative: ");
        r.append(bool_to_string(self.auto_switch_relative).as_str());
        r.append(", numbers_enabled: ");
        r.append(bool_to_string(self.numbers_enabled).as_str());
        r.append(", relative_numbers: ");
        r.append(bool_to_string(self.relative_numbers).as_str());
        r.append(" }");
        r
    }
}

impl FontConfigView {
    /// These settings as a line of text: the record's name, then each field
    /// with its value.
    pub open spec fn rendered(self) -> Seq<char> {
        "FontConfig { family: "@ + self.family + ", size: "@ + decimal(self.size) + " }"@
    }
}

impl FontConfig {
    /// Writes these settings as a line of text.
    pub fn render(&self) -> (r: String)
        ensures
            r@ == self@.rendered(),
    {
        let mut r = String::from_str("FontConfig { family: ");
        r.append(self.family.as_str());
        r.append(", size: ");
        r.append(usize_to_string(self.size).as_str());
        r.append(" }");
        r
    }
}

impl UiConfigView {
    /// These settings as a line of text: the record's name, then each field
    /// with its value.
    pub open spec fn rendered(self) -> Seq<char> {
        "UiConfig { hyde: "@ + bool_text(self.hyde) + ", theme: \""@ + self.theme
            + "\", notify: "@ + bool_text(self.notify) + ", nonicons: "@
            + bool_text(self.nonicons) + ", cursor_line: "@ + bool_text(self.cursor_line)
            + ", cursor_column: "@ + bool_text(self.cursor_column) + ", indents: "@
            + decimal(self.indents) + ", line_numbers: "@ + self.line_numbers.rendered()
            + ", font: "@ + self.font.rendered() + " }"@
    }
}

impl UiConfig {
    /// Writes these settings as a line of text.
    pub fn render(&self) -> (r: String)
        ensures
            r@ == self@.rendered(),
    {
        let mut r = String::from_str("UiConfig { hyde: ");
        r.append(bool_to_string(self.hyde).as_str());
        r.append(", theme: \"");
        r.append(self.theme.as_str());
        r.append("\", notify: ");
        r.append(bool_to_string(self.notify).as_str());
        r.append(", nonicons: ");
        r.append(bool_to_string(self.nonicons).as_str());
        r.append(", cursor_line: ");
        r.append(bool_to_string(self.cursor_line).as_str());
        r.append(", cursor_column: ");
        r.append(bool_to_string(self.cursor_column).as_str());
        r.append(", indents: ");
        r.append(usize_to_string(self.indents).as_str());
        r.append(", line_numbers: ");
        r.append(self.line_numbers.render().as_str());
        r.append(", font: ");
        r.append(self.font.render().as_str());
        r.append(" }");
        r
    }
}

} // verus!
