//! Settings of the version control integration.

use crate::publish::entry;
use crate::publish::EntryView;
use crate::text::bool_text;
use crate::text::bool_to_string;
use vstd::prelude::*;

verus! {

/// The settings of the version control integration.
#[derive(Debug, Clone, Copy, PartialEq, Eq)]
pub struct GitConfig {
    /// The signs in the sign column and the blame.
    pub gitsigns: GitsignsConfig,
}

/// The settings of the signs that mark changed lines, and of the blame.
#[derive(Debug, Clone, Copy, PartialEq, Eq)]
pub struct GitsignsConfig {
    /// Whether changed lines are marked in the sign column.
    pub enable_g_signs: bool,
    /// Whether the blame of the current line is shown.
    pub enable_current_line_blame: bool,
}

impl GitsignsConfig {
    /// The default settings of the signs.
    pub open spec fn defaults() -> GitsignsConfig {
        GitsignsConfig { enable_g_signs: true, enable_current_line_blame: false }
    }

    /// The default settings of the signs.
    pub fn default() -> (r: GitsignsConfig)
        ensures
            r == GitsignsConfig::defaults(),
    {
        GitsignsConfig { enable_g_signs: true, enable_current_line_blame: false }
    }
}

impl GitConfig {
    /// The default settings of the version control integration.
    pub open spec fn defaults() -> GitConfig {
        GitConfig { gitsigns: GitsignsConfig::defaults() }
    }

    /// The writes that publish these settings, one per leaf field and in the
    /// order of the fields. The keys name the section and the field, not the
    /// record in between.
    pub open spec fn entries(self) -> Seq<EntryView> {
        seq![
            entry("git.enable_g_signs"@, bool_text(self.gitsigns.enable_g_signs)),
            entry(
                "git.enable_current_line_blame"@,
                bool_text(self.gitsigns.enable_current_line_blame),
            ),
        ]
    }

    /// The default settings of the version control integration.
    pub fn default() -> (r: GitConfig)
        ensures
            r == GitConfig::defaults(),
    {
        GitConfig { gitsigns: GitsignsConfig::default() }
    }
}

impl GitsignsConfig {
    /// These settings as a line of text: the record's name, then each field
    /// with its value.
    pub open spec fn rendered(self) -> Seq<char> {
        "GitsignsConfig { enable_g_signs: "@ + bool_text(self.enable_g_signs)
            + ", enable_current_line_blame: "@ + bool_text(self.enable_current_line_blame)
            + " }"@
    }

    /// Writes these settings as a line of text.
    pub fn render(&self) -> (r: String)
        ensures
            r@ == self.rendered(),
    {
        let mut r = String::from_str("GitsignsConfig { enable_g_signs: ");
        r.append(bool_to_string(self.enable_g_signs).as_str());
        r.append(", enable_current_line_blame: ");
        r.append(bool_to_string(self.enable_current_line_blame).as_str());
        r.append(" }");
        r
    }
}

impl GitConfig {
    /// These settings as a line of text: the record's name, then each field
    /// with its value.
    pub open spec fn rendered(self) -> Seq<char> {
        "GitConfig { gitsigns: "@ + self.gitsigns.rendered() + " }"@
    }

    /// Writes these settings as a line of text.
    pub fn render(&self) -> (r: String)
        ensures
            r@ == self.rendered(),
    {
        let mut r = String::from_str("GitConfig { gitsigns: ");
        r.append(self.gitsigns.render().as_str());
        r.append(" }");
        r
    }
}

} // verus!
