//! Settings of the language servers.

use crate::publish::entry;
use crate::publish::EntryView;
use crate::text::bool_text;
use crate::text::bool_to_string;
use vstd::prelude::*;

verus! {

/// The settings of the language servers.
#[derive(Debug, Clone, Copy, PartialEq, Eq)]
pub struct LspConfig {
    /// Whether a buffer is formatted before it is saved.
    pub format_before_save: bool,
    /// Whether inlay hints are shown.
    pub inlay_hints: bool,
    /// Whether code lenses are shown.
    pub code_lenses: bool,
    /// The completion.
    pub completion: CompletionConfig,
    /// The diagnostics.
    pub diagnostic: DiagnosticConfig,
}

/// The settings of the completion.
#[derive(Debug, Clone, Copy, PartialEq, Eq)]
pub struct CompletionConfig {
    /// Whether the completion opens by itself.
    pub auto: bool,
}

/// The settings of the diagnostics.
#[derive(Debug, Clone, Copy, PartialEq, Eq)]
pub struct DiagnosticConfig {
    /// Whether diagnostics are marked in the sign column.
    pub enable_d_signs: bool,
    /// Whether diagnostics are shown as virtual text.
    pub virtual_text: bool,
    /// Whether diagnostics are shown when the cursor rests on them.
    pub show_on_hover: bool,
}

impl CompletionConfig {
    /// The default settings of the completion.
    pub open spec fn defaults() -> CompletionConfig {
        CompletionConfig { auto: true }
    }

    /// The default settings of the completion.
    pub fn default() -> (r: CompletionConfig)
        ensures
            r == CompletionConfig::defaults(),
    {
        CompletionConfig { auto: true }
    }
}

impl DiagnosticConfig {
    /// The default settings of the diagnostics.
    pub open spec fn defaults() -> DiagnosticConfig {
        DiagnosticConfig { enable_d_signs: true, virtual_text: false, show_on_hover: false }
    }

    /// The default settings of the diagnostics.
    pub fn default() -> (r: DiagnosticConfig)
        ensures
            r == DiagnosticConfig::defaults(),
    {
        DiagnosticConfig { enable_d_signs: true, virtual_text: false, show_on_hover: false }
    }
}

impl LspConfig {
    /// The default settings of the language servers.
    pub open spec fn defaults() -> LspConfig {
        LspConfig {
            format_before_save: false,
            inlay_hints: true,
            code_lenses: true,
            completion: CompletionConfig::defaults(),
            diagnostic: DiagnosticConfig::defaults(),
        }
    }

    /// The writes that publish these settings, one per leaf field and in the
    /// order of the fields, each key the dotted path of its field.
    pub open spec fn entries(self) -> Seq<EntryView> {
        seq![
            entry("lsp.format_before_save"@, bool_text(self.format_before_save)),
            entry("lsp.inlay_hints"@, bool_text(self.inlay_hints)),
            entry("lsp.code_lenses"@, bool_text(self.code_lenses)),
            entry("lsp.completion.auto"@, bool_text(self.completion.auto)),
            entry("lsp.diagnostic.enable_d_signs"@, bool_text(self.diagnostic.enable_d_signs)),
            entry("lsp.diagnostic.virtual_text"@, bool_text(self.diagnostic.virtual_text)),
            entry("lsp.diagnostic.show_on_hover"@, bool_text(self.diagnostic.show_on_hover)),
        ]
    }

    /// The default settings of the language servers.
    pub fn default() -> (r: LspConfig)
        ensures
            r == LspConfig::defaults(),
    {
        LspConfig {
            format_before_save: false,
            inlay_hints: true,
            code_lenses: true,
            completion: CompletionConfig::default(),
            diagnostic: DiagnosticConfig::default(),
        }
    }
}

impl CompletionConfig {
    /// These settings as a line of text: the record's name, then each field
    /// with its value.
    pub open spec fn rendered(self) -> Seq<char> {
        "CompletionConfig { auto: "@ + bool_text(self.auto) + " }"@
    }

    /// Writes these settings as a line of text.
    pub fn render(&self) -> (r: String)
        ensures
            r@ == self.rendered(),
    {
        let mut r = String::from_str("CompletionConfig { auto: ");
        r.append(bool_to_string(self.auto).as_str());
        r.append(" }");
        r
    }
}

impl DiagnosticConfig {
    /// These settings as a line of text: the record's name, then each field
    /// with its value.
    pub open spec fn rendered(self) -> Seq<char> {
        "DiagnosticConfig { enable_d_signs: "@ + bool_text(self.enable_d_signs)
            + ", virtual_text: "@ + bool_text(self.virtual_text) + ", show_on_hover: "@
            + bool_text(self.show_on_hover) + " }"@
    }

    /// Writes these settings as a line of text.
    pub fn render(&self) -> (r: String)
        ensures
            r@ == self.rendered(),
    {
        let mut r = String::from_str("DiagnosticConfig { enable_d_signs: ");
        r.append(bool_to_string(self.enable_d_signs).as_str());
        r.append(", virtual_text: ");
        r.append(bool_to_string(self.virtual_text).as_str());
        r.append(", show_on_hover: ");
        r.append(bool_to_string(self.show_on_hover).as_str());
        r.append(" }");
        r
    }
}

impl LspConfig {
    /// These settings as a line of text: the record's name, then each field
    /// with its value.
    pub open spec fn rendered(self) -> Seq<char> {
        "LspConfig { format_before_save: "@ + bool_text(self.format_before_save)
            + ", inlay_hints: "@ + bool_text(self.inlay_hints) + ", code_lenses: "@
            + bool_text(self.code_lenses) + ", completion: "@ + self.completion.rendered()
            + ", diagnostic: "@ + self.diagnostic.rendered() + " }"@
    }

    /// Writes these settings as a line of text.
    pub fn render(&self) -> (r: String)
        ensures
            r@ == self.rendered(),
    {
        let mut r = String::from_str("LspConfig { format_before_save: ");
        r.append(bool_to_string(self.format_before_save).as_str());
        r.append(", inlay_hints: ");
        r.append(bool_to_string(self.inlay_hints).as_str());
        r.append(", code_lenses: ");
        r.append(bool_to_string(self.code_lenses).as_str());
        r.append(", completion: ");
        r.append(self.completion.render().as_str());
        r.append(", diagnostic: ");
        r.append(self.diagnostic.render().as_str());
        r.append(" }");
        r
    }
}

} // verus!
