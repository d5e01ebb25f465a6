//! Basic settings.

use crate::publish::entry;
use crate::publish::EntryView;
use crate::text::bool_text;
use crate::text::bool_to_string;
use crate::text::debug_list;
use crate::text::debug_list_text;
use crate::text::joined;
use vstd::prelude::*;

verus! {

/// The basic settings.
#[derive(Debug, Clone, PartialEq, Eq)]
pub struct BasicConfig {
    /// The language of the interface.
    pub language: String,
    /// Whether plugins are held to their latest stable release.
    pub latest_stable_plugins: bool,
    /// The programming languages to set up, in the order in which they are
    /// shown.
    pub programming: Vec<String>,
}

/// [`BasicConfig`] with its strings as sequences of characters.
pub struct BasicConfigView {
    pub language: Seq<char>,
    pub latest_stable_plugins: bool,
    pub programming: Seq<Seq<char>>,
}

impl View for BasicConfig {
    type V = BasicConfigView;

    open spec fn view(&self) -> BasicConfigView {
        BasicConfigView {
            language: self.language@,
            latest_stable_plugins: self.latest_stable_plugins,
            programming: self.programming.deep_view(),
        }
    }
}

impl BasicConfigView {
    /// The default basic settings.
    pub open spec fn defaults() -> BasicConfigView {
        BasicConfigView {
            language: "ru"@,
            latest_stable_plugins: true,
            programming: seq!["lua"@, "rust"@],
        }
    }

    /// The writes that publish these settings, one per field and in the order
    /// of the fields. The keys carry no section prefix; the list of languages
    /// is written as its items with a comma between them.
    pub open spec fn entries(self) -> Seq<EntryView> {
        seq![
            entry("language"@, self.language),
            entry("latest_stable_plugins"@, bool_text(self.latest_stable_plugins)),
            entry("programming"@, joined(self.programming, ","@)),
        ]
    }
}

impl BasicConfig {
    /// The default basic settings.
    pub fn default() -> (r: BasicConfig)
        ensures
            r@ == BasicConfigView::defaults(),
    {
        let mut programming: Vec<String> = Vec::new();
        programming.push(String::from_str("lua"));
        programming.push(String::from_str("rust"));
        let r = BasicConfig {
            language: String::from_str("ru"),
            latest_stable_plugins: true,
            programming,
        };
        assert(r@.programming =~= seq!["lua"@, "rust"@]);
        r
    }
}

impl BasicConfigView {
    /// These settings as a line of text: the record's name, then each field
    /// with its value.
    pub open spec fn rendered(self) -> Seq<char> {
        "BasicConfig { language: "@ + self.language + ", latest_stable_plugins: "@
            + bool_text(self.latest_stable_plugins) + ", programming: "@
            + debug_list_text(self.programming) + " }"@
    }
}

impl BasicConfig {
    /// Writes these settings as a line of text.
    pub fn render(&self) -> (r: String)
        ensures
            r@ == self@.rendered(),
    {
        let mut r = String::from_str("BasicConfig { language: ");
        r.append(self.language.as_str());
        r.append(", latest_stable_plugins: ");
        r.append(bool_to_string(self.latest_stable_plugins).as_str());
        r.append(", programming: ");
        r.append(debug_list(&self.programming).as_str());
        r.append(" }");
        r
    }
}

} // verus!
