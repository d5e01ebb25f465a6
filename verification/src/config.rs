//! The configuration as a whole, and its publication.
//!
//! Each leaf field is published under one key. The keys of the basic settings
//! are the bare field names; every other key is the dotted path of its field
//! below the section's name, except that the version control settings leave
//! out the name of the record between the section and the field.

pub mod basic;
pub mod git;
pub mod lsp;
pub mod ui;

use crate::config::basic::BasicConfig;
use crate::config::basic::BasicConfigView;
use crate::config::git::GitConfig;
use crate::config::lsp::LspConfig;
use crate::config::ui::UiConfig;
use crate::config::ui::UiConfigView;
use crate::error::NeviraideErrorView;
use crate::publish::distinct_keys;
use crate::publish::entry;
use crate::publish::lemma_run_ends;
use crate::publish::lemma_run_first_failure;
use crate::publish::lemma_stored_keeps;
use crate::publish::lemma_stored_reads_back;
use crate::publish::lemma_stored_twice;
use crate::publish::ActionView;
use crate::publish::Entry;
use crate::publish::EntryView;
use crate::publish::Namespace;
use crate::publish::OutcomeView;
use crate::publish::Publisher;
use crate::publish::PublisherView;
use crate::text::bool_to_string;
use crate::text::join;
use crate::text::usize_to_string;
use vstd::prelude::*;

verus! {

/// The whole configuration.
#[derive(Debug, Clone, PartialEq, Eq)]
pub struct NeviraideConfig {
    pub basic: BasicConfig,
    pub git: GitConfig,
    pub lsp: LspConfig,
    pub ui: UiConfig,
}

/// [`NeviraideConfig`] with its strings as sequences of characters.
pub struct NeviraideConfigView {
    pub basic: BasicConfigView,
    pub git: GitConfig,
    pub lsp: LspConfig,
    pub ui: UiConfigView,
}

impl View for NeviraideConfig {
    type V = NeviraideConfigView;

    open spec fn view(&self) -> NeviraideConfigView {
        NeviraideConfigView { basic: self.basic@, git: self.git, lsp: self.lsp, ui: self.ui@ }
    }
}

impl NeviraideConfigView {
    /// The default configuration.
    pub open spec fn defaults() -> NeviraideConfigView {
        NeviraideConfigView {
            basic: BasicConfigView::defaults(),
            git: GitConfig::defaults(),
            lsp: LspConfig::defaults(),
            ui: UiConfigView::defaults(),
        }
    }

    /// The writes that publish the configuration: those of the basic
    /// settings, then version control, language servers and interface.
    pub open spec fn entries(self) -> Seq<EntryView> {
        self.basic.entries() + self.git.entries() + self.lsp.entries() + self.ui.entries()
    }

    /// The publication of the configuration before its first write.
    pub open spec fn publication(self) -> PublisherView {
        PublisherView::start(self.entries())
    }
}

impl NeviraideConfig {
    /// The default configuration.
    pub fn new() -> (r: NeviraideConfig)
        ensures
            r@ == NeviraideConfigView::defaults(),
    {
        NeviraideConfig {
            basic: BasicConfig::default(),
            git: GitConfig::default(),
            lsp: LspConfig::default(),
            ui: UiConfig::default(),
        }
    }

    /// Begins the publication of the configuration. The publisher that comes
    /// back asks for one write per leaf field, in the order of
    /// [`NeviraideConfigView::entries`], and ends at the first one that the
    /// host refuses.
    pub fn apply(&self) -> (p: Publisher)
        ensures
            p@ == self@.publication(),
    {
        let mut plan: Vec<Entry> = Vec::new();
        assert(plan.deep_view() =~= Seq::<EntryView>::empty());
        self.apply_basic(&mut plan);
        self.apply_git(&mut plan);
        self.apply_lsp(&mut plan);
        self.apply_ui(&mut plan);
        assert(plan.deep_view() =~= self@.entries());
        Publisher::new(plan)
    }

    /// Adds the writes of the basic settings to `plan`.
    pub fn apply_basic(&self, plan: &mut Vec<Entry>)
        ensures
            final(plan).deep_view() == old(plan).deep_view() + self@.basic.entries(),
    {
        self.set_var(plan, "language", self.basic.language.clone());
        self.set_var(
            plan,
            "latest_stable_plugins",
            bool_to_string(self.basic.latest_stable_plugins),
        );
        self.set_var(plan, "programming", join(&self.basic.programming, ","));
        assert(plan.deep_view() =~= old(plan).deep_view() + self@.basic.entries());
    }

    /// Adds the writes of the version control settings to `plan`.
    pub fn apply_git(&self, plan: &mut Vec<Entry>)
        ensures
            final(plan).deep_view() == old(plan).deep_view() + self@.git.entries(),
    {
        self.set_var(plan, "git.enable_g_signs", bool_to_string(self.git.gitsigns.enable_g_signs));
        self.set_var(
            plan,
            "git.enable_current_line_blame",
            bool_to_string(self.git.gitsigns.enable_current_line_blame),
        );
        assert(plan.deep_view() =~= old(plan).deep_view() + self@.git.entries());
    }

    /// Adds the writes of the language server settings to `plan`.
    pub fn apply_lsp(&self, plan: &mut Vec<Entry>)
        ensures
            final(plan).deep_view() == old(plan).deep_view() + self@.lsp.entries(),
    {
        self.set_var(plan, "lsp.format_before_save", bool_to_string(self.lsp.format_before_save));
        self.set_var(plan, "lsp.inlay_hints", bool_to_string(self.lsp.inlay_hints));
        self.set_var(plan, "lsp.code_lenses", bool_to_string(self.lsp.code_lenses));
        self.set_var(plan, "lsp.completion.auto", bool_to_string(self.lsp.completion.auto));
        self.set_var(
            plan,
            "lsp.diagnostic.enable_d_signs",
            bool_to_string(self.lsp.diagnostic.enable_d_signs),
        );
        self.set_var(
            plan,
            "lsp.diagnostic.virtual_text",
            bool_to_string(self.lsp.diagnostic.virtual_text),
        );
        self.set_var(
            plan,
            "lsp.diagnostic.show_on_hover",
            bool_to_string(self.lsp.diagnostic.show_on_hover),
        );
        assert(plan.deep_view() =~= old(plan).deep_view() + self@.lsp.entries());
    }

    /// Adds the writes of the interface settings to `plan`.
    pub fn apply_ui(&self, plan: &mut Vec<Entry>)
        ensures
            final(plan).deep_view() == old(plan).deep_view() + self@.ui.entries(),
    {
        self.set_var(plan, "ui.hyde", bool_to_string(self.ui.hyde));
        self.set_var(plan, "ui.theme", self.ui.theme.clone());
        self.set_var(plan, "ui.notify", bool_to_string(self.ui.notify));
        self.set_var(plan, "ui.nonicons", bool_to_string(self.ui.nonicons));
        self.set_var(plan, "ui.cursor_line", bool_to_string(self.ui.cursor_line));
        self.set_var(plan, "ui.cursor_column", bool_to_string(self.ui.cursor_column));
        self.set_var(plan, "ui.indents", usize_to_string(self.ui.indents));
        self.set_var(
            plan,
            "ui.line_numbers.auto_switch_relative",
            bool_to_string(self.ui.line_numbers.auto_switch_relative),
        );
        self.set_var(
            plan,
            "ui.line_numbers.numbers_enabled",
            bool_to_string(self.ui.line_numbers.numbers_enabled),
        );
        self.set_var(
            plan,
            "ui.line_numbers.relative_numbers",
            bool_to_string(self.ui.line_numbers.relative_numbers),
        );
        self.set_var(plan, "ui.font.family", self.ui.font.family.clone());
        self.set_var(plan, "ui.font.size", usize_to_string(self.ui.font.size));
        assert(plan.deep_view() =~= old(plan).deep_view() + self@.ui.entries());
    }

    /// Adds the write of `value` under `key` to `plan`.
    fn set_var(&self, plan: &mut Vec<Entry>, key: &str, value: String)
        ensures
            final(plan).deep_view() == old(plan).deep_view().push(entry(key@, value@)),
    {
        plan.push(Entry { key: String::from_str(key), value });
        assert(plan.deep_view() =~= old(plan).deep_view().push(entry(key@, value@)));
    }
}

/// What tells the published keys apart: the length of a key and three of its
/// characters.
spec fn mark(key: Seq<char>) -> (nat, char, char, char) {
    (key.len(), key[0], key[3], key[4])
}

/// No two leaf fields are published under the same key.
pub proof fn lemma_keys_distinct(c: NeviraideConfigView)
    ensures
        c.entries().len() == 24,
        distinct_keys(c.entries()),
{
    let e = c.entries();
    reveal_strlit("language");
    reveal_strlit("latest_stable_plugins");
    reveal_strlit("programming");
    reveal_strlit("git.enable_g_signs");
    reveal_strlit("git.enable_current_line_blame");
    reveal_strlit("lsp.format_before_save");
    reveal_strlit("lsp.inlay_hints");
    reveal_strlit("lsp.code_lenses");
    reveal_strlit("lsp.completion.auto");
    reveal_strlit("lsp.diagnostic.enable_d_signs");
    reveal_strlit("lsp.diagnostic.virtual_text");
    reveal_strlit("lsp.diagnostic.show_on_hover");
    reveal_strlit("ui.hyde");
    reveal_strlit("ui.theme");
    reveal_strlit("ui.notify");
    reveal_strlit("ui.nonicons");
    reveal_strlit("ui.cursor_line");
    reveal_strlit("ui.cursor_column");
    reveal_strlit("ui.indents");
    reveal_strlit("ui.line_numbers.auto_switch_relative");
    reveal_strlit("ui.line_numbers.numbers_enabled");
    reveal_strlit("ui.line_numbers.relative_numbers");
    reveal_strlit("ui.font.family");
    reveal_strlit("ui.font.size");
    assert(mark(e[0].key) == (8nat, 'l', 'g', 'u'));
    assert(mark(e[1].key) == (21nat, 'l', 'e', 's'));
    assert(mark(e[2].key) == (11nat, 'p', 'g', 'r'));
    assert(mark(e[3].key) == (18nat, 'g', '.', 'e'));
    assert(mark(e[4].key) == (29nat, 'g', '.', 'e'));
    assert(mark(e[5].key) == (22nat, 'l', '.', 'f'));
    assert(mark(e[6].key) == (15nat, 'l', '.', 'i'));
    assert(mark(e[7].key) == (15nat, 'l', '.', 'c'));
    assert(mark(e[8].key) == (19nat, 'l', '.', 'c'));
    assert(mark(e[9].key) == (29nat, 'l', '.', 'd'));
    assert(mark(e[10].key) == (27nat, 'l', '.', 'd'));
    assert(mark(e[11].key) == (28nat, 'l', '.', 'd'));
    assert(mark(e[12].key) == (7nat, 'u', 'h', 'y'));
    assert(mark(e[13].key) == (8nat, 'u', 't', 'h'));
    assert(mark(e[14].key) == (9nat, 'u', 'n', 'o'));
    assert(mark(e[15].key) == (11nat, 'u', 'n', 'o'));
    assert(mark(e[16].key) == (14nat, 'u', 'c', 'u'));
    assert(mark(e[17].key) == (16nat, 'u', 'c', 'u'));
    assert(mark(e[18].key) == (10nat, 'u', 'i', 'n'));
    assert(mark(e[19].key) == (36nat, 'u', 'l', 'i'));
    assert(mark(e[20].key) == (31nat, 'u', 'l', 'i'));
    assert(mark(e[21].key) == (32nat, 'u', 'l', 'i'));
    assert(mark(e[22].key) == (14nat, 'u', 'f', 'o'));
    assert(mark(e[23].key) == (12nat, 'u', 'f', 'o'));
    assert forall|i: int, j: int| 0 <= i < j < e.len() implies e[i].key != e[j].key by {
        assert(mark(e[i].key) != mark(e[j].key));
    }
}

/// Where the publication of a configuration succeeds, every published key
/// reads back from the host's namespace as the text of its field.
pub proof fn lemma_apply_reads_back(
    c: NeviraideConfigView,
    before: Namespace,
    answers: spec_fn(nat) -> OutcomeView,
    i: int,
)
    requires
        c.publication().run(answers).action() == ActionView::Finish(Ok(())),
        0 <= i < c.entries().len(),
    ensures
        c.publication().run(answers).namespace(before).dom().contains(c.entries()[i].key),
        c.publication().run(answers).namespace(before)[c.entries()[i].key] == c.entries()[i].value,
{
    lemma_keys_distinct(c);
    lemma_run_ends(c.publication(), answers);
    lemma_stored_reads_back(before, c.entries(), c.entries().len(), i);
}

/// Publishing a configuration twice in a row leaves the host's namespace as
/// publishing it once does.
pub proof fn lemma_apply_twice(
    c: NeviraideConfigView,
    before: Namespace,
    first: spec_fn(nat) -> OutcomeView,
    second: spec_fn(nat) -> OutcomeView,
)
    requires
        c.publication().run(first).action() == ActionView::Finish(Ok(())),
        c.publication().run(second).action() == ActionView::Finish(Ok(())),
    ensures
        c.publication().run(second).namespace(c.publication().run(first).namespace(before))
            == c.publication().run(first).namespace(before),
{
    lemma_run_ends(c.publication(), first);
    lemma_run_ends(c.publication(), second);
    lemma_stored_twice(before, c.entries());
}

/// Where the host refuses the write at position `n` after storing all before
/// it, every write before `n` still reads back from the namespace: nothing is
/// rolled back.
pub proof fn lemma_apply_failure_keeps_written(
    c: NeviraideConfigView,
    before: Namespace,
    answers: spec_fn(nat) -> OutcomeView,
    n: nat,
    reason: Seq<char>,
    i: int,
)
    requires
        0 <= i < n < c.entries().len(),
        forall|k: nat| k < n ==> #[trigger] answers(k) is Written,
        answers(n) == OutcomeView::Failed(reason),
    ensures
        c.publication().run(answers).namespace(before).dom().contains(c.entries()[i].key),
        c.publication().run(answers).namespace(before)[c.entries()[i].key] == c.entries()[i].value,
{
    lemma_keys_distinct(c);
    lemma_run_first_failure(c.publication(), answers, n, reason);
    lemma_stored_reads_back(before, c.entries(), n, i);
}

/// Where the host refuses the write at position `n` after storing all before
/// it, the publication ends with the error that wraps the host's reason, and
/// the key at `n` and every later key is in the namespace as it was before:
/// one that was unset is still unset.
pub proof fn lemma_apply_failure(
    c: NeviraideConfigView,
    before: Namespace,
    answers: spec_fn(nat) -> OutcomeView,
    n: nat,
    reason: Seq<char>,
    j: int,
)
    requires
        n <= j < c.entries().len(),
        forall|i: nat| i < n ==> #[trigger] answers(i) is Written,
        answers(n) == OutcomeView::Failed(reason),
    ensures
        c.publication().run(answers).action() == ActionView::Finish(
            Err(NeviraideErrorView::set_var_failed(reason)),
        ),
        c.publication().run(answers).written == n,
        c.publication().run(answers).namespace(before).dom().contains(c.entries()[j].key)
            == before.dom().contains(c.entries()[j].key),
        c.publication().run(answers).namespace(before)[c.entries()[j].key]
            == before[c.entries()[j].key],
{
    lemma_keys_distinct(c);
    lemma_run_first_failure(c.publication(), answers, n, reason);
    lemma_stored_keeps(before, c.entries(), n, c.entries()[j].key);
}

} // verus!
