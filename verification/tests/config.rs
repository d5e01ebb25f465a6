use neviraide_core::config::basic::BasicConfig;
use neviraide_core::config::git::GitConfig;
use neviraide_core::config::git::GitsignsConfig;
use neviraide_core::config::lsp::CompletionConfig;
use neviraide_core::config::lsp::DiagnosticConfig;
use neviraide_core::config::lsp::LspConfig;
use neviraide_core::config::ui::FontConfig;
use neviraide_core::config::ui::LineNumbersConfig;
use neviraide_core::config::ui::UiConfig;
use neviraide_core::config::NeviraideConfig;

#[test]
fn basic_defaults() {
    let c = BasicConfig::default();
    assert_eq!(c.language, "ru");
    assert_eq!(c.latest_stable_plugins, true);
    assert_eq!(c.programming, vec!["lua".to_string(), "rust".to_string()]);
}

#[test]
fn git_defaults() {
    let c = GitConfig::default();
    assert_eq!(c.gitsigns.enable_g_signs, true);
    assert_eq!(c.gitsigns.enable_current_line_blame, false);
    assert_eq!(c.gitsigns, GitsignsConfig::default());
}

#[test]
fn lsp_defaults() {
    let c = LspConfig::default();
    assert_eq!(c.format_before_save, false);
    assert_eq!(c.inlay_hints, true);
    assert_eq!(c.code_lenses, true);
    assert_eq!(c.completion.auto, true);
    assert_eq!(c.diagnostic.enable_d_signs, true);
    assert_eq!(c.diagnostic.virtual_text, false);
    assert_eq!(c.diagnostic.show_on_hover, false);
    assert_eq!(c.completion, CompletionConfig::default());
    assert_eq!(c.diagnostic, DiagnosticConfig::default());
}

#[test]
fn ui_defaults() {
    let c = UiConfig::default();
    assert_eq!(c.hyde, false);
    assert_eq!(c.theme, "Catppuccin-Mocha");
    assert_eq!(c.notify, true);
    assert_eq!(c.nonicons, true);
    assert_eq!(c.cursor_line, true);
    assert_eq!(c.cursor_column, false);
    assert_eq!(c.indents, 4);
    assert_eq!(c.line_numbers.auto_switch_relative, true);
    assert_eq!(c.line_numbers.numbers_enabled, true);
    assert_eq!(c.line_numbers.relative_numbers, true);
    assert_eq!(c.font.family, "JetBrainsMono Nerd Font");
    assert_eq!(c.font.size, 11);
    assert_eq!(c.line_numbers, LineNumbersConfig::default());
    assert_eq!(c.font, FontConfig::default());
}

#[test]
fn new_holds_the_defaults_of_every_section() {
    let c = NeviraideConfig::new();
    assert_eq!(c.basic, BasicConfig::default());
    assert_eq!(c.git, GitConfig::default());
    assert_eq!(c.lsp, LspConfig::default());
    assert_eq!(c.ui, UiConfig::default());
    assert_eq!(c, NeviraideConfig::new());
}

#[test]
fn basic_renders_with_the_list_in_debug_form() {
    assert_eq!(
        BasicConfig::default().render(),
        "BasicConfig { language: ru, latest_stable_plugins: true, programming: [\"lua\", \"rust\"] }"
    );
}

#[test]
fn basic_renders_an_empty_list() {
    let c = BasicConfig { language: String::new(), latest_stable_plugins: false, programming: Vec::new() };
    assert_eq!(c.render(), "BasicConfig { language: , latest_stable_plugins: false, programming: [] }");
}

#[test]
fn git_renders() {
    assert_eq!(
        GitsignsConfig::default().render(),
        "GitsignsConfig { enable_g_signs: true, enable_current_line_blame: false }"
    );
    assert_eq!(
        GitConfig::default().render(),
        "GitConfig { gitsigns: GitsignsConfig { enable_g_signs: true, enable_current_line_blame: false } }"
    );
}

#[test]
fn lsp_renders() {
    assert_eq!(CompletionConfig::default().render(), "CompletionConfig { auto: true }");
    assert_eq!(
        DiagnosticConfig::default().render(),
        "DiagnosticConfig { enable_d_signs: true, virtual_text: false, show_on_hover: false }"
    );
    assert_eq!(
        LspConfig::default().render(),
        "LspConfig { format_before_save: false, inlay_hints: true, code_lenses: true, completion: CompletionConfig { auto: true }, diagnostic: DiagnosticConfig { enable_d_signs: true, virtual_text: false, show_on_hover: false } }"
    );
}

#[test]
fn ui_renders_with_the_theme_in_quotes() {
    assert_eq!(
        LineNumbersConfig::default().render(),
        "LineNumbersConfig { auto_switch_relative: true, numbers_enabled: true, relative_numbers: true }"
    );
    assert_eq!(FontConfig::default().render(), "FontConfig { family: JetBrainsMono Nerd Font, size: 11 }");
    assert_eq!(
        UiConfig::default().render(),
        "UiConfig { hyde: false, theme: \"Catppuccin-Mocha\", notify: true, nonicons: true, cursor_line: true, cursor_column: false, indents: 4, line_numbers: LineNumbersConfig { auto_switch_relative: true, numbers_enabled: true, relative_numbers: true }, font: FontConfig { family: JetBrainsMono Nerd Font, size: 11 } }"
    );
}
