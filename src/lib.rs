//! Syntax highlighting of source text into labelled HTML blocks.
mod engine;
mod escape;
mod language;
mod protocol;
mod render;

pub use engine::{
    engine_output, extension_match, grammar_of, grammar_set, named_grammar, plain_text_name,
    theme_name, theme_of, token_match,
};
pub use escape::{escaped, escaped_char, html_escape, lemma_escape_concat, lemma_escape_keeps_plain_text};
pub use language::{
    canonical_label, display_label, display_name, either, functional_label, language_display_name,
    lemma_known_token_label, lemma_known_tokens_lowercase, lemma_label_ignores_case,
    lemma_unknown_token_label,
    lower_of, markup_label, same_text, scripting_label, systems_label,
};
pub use protocol::{parse_error_block, parse_error_html, HighlightRequest};
pub use render::{
    badge_block, compose_block, fallback_block, fallback_html, first_found, rendered_block, selected_grammar,
    Highlighter,
};
