use vstd::prelude::*;
use syntect::highlighting::{Theme, ThemeSet};
use syntect::parsing::{SyntaxReference, SyntaxSet};
use crate::engine::{
    default_syntaxes, default_themes, engine_output, extension_match, find_by_extension,
    find_by_token, find_plain_text, find_theme, grammar_name, grammar_of, grammar_set,
    named_grammar, plain_text_name, render_html, theme_name, theme_of, token_match,
};
use crate::escape::{escaped, html_escape};
use crate::language::{display_name, language_display_name, lower_of};

verus! {

/// The preformatted block that stands in for themed output: the code,
/// escaped, inside `<pre><code>`.
pub open spec fn fallback_block(code: Seq<char>) -> Seq<char> {
    "<pre><code>"@ + escaped(code) + "</code></pre>"@
}

/// The container that carries the escaped language badge before `inner`.
pub open spec fn badge_block(label: Seq<char>, inner: Seq<char>) -> Seq<char> {
    "<div class=\"code-block\"><span class=\"code-lang-badge\">"@ + escaped(label) + "</span>"@
        + inner + "</div>"@
}

/// The block for `code` under the badge `label`, given what the engine
/// produced: its HTML, or nothing where it failed.
pub open spec fn rendered_block(label: Seq<char>, engine: Option<Seq<char>>, code: Seq<char>) -> Seq<
    char,
> {
    match engine {
        Some(inner) => badge_block(label, inner),
        None => badge_block(label, fallback_block(code)),
    }
}

/// The grammar chosen for a token: the match by token, else the match by
/// file extension, else the plain-text grammar.
pub open spec fn selected_grammar(ss: SyntaxSet, token: Seq<char>) -> SyntaxReference {
    match token_match(ss, token) {
        Some(g) => g,
        None => match extension_match(ss, token) {
            Some(g) => g,
            None => named_grammar(ss, plain_text_name())->0,
        },
    }
}

/// Writes `code`, escaped, as a preformatted block.
pub fn fallback_html(code: &str) -> (r: String)
    ensures
        r@ == fallback_block(code@),
{
    let mut out = String::from_str("<pre><code>");
    let body = html_escape(code);
    out.append(body.as_str());
    out.append("</code></pre>");
    out
}

/// Builds the labelled block from the engine's result: its HTML where it
/// succeeded (`Some`), else the escaped code as a preformatted block.
pub fn compose_block(label: &str, engine: Option<String>, code: &str) -> (r: String)
    ensures
        r@ == rendered_block(label@, engine.deep_view(), code@),
{
    let inner = match engine {
        Some(h) => h,
        None => fallback_html(code),
    };
    let mut out = String::from_str("<div class=\"code-block\"><span class=\"code-lang-badge\">");
    let badge = html_escape(label);
    out.append(badge.as_str());
    out.append("</span>");
    out.append(inner.as_str());
    out.append("</div>");
    out
}

/// The first of three candidates that was found: `by_token`, else
/// `by_extension`, else `fallback`, which always exists.
pub fn first_found<T>(by_token: Option<T>, by_extension: Option<T>, fallback: T) -> (r: T)
    ensures
        r == match by_token {
            Some(s) => s,
            None => match by_extension {
                Some(s) => s,
                None => fallback,
            },
        },
{
    match by_token {
        Some(s) => s,
        None => match by_extension {
            Some(s) => s,
            None => fallback,
        },
    }
}

/// A loaded grammar collection and theme collection, read-only once built.
pub struct Highlighter {
    syntax_set: SyntaxSet,
    theme_set: ThemeSet,
}

impl Highlighter {
    /// The plain-text grammar and the rendering theme are both present.
    #[verifier::type_invariant]
    pub closed spec fn inv(self) -> bool {
        &&& named_grammar(self.syntax_set, plain_text_name()) is Some
        &&& theme_of(self.theme_set, theme_name()) is Some
    }

    /// The grammar collection.
    pub closed spec fn grammars(self) -> SyntaxSet {
        self.syntax_set
    }

    /// The theme collection.
    pub closed spec fn themes(self) -> ThemeSet {
        self.theme_set
    }

    /// The theme every rendering uses.
    pub open spec fn render_theme(self) -> Theme {
        theme_of(self.themes(), theme_name())->0
    }

    /// The block rendered for `code` in the language `token`: the badge names
    /// the token's label or, failing one, the selected grammar; inside stands
    /// the engine's HTML, or the escaped code where the engine failed.
    pub open spec fn highlighted(self, token: Seq<char>, code: Seq<char>) -> Seq<char> {
        let syntax = selected_grammar(self.grammars(), token);
        rendered_block(
            display_name(lower_of(token), grammar_of(syntax)),
            engine_output(code, self.grammars(), syntax, self.render_theme()),
            code,
        )
    }

    /// Loads the bundled grammars and themes.
    pub fn new() -> (r: Highlighter)
        ensures
            named_grammar(r.grammars(), plain_text_name()) is Some,
            theme_of(r.themes(), theme_name()) is Some,
    {
        Highlighter { syntax_set: default_syntaxes(), theme_set: default_themes() }
    }

    /// The grammar for a language token: a match by token, else by file
    /// extension, else plain text. It always finds one.
    pub fn select_syntax(&self, token: &str) -> (r: &SyntaxReference)
        ensures
            *r == selected_grammar(self.grammars(), token@),
            grammar_set(self.grammars()).contains(*r),
    {
        proof {
            use_type_invariant(self);
        }
        first_found(
            find_by_token(&self.syntax_set, token),
            find_by_extension(&self.syntax_set, token),
            find_plain_text(&self.syntax_set),
        )
    }

    fn theme(&self) -> (r: &Theme)
        ensures
            *r == self.render_theme(),
    {
        proof {
            use_type_invariant(self);
        }
        match find_theme(&self.theme_set, "InspiredGitHub") {
            Some(t) => t,
            None => unreached(),
        }
    }

    /// Renders `code` in the language `language` as a labelled HTML block.
    /// It never fails: where the engine fails, the code appears escaped.
    pub fn highlight(&self, language: &str, code: &str) -> (r: String)
        ensures
            r@ == self.highlighted(language@, code@),
    {
        let syntax = self.select_syntax(language);
        let engine_name = grammar_name(syntax);
        let label = language_display_name(language, engine_name);
        let engine = match render_html(code, &self.syntax_set, syntax, self.theme()) {
            Ok(h) => Some(h),
            Err(_) => None,
        };
        compose_block(label, engine, code)
    }
}

} // verus!
