use vstd::prelude::*;
use syntect::highlighting::{Theme, ThemeSet};
use syntect::parsing::{SyntaxReference, SyntaxSet};

verus! {

#[verifier::external_type_specification]
#[verifier::external_body]
pub struct ExSyntaxSet(SyntaxSet);

#[verifier::external_type_specification]
#[verifier::external_body]
pub struct ExSyntaxReference(SyntaxReference);

#[verifier::external_type_specification]
#[verifier::external_body]
pub struct ExThemeSet(ThemeSet);

#[verifier::external_type_specification]
#[verifier::external_body]
pub struct ExTheme(Theme);

#[verifier::external_type_specification]
#[verifier::external_body]
pub struct ExError(syntect::Error);

/// The grammars that a grammar collection holds.
pub uninterp spec fn grammar_set(ss: SyntaxSet) -> Set<SyntaxReference>;

/// The value of a grammar's `name` field.
pub uninterp spec fn grammar_of(syntax: SyntaxReference) -> Seq<char>;

/// The grammar that `SyntaxSet::find_syntax_by_name` finds for a name.
pub uninterp spec fn named_grammar(ss: SyntaxSet, name: Seq<char>) -> Option<SyntaxReference>;

/// The grammar that `SyntaxSet::find_syntax_by_token` finds for a token.
pub uninterp spec fn token_match(ss: SyntaxSet, token: Seq<char>) -> Option<SyntaxReference>;

/// The grammar that `SyntaxSet::find_syntax_by_extension` finds for an extension.
pub uninterp spec fn extension_match(ss: SyntaxSet, extension: Seq<char>) -> Option<
    SyntaxReference,
>;

/// The theme that a theme collection holds under a name.
pub uninterp spec fn theme_of(ts: ThemeSet, name: Seq<char>) -> Option<Theme>;

/// What `syntect::html::highlighted_html_for_string` produces: the themed
/// HTML, or nothing where it returns an error.
pub uninterp spec fn engine_output(
    code: Seq<char>,
    ss: SyntaxSet,
    syntax: SyntaxReference,
    theme: Theme,
) -> Option<Seq<char>>;

/// Relies on `SyntaxSet::load_defaults_newlines`: the grammars bundled with
/// syntect, built for lines that keep their newline. Its documentation of
/// `find_syntax_plain_text` says the plain-text grammar is always present.
#[verifier::external_body]
pub(crate) fn default_syntaxes() -> (r: SyntaxSet)
    ensures
        named_grammar(r, plain_text_name()) is Some,
{
    SyntaxSet::load_defaults_newlines()
}

/// Relies on `ThemeSet::load_defaults`: the themes bundled with syntect,
/// which its documentation lists, InspiredGitHub among them.
#[verifier::external_body]
pub(crate) fn default_themes() -> (r: ThemeSet)
    ensures
        theme_of(r, theme_name()) is Some,
{
    ThemeSet::load_defaults()
}

/// Relies on `SyntaxSet::find_syntax_by_token`: a grammar of the collection
/// matched by file extension or by name, ignoring ASCII case, if any.
#[verifier::external_body]
pub(crate) fn find_by_token<'a>(ss: &'a SyntaxSet, token: &str) -> (r: Option<&'a SyntaxReference>)
    ensures
        r is Some == token_match(*ss, token@) is Some,
        r is Some ==> *r->0 == token_match(*ss, token@)->0,
        r is Some ==> grammar_set(*ss).contains(*r->0),
{
    ss.find_syntax_by_token(token)
}

/// Relies on `SyntaxSet::find_syntax_by_extension`: a grammar of the
/// collection that claims `extension` among its file extensions, if any.
#[verifier::external_body]
pub(crate) fn find_by_extension<'a>(ss: &'a SyntaxSet, extension: &str) -> (r: Option<
    &'a SyntaxReference,
>)
    ensures
        r is Some == extension_match(*ss, extension@) is Some,
        r is Some ==> *r->0 == extension_match(*ss, extension@)->0,
        r is Some ==> grammar_set(*ss).contains(*r->0),
{
    ss.find_syntax_by_extension(extension)
}

/// Relies on `SyntaxSet::find_syntax_plain_text`, which is
/// `find_syntax_by_name("Plain Text")` and panics where that finds none.
#[verifier::external_body]
pub(crate) fn find_plain_text<'a>(ss: &'a SyntaxSet) -> (r: &'a SyntaxReference)
    requires
        named_grammar(*ss, plain_text_name()) is Some,
    ensures
        *r == named_grammar(*ss, plain_text_name())->0,
        grammar_of(*r) == plain_text_name(),
        grammar_set(*ss).contains(*r),
{
    ss.find_syntax_plain_text()
}

/// Relies on the public `name` field of `SyntaxReference`.
#[verifier::external_body]
pub(crate) fn grammar_name<'a>(syntax: &'a SyntaxReference) -> (r: &'a str)
    ensures
        r@ == grammar_of(*syntax),
{
    syntax.name.as_str()
}

/// Relies on `BTreeMap::get` over the public `themes` field of `ThemeSet`:
/// the theme stored under `name`, if any.
#[verifier::external_body]
pub(crate) fn find_theme<'a>(ts: &'a ThemeSet, name: &str) -> (r: Option<&'a Theme>)
    ensures
        r is Some == theme_of(*ts, name@) is Some,
        r is Some ==> *r->0 == theme_of(*ts, name@)->0,
{
    ts.themes.get(name)
}

/// Relies on `syntect::html::highlighted_html_for_string`: the code rendered
/// as themed HTML, or the error that stopped the rendering. The grammar must
/// come from the collection passed with it, as syntect's parser requires.
#[verifier::external_body]
pub(crate) fn render_html(
    code: &str,
    ss: &SyntaxSet,
    syntax: &SyntaxReference,
    theme: &Theme,
) -> (r: Result<String, syntect::Error>)
    requires
        grammar_set(*ss).contains(*syntax),
    ensures
        r is Ok == engine_output(code@, *ss, *syntax, *theme) is Some,
        r is Ok ==> r->Ok_0@ == engine_output(code@, *ss, *syntax, *theme)->0,
{
    syntect::html::highlighted_html_for_string(code, ss, syntax, theme)
}

/// The name of the grammar that performs no tokenization.
pub open spec fn plain_text_name() -> Seq<char> {
    "Plain Text"@
}

/// The name of the theme every rendering uses.
pub open spec fn theme_name() -> Seq<char> {
    "InspiredGitHub"@
}

} // verus!
