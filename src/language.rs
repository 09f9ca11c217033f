use vstd::prelude::*;

verus! {

/// The result of `str::to_lowercase` on a text.
pub uninterp spec fn lower_of(s: Seq<char>) -> Seq<char>;

/// Relies on `str::to_lowercase`: the lowercase form of `s`, which depends on
/// the characters of `s` alone; the empty text stays empty.
#[verifier::external_body]
fn lowercase(s: &str) -> (r: String)
    ensures
        r@ == lower_of(s@),
        s@.len() == 0 ==> r@.len() == 0,
{
    s.to_lowercase()
}

/// `a` where it holds a label, else `b`.
pub open spec fn either(a: Option<Seq<char>>, b: Option<Seq<char>>) -> Option<Seq<char>> {
    if a is Some {
        a
    } else {
        b
    }
}

/// Labels of the table for JavaScript, TypeScript, Ruby, Python, Rust, shells and C#.
pub open spec fn scripting_label(t: Seq<char>) -> Option<Seq<char>> {
    if t == "js"@ || t == "javascript"@ {
        Some("JavaScript"@)
    } else if t == "ts"@ || t == "typescript"@ {
        Some("TypeScript"@)
    } else if t == "rb"@ || t == "ruby"@ {
        Some("Ruby"@)
    } else if t == "py"@ || t == "python"@ {
        Some("Python"@)
    } else if t == "rs"@ || t == "rust"@ {
        Some("Rust"@)
    } else if t == "sh"@ || t == "bash"@ || t == "shell"@ {
        Some("Shell"@)
    } else if t == "cs"@ || t == "csharp"@ {
        Some("C#"@)
    } else {
        None
    }
}

/// Labels of the table for C++, Markdown, YAML, Haskell, OCaml, Elixir and Erlang.
pub open spec fn systems_label(t: Seq<char>) -> Option<Seq<char>> {
    if t == "cpp"@ || t == "c++"@ {
        Some("C++"@)
    } else if t == "md"@ || t == "markdown"@ {
        Some("Markdown"@)
    } else if t == "yml"@ || t == "yaml"@ {
        Some("YAML"@)
    } else if t == "hs"@ || t == "haskell"@ {
        Some("Haskell"@)
    } else if t == "ml"@ || t == "ocaml"@ {
        Some("OCaml"@)
    } else if t == "ex"@ || t == "elixir"@ {
        Some("Elixir"@)
    } else if t == "erl"@ || t == "erlang"@ {
        Some("Erlang"@)
    } else {
        None
    }
}

/// Labels of the table for Kotlin, Scala, Clojure, F#, Go, Java and C.
pub open spec fn functional_label(t: Seq<char>) -> Option<Seq<char>> {
    if t == "kt"@ || t == "kotlin"@ {
        Some("Kotlin"@)
    } else if t == "sc"@ || t == "scala"@ {
        Some("Scala"@)
    } else if t == "clj"@ || t == "clojure"@ {
        Some("Clojure"@)
    } else if t == "fs"@ || t == "fsharp"@ {
        Some("F#"@)
    } else if t == "go"@ || t == "golang"@ {
        Some("Go"@)
    } else if t == "java"@ {
        Some("Java"@)
    } else if t == "c"@ {
        Some("C"@)
    } else {
        None
    }
}

/// Labels of the table for SQL, HTML, CSS, XML, JSON, TOML and plain text.
pub open spec fn markup_label(t: Seq<char>) -> Option<Seq<char>> {
    if t == "sql"@ {
        Some("SQL"@)
    } else if t == "html"@ {
        Some("HTML"@)
    } else if t == "css"@ {
        Some("CSS"@)
    } else if t == "xml"@ {
        Some("XML"@)
    } else if t == "json"@ {
        Some("JSON"@)
    } else if t == "toml"@ {
        Some("TOML"@)
    } else if t == "text"@ || t == "plaintext"@ || t == "plain text"@ {
        Some("Text"@)
    } else {
        None
    }
}

/// The canonical label of a lowercase language token, for the tokens that
/// have one: common abbreviations and full names of widespread languages.
pub open spec fn canonical_label(t: Seq<char>) -> Option<Seq<char>> {
    either(scripting_label(t), either(systems_label(t), either(functional_label(t), markup_label(t))))
}

/// The name shown for a lowercase token: its canonical label where it has
/// one, otherwise the name the engine gave to the grammar it selected.
pub open spec fn display_name(lowered: Seq<char>, engine_name: Seq<char>) -> Seq<char> {
    match canonical_label(lowered) {
        Some(label) => label,
        None => engine_name,
    }
}

/// Whether two texts hold the same characters.
pub fn same_text(a: &str, b: &str) -> (r: bool)
    ensures
        r == (a@ == b@),
{
    let n = a.unicode_len();
    if n != b.unicode_len() {
        return false;
    }
    let mut i: usize = 0;
    while i < n
        invariant
            n == a@.len(),
            n == b@.len(),
            i <= n,
            forall|j: int| 0 <= j < i ==> a@[j] == b@[j],
        decreases n - i,
    {
        if a.get_char(i) != b.get_char(i) {
            return false;
        }
        i = i + 1;
    }
    proof {
        assert(a@ =~= b@);
    }
    true
}

/// The label that `scripting_label` gives the token, if any.
fn scripting_label_of(t: &str) -> (r: Option<&'static str>)
    ensures
        r is Some == scripting_label(t@) is Some,
        r is Some ==> r->0@ == scripting_label(t@)->0,
{
    if same_text(t, "js") || same_text(t, "javascript") {
        Some("JavaScript")
    } else if same_text(t, "ts") || same_text(t, "typescript") {
        Some("TypeScript")
    } else if same_text(t, "rb") || same_text(t, "ruby") {
        Some("Ruby")
    } else if same_text(t, "py") || same_text(t, "python") {
        Some("Python")
    } else if same_text(t, "rs") || same_text(t, "rust") {
        Some("Rust")
    } else if same_text(t, "sh") || same_text(t, "bash") || same_text(t, "shell") {
        Some("Shell")
    } else if same_text(t, "cs") || same_text(t, "csharp") {
        Some("C#")
    } else {
        None
    }
}

/// The label that `systems_label` gives the token, if any.
fn systems_label_of(t: &str) -> (r: Option<&'static str>)
    ensures
        r is Some == systems_label(t@) is Some,
        r is Some ==> r->0@ == systems_label(t@)->0,
{
    if same_text(t, "cpp") || same_text(t, "c++") {
        Some("C++")
    } else if same_text(t, "md") || same_text(t, "markdown") {
        Some("Markdown")
    } else if same_text(t, "yml") || same_text(t, "yaml") {
        Some("YAML")
    } else if same_text(t, "hs") || same_text(t, "haskell") {
        Some("Haskell")
    } else if same_text(t, "ml") || same_text(t, "ocaml") {
        Some("OCaml")
    } else if same_text(t, "ex") || same_text(t, "elixir") {
        Some("Elixir")
    } else if same_text(t, "erl") || same_text(t, "erlang") {
        Some("Erlang")
    } else {
        None
    }
}

/// The label that `functional_label` gives the token, if any.
fn functional_label_of(t: &str) -> (r: Option<&'static str>)
    ensures
        r is Some == functional_label(t@) is Some,
        r is Some ==> r->0@ == functional_label(t@)->0,
{
    if same_text(t, "kt") || same_text(t, "kotlin") {
        Some("Kotlin")
    } else if same_text(t, "sc") || same_text(t, "scala") {
        Some("Scala")
    } else if same_text(t, "clj") || same_text(t, "clojure") {
        Some("Clojure")
    } else if same_text(t, "fs") || same_text(t, "fsharp") {
        Some("F#")
    } else if same_text(t, "go") || same_text(t, "golang") {
        Some("Go")
    } else if same_text(t, "java") {
        Some("Java")
    } else if same_text(t, "c") {
        Some("C")
    } else {
        None
    }
}

/// The label that `markup_label` gives the token, if any.
fn markup_label_of(t: &str) -> (r: Option<&'static str>)
    ensures
        r is Some == markup_label(t@) is Some,
        r is Some ==> r->0@ == markup_label(t@)->0,
{
    if same_text(t, "sql") {
        Some("SQL")
    } else if same_text(t, "html") {
        Some("HTML")
    } else if same_text(t, "css") {
        Some("CSS")
    } else if same_text(t, "xml") {
        Some("XML")
    } else if same_text(t, "json") {
        Some("JSON")
    } else if same_text(t, "toml") {
        Some("TOML")
    } else if same_text(t, "text") || same_text(t, "plaintext") || same_text(t, "plain text") {
        Some("Text")
    } else {
        None
    }
}

/// The name shown for a token that is already in lowercase.
pub fn display_label<'a>(lowered: &str, engine_name: &'a str) -> (r: &'a str)
    ensures
        r@ == display_name(lowered@, engine_name@),
{
    if let Some(label) = scripting_label_of(lowered) {
        return label;
    }
    if let Some(label) = systems_label_of(lowered) {
        return label;
    }
    if let Some(label) = functional_label_of(lowered) {
        return label;
    }
    if let Some(label) = markup_label_of(lowered) {
        return label;
    }
    engine_name
}

/// The name shown in the badge for a caller's language token: the token is
/// lowercased and looked up among the known labels; a token without one takes
/// the name of the grammar the engine selected.
pub fn language_display_name<'a>(token: &'a str, syntect_name: &'a str) -> (r: &'a str)
    ensures
        r@ == display_name(lower_of(token@), syntect_name@),
{
    let lowered = lowercase(token);
    display_label(lowered.as_str(), syntect_name)
}

/// A token with a canonical label is shown under that label, whatever name
/// the engine gave to its grammar.
pub proof fn lemma_known_token_label(t: Seq<char>, engine_a: Seq<char>, engine_b: Seq<char>)
    requires
        canonical_label(t) is Some,
    ensures
        display_name(t, engine_a) == canonical_label(t)->0,
        display_name(t, engine_a) == display_name(t, engine_b),
{
}

/// A token without a canonical label is shown under the engine's grammar
/// name, unchanged.
pub proof fn lemma_unknown_token_label(t: Seq<char>, engine_name: Seq<char>)
    requires
        canonical_label(t) is None,
    ensures
        display_name(t, engine_name) == engine_name,
{
}

/// Tokens that lowercase alike are shown alike: the badge does not depend on
/// the case in which the caller wrote the token.
pub proof fn lemma_label_ignores_case(a: Seq<char>, b: Seq<char>, engine_name: Seq<char>)
    requires
        lower_of(a) == lower_of(b),
    ensures
        display_name(lower_of(a), engine_name) == display_name(lower_of(b), engine_name),
{
}

/// Every token in the table of labels is free of ASCII capitals, so that a
/// token lowercased before the lookup can reach each of them.
pub proof fn lemma_known_tokens_lowercase(t: Seq<char>)
    requires
        canonical_label(t) is Some,
    ensures
        forall|i: int| 0 <= i < t.len() ==> !('A' <= #[trigger] t[i] && t[i] <= 'Z'),
{
    reveal_strlit("js");
    reveal_strlit("javascript");
    reveal_strlit("ts");
    reveal_strlit("typescript");
    reveal_strlit("rb");
    reveal_strlit("ruby");
    reveal_strlit("py");
    reveal_strlit("python");
    reveal_strlit("rs");
    reveal_strlit("rust");
    reveal_strlit("sh");
    reveal_strlit("bash");
    reveal_strlit("shell");
    reveal_strlit("cs");
    reveal_strlit("csharp");
    reveal_strlit("cpp");
    reveal_strlit("c++");
    reveal_strlit("md");
    reveal_strlit("markdown");
    reveal_strlit("yml");
    reveal_strlit("yaml");
    reveal_strlit("hs");
    reveal_strlit("haskell");
    reveal_strlit("ml");
    reveal_strlit("ocaml");
    reveal_strlit("ex");
    reveal_strlit("elixir");
    reveal_strlit("erl");
    reveal_strlit("erlang");
    reveal_strlit("kt");
    reveal_strlit("kotlin");
    reveal_strlit("sc");
    reveal_strlit("scala");
    reveal_strlit("clj");
    reveal_strlit("clojure");
    reveal_strlit("fs");
    reveal_strlit("fsharp");
    reveal_strlit("go");
    reveal_strlit("golang");
    reveal_strlit("java");
    reveal_strlit("c");
    reveal_strlit("sql");
    reveal_strlit("html");
    reveal_strlit("css");
    reveal_strlit("xml");
    reveal_strlit("json");
    reveal_strlit("toml");
    reveal_strlit("text");
    reveal_strlit("plaintext");
    reveal_strlit("plain text");
}

} // verus!
