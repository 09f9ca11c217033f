use highlighter::{
    compose_block, display_label, fallback_html, first_found, html_escape, language_display_name,
    parse_error_html, same_text, HighlightRequest, Highlighter,
};

fn badge(label: &str) -> String {
    format!("<span class=\"code-lang-badge\">{}</span>", label)
}

#[test]
fn escape_replaces_the_three_specials() {
    assert_eq!(html_escape("<a & b>"), "&lt;a &amp; b&gt;");
}

#[test]
fn escape_leaves_quotes_and_plain_text() {
    assert_eq!(html_escape("say \"hi\" it's"), "say \"hi\" it's");
    assert_eq!(html_escape(""), "");
    assert_eq!(html_escape("&&"), "&amp;&amp;");
    assert_eq!(html_escape("é<ü>"), "é&lt;ü&gt;");
}

#[test]
fn known_aliases_get_canonical_labels() {
    assert_eq!(language_display_name("py", "Whatever"), "Python");
    assert_eq!(language_display_name("js", "Whatever"), "JavaScript");
    assert_eq!(language_display_name("cpp", "Whatever"), "C++");
    assert_eq!(language_display_name("c++", "Whatever"), "C++");
    assert_eq!(language_display_name("plain text", "Whatever"), "Text");
    assert_eq!(language_display_name("fsharp", "Whatever"), "F#");
    assert_eq!(language_display_name("toml", "Whatever"), "TOML");
}

#[test]
fn aliases_match_case_insensitively() {
    assert_eq!(language_display_name("PY", "Whatever"), "Python");
    assert_eq!(language_display_name("JavaScript", "Whatever"), "JavaScript");
    assert_eq!(language_display_name("Go", "Whatever"), "Go");
}

#[test]
fn unknown_tokens_keep_the_engine_name() {
    assert_eq!(language_display_name("zig", "Plain Text"), "Plain Text");
    assert_eq!(language_display_name("Lisp", "Lisp"), "Lisp");
    assert_eq!(language_display_name("", "Plain Text"), "Plain Text");
    assert_eq!(display_label("PY", "Engine"), "Engine");
    assert_eq!(display_label("py", "Engine"), "Python");
}

#[test]
fn same_text_compares_characters() {
    assert!(same_text("abc", "abc"));
    assert!(!same_text("abc", "abd"));
    assert!(!same_text("ab", "abc"));
    assert!(same_text("", ""));
}

#[test]
fn fallback_block_escapes_code() {
    assert_eq!(fallback_html("a<b && c"), "<pre><code>a&lt;b &amp;&amp; c</code></pre>");
}

#[test]
fn compose_wraps_engine_output() {
    assert_eq!(
        compose_block("C#", Some("<pre>x</pre>".to_string()), "x"),
        "<div class=\"code-block\"><span class=\"code-lang-badge\">C#</span><pre>x</pre></div>"
    );
}

#[test]
fn compose_falls_back_when_engine_fails() {
    assert_eq!(
        compose_block("A&B", None, "<i>"),
        "<div class=\"code-block\"><span class=\"code-lang-badge\">A&amp;B</span>\
         <pre><code>&lt;i&gt;</code></pre></div>"
    );
}

#[test]
fn parse_error_is_escaped() {
    assert_eq!(
        parse_error_html("expected `<` at line 1"),
        "<pre><code>Error parsing request: expected `&lt;` at line 1</code></pre>"
    );
}

#[test]
fn highlight_python_scenario() {
    let h = Highlighter::new();
    let html = h.highlight("python", "print(1)");
    assert!(html.starts_with("<div class=\"code-block\">"));
    assert!(html.contains(&badge("Python")));
    assert!(html.contains("<pre style="));
    assert!(html.contains("print"));
    assert!(html.ends_with("</div>"));
}

#[test]
fn highlight_unknown_language_uses_plain_text() {
    let h = Highlighter::new();
    let html = h.highlight("no-such-language", "a < b");
    assert!(html.contains(&badge("Plain Text")));
    assert!(html.contains("&lt;"));
}

#[test]
fn grammar_selection_always_finds_one() {
    let h = Highlighter::new();
    assert_eq!(h.select_syntax("rs").name, "Rust");
    assert_eq!(h.select_syntax("python").name, "Python");
    assert_eq!(h.select_syntax("definitely not a language").name, "Plain Text");
    assert_eq!(h.select_syntax("").name, "Plain Text");
}

#[test]
fn line_with_request_gets_highlighted() {
    let h = Highlighter::new();
    let line = "{\"language\":\"js\",\"code\":\"let x=1;\"}";
    let req = HighlightRequest { language: "js".to_string(), code: "let x=1;".to_string() };
    let html = h.respond(line, Ok(req)).unwrap();
    assert!(html.contains(&badge("JavaScript")));
}

#[test]
fn malformed_line_gets_error_block() {
    let h = Highlighter::new();
    let message = serde_json::from_str::<serde_json::Value>("not json").unwrap_err().to_string();
    let html = h.respond("not json", Err(message.clone())).unwrap();
    assert_eq!(html, format!("<pre><code>Error parsing request: {}</code></pre>", html_escape(&message)));
    assert!(html.contains("expected"));
    let next = HighlightRequest { language: "py".to_string(), code: "x".to_string() };
    assert!(h.respond("{}", Ok(next)).unwrap().contains(&badge("Python")));
}

#[test]
fn empty_line_gets_no_answer() {
    let h = Highlighter::new();
    assert!(h.respond("", Err("EOF while parsing a value".to_string())).is_none());
    let req = HighlightRequest { language: "py".to_string(), code: "x".to_string() };
    assert!(h.respond("", Ok(req)).is_none());
}

#[test]
fn first_found_prefers_token_then_extension() {

    assert_eq!(first_found(Some(1), Some(2), 3), 1);
    assert_eq!(first_found(None, Some(2), 3), 2);
    assert_eq!(first_found(None, None, 3), 3);
}

#[test]
fn highlight_uses_engine_markup_not_fallback() {
    let h = Highlighter::new();
    let html = h.highlight("rs", "fn main() {}");
    assert!(html.contains(&badge("Rust")));
    assert!(!html.contains("<pre><code>"));
    assert!(html.contains("<span style="));
}

#[test]
fn unknown_token_badge_names_selected_grammar() {
    let h = Highlighter::new();
    let name = h.select_syntax("tex").name.clone();
    let html = h.highlight("tex", "\\section{A}");
    assert!(html.contains(&badge(&html_escape(&name))));
}
