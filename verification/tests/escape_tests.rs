//! Tests of HTML escaping.

use portfolio_site::escape::escape_html_text;

#[test]
fn escapes_every_significant_character() {
    assert_eq!(escape_html_text("&"), "&amp;");
    assert_eq!(escape_html_text("<"), "&lt;");
    assert_eq!(escape_html_text(">"), "&gt;");
    assert_eq!(escape_html_text("\""), "&quot;");
    assert_eq!(escape_html_text("'"), "&#39;");
}

#[test]
fn escapes_a_mixed_string_exactly() {
    assert_eq!(
        escape_html_text(r#"<a href="x">&'</a>"#),
        "&lt;a href=&quot;x&quot;&gt;&amp;&#39;&lt;/a&gt;"
    );
}

#[test]
fn leaves_plain_text_unchanged() {
    assert_eq!(escape_html_text("plain text, no markup."), "plain text, no markup.");
    assert_eq!(escape_html_text(""), "");
}

#[test]
fn handles_multibyte_characters() {
    assert_eq!(escape_html_text("café <menu>"), "café &lt;menu&gt;");
}
