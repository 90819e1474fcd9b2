//! Tests of page rendering: the document shell and the blog neighbour links.

use portfolio_site::pages::{
    create_html_document, create_html_document_with_css, render_blog_page, render_home_page,
    render_hybrid_contact_page, render_static_contact_page,
};

#[test]
fn document_holds_title_description_and_body() {
    let doc = create_html_document("My Title", "My description", "<p>body here</p>", None);
    assert!(doc.starts_with("<!DOCTYPE html>"));
    assert!(doc.contains("<title>My Title</title>"));
    assert!(doc.contains(r#"<meta name="description" content="My description">"#));
    assert!(doc.contains("<p>body here</p>"));
    assert!(doc.ends_with("</html>"));
    assert!(!doc.contains("preload"));
}

#[test]
fn document_preloads_the_script_when_one_is_given() {
    let doc = create_html_document("T", "D", "B", Some("/assets/app.js"));
    assert!(doc.contains(r#"<link rel="preload" as="script" href="/assets/app.js" crossorigin>"#));
}

#[test]
fn css_document_inlines_extra_styles_and_script() {
    let doc = create_html_document_with_css(
        "T",
        "D",
        "<p>C</p>",
        Some("/assets/app.js"),
        Some(".x { color: red; }"),
    );
    assert!(doc.contains("<title>T</title>"));
    assert!(doc.contains(".x { color: red; }"));
    assert!(doc.contains(r#"<script type="module" src="/assets/app.js"></script>"#));
    assert!(doc.contains("<p>C</p>"));
}

#[test]
fn home_page_holds_the_navigation_and_welcome() {
    let doc = render_home_page();
    assert!(doc.contains("<title>Home - Portfolio Site</title>"));
    assert!(doc.contains(r#"<a href="/about">About</a>"#));
    assert!(doc.contains("Welcome to My Portfolio"));
}

#[test]
fn blog_post_two_links_both_neighbours() {
    let doc = render_blog_page(2);
    assert!(doc.contains("<title>Blog Post 2 - Portfolio Site</title>"));
    assert!(doc.contains(r#"<a href="/blog/1">← Previous</a>"#));
    assert!(doc.contains(r#"<a href="/blog/3">Next →</a>"#));
}

#[test]
fn blog_post_one_links_only_the_next_post() {
    let doc = render_blog_page(1);
    assert!(doc.contains(r#"<a href="/blog/2">Next →</a>"#));
    assert!(!doc.contains("Previous"));
}

#[test]
fn blog_post_three_links_only_the_previous_post() {
    let doc = render_blog_page(3);
    assert!(doc.contains(r#"<a href="/blog/2">← Previous</a>"#));
    assert!(!doc.contains("Next →"));
}

#[test]
fn static_contact_page_holds_the_demo_form() {
    let doc = render_static_contact_page();
    assert!(doc.contains("<title>Contact - Portfolio Site</title>"));
    assert!(doc.contains("Send a Message"));
    assert!(doc.contains(r#"<form class="contact-form">"#));
}

#[test]
fn hybrid_contact_page_imports_the_resolved_script() {
    let doc = render_hybrid_contact_page("/assets/portfolio_site-abc123.js");
    assert!(doc.contains("from '/assets/portfolio_site-abc123.js'"));
    assert!(doc.contains("mount_contact_component"));
    assert!(doc.contains(r#"<div id="contact-form-placeholder""#));
}
