//! Tests of profile loading and whole-site generation.

use portfolio_site::content::load_profile;
use portfolio_site::pages::render_about_page;
use portfolio_site::site::generate_site;

const GOOD_JSON: &str = r#"{
    "name": "Ada Lovelace",
    "title": "Analyst",
    "location": "London",
    "bio": "I write notes on engines.",
    "skills": ["Mathematics", "Programming"],
    "experience": [
        {
            "company": "Analytical Engines Ltd",
            "position": "Programmer",
            "duration": "1842-1843",
            "description": "Wrote the first published program."
        }
    ],
    "interests": ["Music", "Flight"],
    "contact": {
        "email": "ada@example.com",
        "website": "https://example.com",
        "github": "ada"
    },
    "updated": "2024-01-01"
}"#;

#[test]
fn load_profile_reads_every_field() {
    let p = load_profile(GOOD_JSON);
    assert_eq!(p.name, "Ada Lovelace");
    assert_eq!(p.title, "Analyst");
    assert_eq!(p.location, "London");
    assert_eq!(p.bio, "I write notes on engines.");
    assert_eq!(p.skills, vec!["Mathematics", "Programming"]);
    assert_eq!(p.experience.len(), 1);
    assert_eq!(p.experience[0].company, "Analytical Engines Ltd");
    assert_eq!(p.experience[0].position, "Programmer");
    assert_eq!(p.experience[0].duration, "1842-1843");
    assert_eq!(p.experience[0].description, "Wrote the first published program.");
    assert_eq!(p.interests, vec!["Music", "Flight"]);
    assert_eq!(p.contact.email, "ada@example.com");
    assert_eq!(p.contact.website, "https://example.com");
    assert_eq!(p.contact.github, "ada");
    assert_eq!(p.updated, "2024-01-01");
}

#[test]
fn load_profile_fills_missing_fields_with_empty_values() {
    let p = load_profile(r#"{"name": "Only a Name"}"#);
    assert_eq!(p.name, "Only a Name");
    assert_eq!(p.title, "");
    assert_eq!(p.bio, "");
    assert!(p.skills.is_empty());
    assert!(p.experience.is_empty());
    assert_eq!(p.contact.email, "");
}

#[test]
fn full_generation_produces_exactly_six_documents() {
    let p = load_profile(GOOD_JSON);
    let pages = generate_site(&p, false);
    assert_eq!(pages.len(), 6);
    let paths: Vec<&str> = pages.iter().map(|g| g.path.as_str()).collect();
    assert_eq!(
        paths,
        vec![
            "index.html",
            "about/index.html",
            "contact/index.html",
            "blog/1/index.html",
            "blog/2/index.html",
            "blog/3/index.html",
        ]
    );
}

#[test]
fn generated_about_page_holds_name_and_bio_verbatim() {
    let p = load_profile(GOOD_JSON);
    let pages = generate_site(&p, false);
    let about = &pages[1];
    assert_eq!(about.path, "about/index.html");
    assert!(about.html.contains("Ada Lovelace"));
    assert!(about.html.contains("I write notes on engines."));
    assert!(about.html.contains("Mathematics"));
    assert!(about.html.contains("Analytical Engines Ltd"));
    assert!(about.html.contains("mailto:ada@example.com"));
    assert!(about.html.contains("Last updated: 2024-01-01"));
}

#[test]
fn about_page_escapes_markup_in_profile_fields() {
    let mut p = load_profile(GOOD_JSON);
    p.name = String::from("Ada <script>alert(1)</script>");
    let doc = render_about_page(&p);
    assert!(!doc.contains("<script>alert(1)</script>"));
    assert!(doc.contains("Ada &lt;script&gt;alert(1)&lt;/script&gt;"));
}

#[test]
fn skipping_the_contact_page_produces_five_documents() {
    let p = load_profile(GOOD_JSON);
    let pages = generate_site(&p, true);
    assert_eq!(pages.len(), 5);
    assert!(pages.iter().all(|g| g.path != "contact/index.html"));
    assert_eq!(pages[2].path, "blog/1/index.html");
}

#[test]
fn malformed_json_still_produces_an_about_page_with_the_placeholder() {
    let p = load_profile("{ this is not json");
    let pages = generate_site(&p, false);
    assert_eq!(pages.len(), 6);
    let about = &pages[1];
    assert!(about.html.contains("Error Loading Data"));
    assert!(about.html.contains("Failed to load about information."));
}

#[test]
fn non_object_json_produces_an_empty_profile_not_an_abort() {
    let p = load_profile("[1, 2, 3]");
    assert_eq!(p.name, "");
    assert!(p.skills.is_empty());
    let doc = render_about_page(&p);
    assert!(doc.contains("<title>About - Portfolio Site</title>"));
}
