//! Rendering of the site's pages: every page is a pure function from its
//! inputs to one HTML string, stated exactly as a concatenation of the
//! template pieces and the escaped interpolated fields.

use vstd::prelude::*;
use crate::escape::{escape_html, escape_html_text, is_plain_char, lemma_escape_plain_identity};
use crate::profile::{ExperienceEntry, ProfileData};
use crate::strtools::{
    contains_seq,
    lemma_contains_concat,
    lemma_contains_mid,
    lemma_contains_self,
    lemma_render_items_push,
    render_items,
};

verus! {

// --- the shared document shell ---
pub const DOC_A: &'static str = r#"<!DOCTYPE html>
<html>
<head>
    <title>"#;

pub const DOC_B: &'static str = r#"</title>
    <meta content="text/html;charset=utf-8" http-equiv="Content-Type">
    <meta name="viewport" content="width=device-width, initial-scale=1">
    <meta charset="UTF-8">
    <meta name="description" content=""#;

pub const DOC_C: &'static str = r#"">

    <!-- Styles -->
    <link rel="stylesheet" href="/assets/styling/main.css">
    <link rel="stylesheet" href="/assets/styling/navbar.css">
    <link rel="stylesheet" href="/assets/styling/about.css">
    <link rel="stylesheet" href="/assets/styling/contact.css">
    <link rel="stylesheet" href="/assets/styling/blog.css">
    <link rel="stylesheet" href="/assets/tailwind.css">

    <!-- Favicon -->
    <link rel="icon" href="/assets/favicon.ico">

    <!-- Additional meta tags for SEO -->
    <meta property="og:title" content=""#;

pub const DOC_D: &'static str = r#"">
    <meta property="og:description" content=""#;

pub const DOC_E: &'static str = r#"">
    <meta property="og:type" content="website">
    <meta name="twitter:card" content="summary">
    <meta name="twitter:title" content=""#;

pub const DOC_F: &'static str = r#"">
    <meta name="twitter:description" content=""#;

pub const DOC_G: &'static str = r#"">
    "#;

pub const DOC_H: &'static str = r#"
</head>
<body>
    <div id="main">"#;

pub const DOC_I: &'static str = r#"</div>

    <!-- Static site notice -->
    <noscript>
        <div style="position: fixed; bottom: 1rem; right: 1rem; padding: 0.5rem 1rem; background: #f0f9ff; border: 1px solid #0ea5e9; border-radius: 0.5rem; font-size: 0.875rem; max-width: 300px; z-index: 1000;">
            <p style="margin: 0; font-weight: bold; color: #0369a1;">Static HTML</p>
            <p style="margin: 0.25rem 0 0 0; color: #0369a1;">This page works without JavaScript!</p>
        </div>
    </noscript>

    <style>
    /* Basic styling for static pages */
    body {
        font-family: -apple-system, BlinkMacSystemFont, 'Segoe UI', Roboto, sans-serif;
        margin: 0;
        padding: 0;
        line-height: 1.6;
        color: #333;
    }

    .container {
        max-width: 1200px;
        margin: 0 auto;
        padding: 2rem;
    }

    #navbar {
        background: #f8fafc;
        padding: 1rem;
        border-bottom: 1px solid #e2e8f0;
        margin-bottom: 2rem;
    }

    #navbar a {
        margin-right: 1rem;
        text-decoration: none;
        color: #2563eb;
        font-weight: 500;
        padding: 0.5rem 1rem;
        border-radius: 0.375rem;
        transition: background-color 0.2s;
    }

    #navbar a:hover {
        background: #dbeafe;
    }

    .blog-nav {
        margin-top: 2rem;
        padding-top: 2rem;
        border-top: 1px solid #e2e8f0;
    }

    .blog-nav a {
        margin-right: 1rem;
        text-decoration: none;
        color: #2563eb;
    }

    .blog-nav a:hover {
        text-decoration: underline;
    }

    h1 {
        color: #1f2937;
        margin-bottom: 1rem;
    }

    h2 {
        color: #374151;
        margin-top: 2rem;
        margin-bottom: 1rem;
    }

    h3 {
        color: #4b5563;
        margin-top: 1.5rem;
        margin-bottom: 0.5rem;
    }

    ul {
        padding-left: 1.5rem;
    }

    li {
        margin-bottom: 0.25rem;
    }
    </style>
</body>
</html>"#;

pub const PRELOAD_A: &'static str = r#"<link rel="preload" as="script" href=""#;

pub const PRELOAD_B: &'static str = r#"" crossorigin>"#;

/// The view of an optional string argument.
pub open spec fn opt_str_view(o: Option<&str>) -> Option<Seq<char>> {
    match o {
        Some(s) => Some(s@),
        None => None,
    }
}

/// The preload link for the client script, where one is wired in.
pub open spec fn spec_js_preload(js: Option<Seq<char>>) -> Seq<char> {
    match js {
        Some(p) => PRELOAD_A@ + p + PRELOAD_B@,
        None => Seq::<char>::empty(),
    }
}

/// A whole document of the shared shell: head with the title and
/// description repeated in the meta tags, then the body content.
pub open spec fn spec_html_document(
    title: Seq<char>,
    description: Seq<char>,
    body_content: Seq<char>,
    js: Option<Seq<char>>,
) -> Seq<char> {
    DOC_A@ + title + DOC_B@ + description + DOC_C@ + title + DOC_D@ + description + DOC_E@ + title
        + DOC_F@ + description + DOC_G@ + spec_js_preload(js) + DOC_H@ + body_content + DOC_I@
}

/// Wraps the body content in the shared document shell.
pub fn create_html_document(
    title: &str,
    description: &str,
    body_content: &str,
    js_path: Option<&str>,
) -> (r: String)
    ensures
        r@ == spec_html_document(title@, description@, body_content@, opt_str_view(js_path)),
{
    let pre: String = match js_path {
        Some(js) => {
            let mut t = String::from_str(PRELOAD_A);
            t.append(js);
            t.append(PRELOAD_B);
            t
        },
        None => String::new(),
    };
    assert(pre@ == spec_js_preload(opt_str_view(js_path)));
    let mut r = String::from_str(DOC_A);
    r.append(title);
    r.append(DOC_B);
    r.append(description);
    r.append(DOC_C);
    r.append(title);
    r.append(DOC_D);
    r.append(description);
    r.append(DOC_E);
    r.append(title);
    r.append(DOC_F);
    r.append(description);
    r.append(DOC_G);
    r.append(pre.as_str());
    r.append(DOC_H);
    r.append(body_content);
    r.append(DOC_I);
    r
}

// --- the home page ---
pub const HOME_TITLE: &'static str = "Home - Portfolio Site";

pub const HOME_DESC: &'static str = "Welcome to my personal website";

pub const HOME_CONTENT: &'static str = r#"<div id="navbar">
        <a href="/">Home</a>
        <a href="/about">About</a>
        <a href="/contact">Contact</a>
        <a href="/blog/1">Blog</a>
    </div>
    <div class="container">
        <h1>Welcome to My Portfolio</h1>
        <p>This is the home page of my personal website.</p>
        <nav>
            <ul>
                <li><a href="/about">Learn about me</a></li>
                <li><a href="/blog/1">Read my blog</a></li>
            </ul>
        </nav>
    </div>"#;

/// The home page document.
pub open spec fn spec_home_page() -> Seq<char> {
    spec_html_document(HOME_TITLE@, HOME_DESC@, HOME_CONTENT@, None)
}

/// Renders the home page.
pub fn render_home_page() -> (r: String)
    ensures
        r@ == spec_home_page(),
{
    create_html_document(HOME_TITLE, HOME_DESC, HOME_CONTENT, None)
}

// --- the blog pages ---
pub const BLOG_A: &'static str = r#"<div id="navbar">
            <a href="/">Home</a>
            <a href="/about">About</a>
            <a href="/contact">Contact</a>
            <a href="/blog/1">Blog</a>
        </div>
        <div class="container">
            <h1>Blog Post "#;

pub const BLOG_B: &'static str = r#"</h1>
            <div class="blog-content">
                <p>This is blog post number "#;

pub const BLOG_C: &'static str = r#".</p>
                <p>In a real application, this content would be loaded from a database or markdown files.</p>

                <h2>Sample Content</h2>
                <p>Here's some sample content for blog post "#;

pub const BLOG_D: &'static str = r#". This demonstrates how static site generation works.</p>

                <h3>Benefits of SSG</h3>
                <ul>
                    <li>Fast loading times</li>
                    <li>Great SEO</li>
                    <li>Works without JavaScript</li>
                    <li>Easy to deploy</li>
                </ul>

                <nav class="blog-nav">
                    <a href="/">← Back to Home</a>
                    "#;

pub const BLOG_E: &'static str = r#"</nav>
            </div>
        </div>"#;

pub const LINK_OPEN: &'static str = r#"<a href="/blog/"#;

pub const PREV_CLOSE: &'static str = r#"">← Previous</a>"#;

pub const NEXT_CLOSE: &'static str = r#"">Next →</a>"#;

pub const BLOG_TITLE_A: &'static str = "Blog Post ";

pub const BLOG_TITLE_B: &'static str = " - Portfolio Site";

pub const BLOG_DESC_A: &'static str = "Blog post number ";

/// The smallest and largest blog post id.
pub const BLOG_MIN_ID: u8 = 1;

pub const BLOG_MAX_ID: u8 = 3;

/// The decimal text of a blog post id.
pub open spec fn spec_digit(id: int) -> Seq<char> {
    if id == 1 {
        "1"@
    } else if id == 2 {
        "2"@
    } else {
        "3"@
    }
}

/// The decimal text of a blog post id.
pub fn digit_str(id: u8) -> (r: &'static str)
    requires
        BLOG_MIN_ID <= id <= BLOG_MAX_ID,
    ensures
        r@ == spec_digit(id as int),
{
    if id == 1 {
        "1"
    } else if id == 2 {
        "2"
    } else {
        "3"
    }
}

/// The link to the previous post.
pub open spec fn spec_prev_link(id: int) -> Seq<char> {
    LINK_OPEN@ + spec_digit(id) + PREV_CLOSE@
}

/// The link to the next post.
pub open spec fn spec_next_link(id: int) -> Seq<char> {
    LINK_OPEN@ + spec_digit(id) + NEXT_CLOSE@
}

/// The neighbour links of a post: to the previous one where the post has
/// one, and to the next one where the post has one.
pub open spec fn spec_prev_next(id: int) -> Seq<char> {
    if BLOG_MIN_ID < id && id < BLOG_MAX_ID {
        spec_prev_link(id - 1) + " "@ + spec_next_link(id + 1)
    } else if id > BLOG_MIN_ID {
        spec_prev_link(id - 1)
    } else if id < BLOG_MAX_ID {
        spec_next_link(id + 1)
    } else {
        Seq::<char>::empty()
    }
}

/// The body content of one blog post.
pub open spec fn spec_blog_content(id: int) -> Seq<char> {
    BLOG_A@ + spec_digit(id) + BLOG_B@ + spec_digit(id) + BLOG_C@ + spec_digit(id) + BLOG_D@
        + spec_prev_next(id) + BLOG_E@
}

/// The whole document of one blog post.
pub open spec fn spec_blog_page(id: int) -> Seq<char> {
    spec_html_document(
        BLOG_TITLE_A@ + spec_digit(id) + BLOG_TITLE_B@,
        BLOG_DESC_A@ + spec_digit(id),
        spec_blog_content(id),
        None,
    )
}

/// Renders the blog post with the given id.
pub fn render_blog_page(id: u8) -> (r: String)
    requires
        BLOG_MIN_ID <= id <= BLOG_MAX_ID,
    ensures
        r@ == spec_blog_page(id as int),
{
    let d = digit_str(id);
    let pn: String = if id > BLOG_MIN_ID && id < BLOG_MAX_ID {
        let mut t = String::from_str(LINK_OPEN);
        t.append(digit_str(id - 1));
        t.append(PREV_CLOSE);
        t.append(" ");
        t.append(LINK_OPEN);
        t.append(digit_str(id + 1));
        t.append(NEXT_CLOSE);
        assert(t@ =~= spec_prev_next(id as int));
        t
    } else if id > BLOG_MIN_ID {
        let mut t = String::from_str(LINK_OPEN);
        t.append(digit_str(id - 1));
        t.append(PREV_CLOSE);
        t
    } else {
        let mut t = String::from_str(LINK_OPEN);
        t.append(digit_str(id + 1));
        t.append(NEXT_CLOSE);
        t
    };
    assert(pn@ == spec_prev_next(id as int));
    let mut content = String::from_str(BLOG_A);
    content.append(d);
    content.append(BLOG_B);
    content.append(d);
    content.append(BLOG_C);
    content.append(d);
    content.append(BLOG_D);
    content.append(pn.as_str());
    content.append(BLOG_E);
    let mut title = String::from_str(BLOG_TITLE_A);
    title.append(d);
    title.append(BLOG_TITLE_B);
    let mut desc = String::from_str(BLOG_DESC_A);
    desc.append(d);
    create_html_document(title.as_str(), desc.as_str(), content.as_str(), None)
}

// --- the about page ---
pub const ABOUT_TITLE: &'static str = "About - Portfolio Site";

pub const ABOUT_DESC: &'static str = "Learn more about me and my work";

pub const ABOUT_A: &'static str = r#"<div id="navbar">
        <a href="/">Home</a>
        <a href="/about">About</a>
        <a href="/contact">Contact</a>
        <a href="/blog/1">Blog</a>
    </div>
    <div class="about-container">
        <header class="about-header">
            <h1 class="about-name">"#;

pub const ABOUT_B: &'static str = r#"</h1>
            <h2 class="about-title">"#;

pub const ABOUT_C: &'static str = r#"</h2>
            <p class="about-location">"#;

pub const ABOUT_D: &'static str = r#"</p>
        </header>

        <section class="about-bio-section">
            <h3 class="about-section-title">About Me</h3>
            <p class="about-bio-text">"#;

pub const ABOUT_E: &'static str = r#"</p>
        </section>

        <section class="about-section">
            <h3 class="about-section-title">Skills</h3>
            <div class="skills-grid">
                "#;

pub const ABOUT_F: &'static str = r#"
            </div>
        </section>

        <section class="about-section">
            <h3 class="about-section-title">Experience</h3>
            "#;

pub const ABOUT_G: &'static str = r#"
        </section>

        <section class="about-section">
            <h3 class="about-section-title">Interests</h3>
            <div class="interests-grid">
                "#;

pub const ABOUT_H: &'static str = r#"
            </div>
        </section>

        <section class="contact-section">
            <h3 class="about-section-title">Contact</h3>
            <div class="contact-grid">
                <div class="contact-item">
                    <span class="contact-icon">Email</span>
                    <a href="mailto:"#;

pub const ABOUT_I: &'static str = r#"" class="contact-link">"#;

pub const ABOUT_J: &'static str = r#"</a>
                </div>
                <div class="contact-item">
                    <span class="contact-icon">Web</span>
                    <a href=""#;

pub const ABOUT_K: &'static str = r#"" target="_blank" class="contact-link">Website</a>
                </div>
                <div class="contact-item">
                    <span class="contact-icon">Code</span>
                    <a href="https://github.com/"#;

pub const ABOUT_L: &'static str = r#"" target="_blank" class="contact-link">GitHub</a>
                </div>
            </div>
        </section>

        <footer class="about-footer">
            <p class="footer-updated">Last updated: "#;

pub const ABOUT_M: &'static str = r#"</p>
            <p class="footer-note">Generated statically</p>
        </footer>
    </div>"#;

pub const SKILL_A: &'static str = r#"<span class="skill-tag">"#;

pub const SKILL_B: &'static str = r#"</span>"#;

pub const EXP_A: &'static str = r#"<div class="experience-card">
                    <div class="experience-header">
                        <div>
                            <h4 class="experience-position">"#;

pub const EXP_B: &'static str = r#"</h4>
                            <p class="experience-company">"#;

pub const EXP_C: &'static str = r#"</p>
                        </div>
                        <span class="experience-duration">"#;

pub const EXP_D: &'static str = r#"</span>
                    </div>
                    <p class="experience-description">"#;

pub const EXP_E: &'static str = r#"</p>
                </div>"#;

pub const INT_A: &'static str = r#"<div class="interest-item">
                    <span class="interest-bullet">-</span>
                    "#;

pub const INT_B: &'static str = r#"</div>"#;

/// One skill tag.
pub open spec fn spec_skill_tag(s: Seq<char>) -> Seq<char> {
    SKILL_A@ + escape_html(s) + SKILL_B@
}

/// All skill tags in order.
pub open spec fn spec_skills_html(skills: Seq<String>) -> Seq<char> {
    render_items(skills, |s: String| spec_skill_tag(s@))
}

/// One experience card.
pub open spec fn spec_experience_card(e: ExperienceEntry) -> Seq<char> {
    EXP_A@ + escape_html(e.position@) + EXP_B@ + escape_html(e.company@) + EXP_C@ + escape_html(
        e.duration@,
    ) + EXP_D@ + escape_html(e.description@) + EXP_E@
}

/// All experience cards in order.
pub open spec fn spec_experience_html(experience: Seq<ExperienceEntry>) -> Seq<char> {
    render_items(experience, |e: ExperienceEntry| spec_experience_card(e))
}

/// One interest item.
pub open spec fn spec_interest_item(s: Seq<char>) -> Seq<char> {
    INT_A@ + escape_html(s) + INT_B@
}

/// All interest items in order.
pub open spec fn spec_interests_html(interests: Seq<String>) -> Seq<char> {
    render_items(interests, |s: String| spec_interest_item(s@))
}

/// The body content of the about page, with every profile field escaped.
pub open spec fn spec_about_content(p: ProfileData) -> Seq<char> {
    ABOUT_A@ + escape_html(p.name@) + ABOUT_B@ + escape_html(p.title@) + ABOUT_C@ + escape_html(
        p.location@,
    ) + ABOUT_D@ + escape_html(p.bio@) + ABOUT_E@ + spec_skills_html(p.skills@) + ABOUT_F@
        + spec_experience_html(p.experience@) + ABOUT_G@ + spec_interests_html(p.interests@)
        + ABOUT_H@ + escape_html(p.contact.email@) + ABOUT_I@ + escape_html(p.contact.email@)
        + ABOUT_J@ + escape_html(p.contact.website@) + ABOUT_K@ + escape_html(p.contact.github@)
        + ABOUT_L@ + escape_html(p.updated@) + ABOUT_M@
}

/// The whole about page document.
pub open spec fn spec_about_page(p: ProfileData) -> Seq<char> {
    spec_html_document(ABOUT_TITLE@, ABOUT_DESC@, spec_about_content(p), None)
}

/// Renders the skill tags.
fn render_skills(skills: &Vec<String>) -> (r: String)
    ensures
        r@ == spec_skills_html(skills@),
{
    let ghost f = |s: String| spec_skill_tag(s@);
    let mut r = String::new();
    let mut i: usize = 0;
    assert(skills@.subrange(0, 0) =~= Seq::<String>::empty());
    while i < skills.len()
        invariant
            i <= skills@.len(),
            f == (|s: String| spec_skill_tag(s@)),
            r@ == render_items(skills@.subrange(0, i as int), f),
        decreases skills@.len() - i,
    {
        let e = escape_html_text(skills[i].as_str());
        r.append(SKILL_A);
        r.append(e.as_str());
        r.append(SKILL_B);
        proof {
            lemma_render_items_push(skills@.subrange(0, i as int), skills@[i as int], f);
            assert(skills@.subrange(0, i + 1) =~= skills@.subrange(0, i as int).push(
                skills@[i as int],
            ));
            assert(r@ =~= render_items(skills@.subrange(0, i + 1), f));
        }
        i += 1;
    }
    assert(skills@.subrange(0, skills@.len() as int) =~= skills@);
    r
}

/// Renders the experience cards.
fn render_experience(experience: &Vec<ExperienceEntry>) -> (r: String)
    ensures
        r@ == spec_experience_html(experience@),
{
    let ghost f = |e: ExperienceEntry| spec_experience_card(e);
    let mut r = String::new();
    let mut i: usize = 0;
    assert(experience@.subrange(0, 0) =~= Seq::<ExperienceEntry>::empty());
    while i < experience.len()
        invariant
            i <= experience@.len(),
            f == (|e: ExperienceEntry| spec_experience_card(e)),
            r@ == render_items(experience@.subrange(0, i as int), f),
        decreases experience@.len() - i,
    {
        let position = escape_html_text(experience[i].position.as_str());
        let company = escape_html_text(experience[i].company.as_str());
        let duration = escape_html_text(experience[i].duration.as_str());
        let description = escape_html_text(experience[i].description.as_str());
        r.append(EXP_A);
        r.append(position.as_str());
        r.append(EXP_B);
        r.append(company.as_str());
        r.append(EXP_C);
        r.append(duration.as_str());
        r.append(EXP_D);
        r.append(description.as_str());
        r.append(EXP_E);
        proof {
            lemma_render_items_push(experience@.subrange(0, i as int), experience@[i as int], f);
            assert(experience@.subrange(0, i + 1) =~= experience@.subrange(0, i as int).push(
                experience@[i as int],
            ));
            assert(r@ =~= render_items(experience@.subrange(0, i + 1), f));
        }
        i += 1;
    }
    assert(experience@.subrange(0, experience@.len() as int) =~= experience@);
    r
}

/// Renders the interest items.
fn render_interests(interests: &Vec<String>) -> (r: String)
    ensures
        r@ == spec_interests_html(interests@),
{
    let ghost f = |s: String| spec_interest_item(s@);
    let mut r = String::new();
    let mut i: usize = 0;
    assert(interests@.subrange(0, 0) =~= Seq::<String>::empty());
    while i < interests.len()
        invariant
            i <= interests@.len(),
            f == (|s: String| spec_interest_item(s@)),
            r@ == render_items(interests@.subrange(0, i as int), f),
        decreases interests@.len() - i,
    {
        let e = escape_html_text(interests[i].as_str());
        r.append(INT_A);
        r.append(e.as_str());
        r.append(INT_B);
        proof {
            lemma_render_items_push(interests@.subrange(0, i as int), interests@[i as int], f);
            assert(interests@.subrange(0, i + 1) =~= interests@.subrange(0, i as int).push(
                interests@[i as int],
            ));
            assert(r@ =~= render_items(interests@.subrange(0, i + 1), f));
        }
        i += 1;
    }
    assert(interests@.subrange(0, interests@.len() as int) =~= interests@);
    r
}

/// Renders the about page from the profile.
pub fn render_about_page(p: &ProfileData) -> (r: String)
    ensures
        r@ == spec_about_page(*p),
{
    let name = escape_html_text(p.name.as_str());
    let title = escape_html_text(p.title.as_str());
    let location = escape_html_text(p.location.as_str());
    let bio = escape_html_text(p.bio.as_str());
    let skills = render_skills(&p.skills);
    let experience = render_experience(&p.experience);
    let interests = render_interests(&p.interests);
    let email = escape_html_text(p.contact.email.as_str());
    let website = escape_html_text(p.contact.website.as_str());
    let github = escape_html_text(p.contact.github.as_str());
    let updated = escape_html_text(p.updated.as_str());
    let mut content = String::from_str(ABOUT_A);
    content.append(name.as_str());
    content.append(ABOUT_B);
    content.append(title.as_str());
    content.append(ABOUT_C);
    content.append(location.as_str());
    content.append(ABOUT_D);
    content.append(bio.as_str());
    content.append(ABOUT_E);
    content.append(skills.as_str());
    content.append(ABOUT_F);
    content.append(experience.as_str());
    content.append(ABOUT_G);
    content.append(interests.as_str());
    content.append(ABOUT_H);
    content.append(email.as_str());
    content.append(ABOUT_I);
    content.append(email.as_str());
    content.append(ABOUT_J);
    content.append(website.as_str());
    content.append(ABOUT_K);
    content.append(github.as_str());
    content.append(ABOUT_L);
    content.append(updated.as_str());
    content.append(ABOUT_M);
    create_html_document(ABOUT_TITLE, ABOUT_DESC, content.as_str(), None)
}


// --- the contact pages ---
pub const CONTACT_TITLE: &'static str = "Contact - Portfolio Site";

pub const CONTACT_DESC: &'static str = "Get in touch with me through this contact form";

pub const HYBRID_DESC: &'static str = "Get in touch with me through this interactive contact form";

pub const STATIC_CONTACT_CONTENT: &'static str = r#"<div id="navbar">
        <a href="/">Home</a>
        <a href="/about">About</a>
        <a href="/contact">Contact</a>
        <a href="/blog/1">Blog</a>
    </div>
    <div class="contact-container">
        <header class="contact-header">
            <h1 class="contact-title">Contact Me</h1>
            <p class="contact-subtitle">Get in touch! The interactive version of this page runs a client-side module.</p>
        </header>

        <div class="contact-content">
            <div class="contact-info">
                <h2>Contact Information</h2>
                <div class="contact-methods">
                    <div class="contact-method">
                        <span class="contact-icon">Email</span>
                        <div>
                            <h3>Email</h3>
                            <a href="mailto:contact@example.com" class="contact-link">contact@example.com</a>
                        </div>
                    </div>
                    <div class="contact-method">
                        <span class="contact-icon">Work</span>
                        <div>
                            <h3>LinkedIn</h3>
                            <p>Connect with me professionally</p>
                        </div>
                    </div>
                    <div class="contact-method">
                        <span class="contact-icon">Code</span>
                        <div>
                            <h3>GitHub</h3>
                            <a href="https://github.com/example" target="_blank" class="contact-link">@example</a>
                        </div>
                    </div>
                </div>
            </div>

            <div class="contact-form-section">
                <h2>Send a Message</h2>

                <div class="static-form-notice">
                    <h3>Static Version</h3>
                    <p>You're viewing the static HTML version. The form below is for display purposes.</p>
                    <p>When scripting is enabled, this becomes a fully interactive form with real-time
                    validation, dynamic state management and client-side form processing.</p>
                </div>

                <form class="contact-form">
                    <div class="form-row">
                        <div class="form-group">
                            <label for="name">Name *</label>
                            <input type="text" id="name" class="form-input" placeholder="Your full name" />
                        </div>
                        <div class="form-group">
                            <label for="email">Email *</label>
                            <input type="email" id="email" class="form-input" placeholder="your.email@example.com" />
                        </div>
                    </div>

                    <div class="form-group">
                        <label for="subject">Subject *</label>
                        <input type="text" id="subject" class="form-input" placeholder="What's this about?" />
                    </div>

                    <div class="form-group">
                        <label for="message">Message *</label>
                        <textarea id="message" class="form-textarea" placeholder="Tell me what's on your mind..." rows="6"></textarea>
                    </div>

                    <div class="form-actions">
                        <button type="button" class="btn btn-primary disabled">Send Message (Demo)</button>
                        <button type="button" class="btn btn-secondary">Reset Form</button>
                    </div>

                    <div class="form-note">
                        <p>* This is a static demo form. Enable scripting to see the interactive version.</p>
                    </div>
                </form>
            </div>
        </div>
    </div>"#;

/// The static contact page document.
pub open spec fn spec_static_contact_page() -> Seq<char> {
    spec_html_document(CONTACT_TITLE@, CONTACT_DESC@, STATIC_CONTACT_CONTENT@, None)
}

/// Renders the static contact page.
pub fn render_static_contact_page() -> (r: String)
    ensures
        r@ == spec_static_contact_page(),
{
    create_html_document(CONTACT_TITLE, CONTACT_DESC, STATIC_CONTACT_CONTENT, None)
}

// --- the document shell variant with inline CSS ---
pub const CSSDOC_A: &'static str = r#"<!DOCTYPE html>
<html lang="en">
<head>
    <meta charset="UTF-8">
    <meta name="viewport" content="width=device-width, initial-scale=1.0">
    <title>"#;

pub const CSSDOC_B: &'static str = r#"</title>
    <meta name="description" content=""#;

pub const CSSDOC_C: &'static str = r#"">
    <style>
        "#;

pub const CSSDOC_D: &'static str = r#"
        "#;

pub const CSSDOC_E: &'static str = r#"
    </style>
    "#;

pub const CSSDOC_F: &'static str = r#"
</head>
<body>
    "#;

pub const CSSDOC_G: &'static str = r#"
</body>
</html>"#;

pub const JS_IMPORT_A: &'static str = r#"<script type="module" src=""#;

pub const JS_IMPORT_B: &'static str = r#""></script>"#;

pub const BASE_CSS: &'static str = r#"
body {
    background-color: #0f1116;
    color: #ffffff;
    font-family: 'Segoe UI', Tahoma, Geneva, Verdana, sans-serif;
    margin: 20px;
}

.contact-container {
    max-width: 1200px;
    margin: 0 auto;
    padding: 2rem;
}

.contact-header {
    text-align: center;
    margin-bottom: 3rem;
}

.contact-title {
    font-size: 3rem;
    font-weight: bold;
    margin-bottom: 1rem;
}

.contact-subtitle {
    font-size: 1.25rem;
    color: #9ca3af;
    max-width: 600px;
    margin: 0 auto;
}

.contact-content {
    display: grid;
    grid-template-columns: 1fr 1fr;
    gap: 3rem;
    margin-bottom: 3rem;
}

@media (max-width: 768px) {
    .contact-content {
        grid-template-columns: 1fr;
        gap: 2rem;
    }
}

.contact-info h2 {
    font-size: 1.5rem;
    font-weight: 600;
    margin-bottom: 1.5rem;
    color: #f9fafb;
}

.contact-methods {
    display: flex;
    flex-direction: column;
    gap: 1.5rem;
}

.contact-method {
    display: flex;
    align-items: flex-start;
    gap: 1rem;
    padding: 1.5rem;
    background: #1f2937;
    border-radius: 0.75rem;
    border: 1px solid #374151;
}

.contact-link {
    color: #60a5fa !important;
    text-decoration: none;
}

.contact-link:hover {
    color: #93c5fd !important;
    text-decoration: underline;
}

.contact-form-section h2 {
    font-size: 1.5rem;
    font-weight: 600;
    margin-bottom: 1.5rem;
    color: #f9fafb;
}
"#;

/// The script import tag, where a client module is wired in.
pub open spec fn spec_js_import(js: Option<Seq<char>>) -> Seq<char> {
    match js {
        Some(p) => JS_IMPORT_A@ + p + JS_IMPORT_B@,
        None => Seq::<char>::empty(),
    }
}

/// The extra stylesheet text, empty where none is given.
pub open spec fn spec_extra_css(extra: Option<Seq<char>>) -> Seq<char> {
    match extra {
        Some(c) => c,
        None => Seq::<char>::empty(),
    }
}

/// A whole document of the variant shell that inlines the base styles
/// and an optional extra stylesheet.
pub open spec fn spec_html_document_with_css(
    title: Seq<char>,
    description: Seq<char>,
    content: Seq<char>,
    js: Option<Seq<char>>,
    extra_css: Option<Seq<char>>,
) -> Seq<char> {
    CSSDOC_A@ + title + CSSDOC_B@ + description + CSSDOC_C@ + BASE_CSS@ + CSSDOC_D@ + spec_extra_css(
        extra_css,
    ) + CSSDOC_E@ + spec_js_import(js) + CSSDOC_F@ + content + CSSDOC_G@
}

/// Wraps the content in the variant shell with inline CSS.
pub fn create_html_document_with_css(
    title: &str,
    description: &str,
    content: &str,
    js_path: Option<&str>,
    additional_css: Option<&str>,
) -> (r: String)
    ensures
        r@ == spec_html_document_with_css(
            title@,
            description@,
            content@,
            opt_str_view(js_path),
            opt_str_view(additional_css),
        ),
{
    let js_import: String = match js_path {
        Some(p) => {
            let mut t = String::from_str(JS_IMPORT_A);
            t.append(p);
            t.append(JS_IMPORT_B);
            t
        },
        None => String::new(),
    };
    assert(js_import@ == spec_js_import(opt_str_view(js_path)));
    let extra: &str = match additional_css {
        Some(c) => c,
        None => "",
    };
    proof {
        reveal_strlit("");
        assert(extra@ == spec_extra_css(opt_str_view(additional_css)));
    }
    let mut r = String::from_str(CSSDOC_A);
    r.append(title);
    r.append(CSSDOC_B);
    r.append(description);
    r.append(CSSDOC_C);
    r.append(BASE_CSS);
    r.append(CSSDOC_D);
    r.append(extra);
    r.append(CSSDOC_E);
    r.append(js_import.as_str());
    r.append(CSSDOC_F);
    r.append(content);
    r.append(CSSDOC_G);
    r
}

// --- the hybrid contact page, with the client bundle wired in ---
pub const HYBRID_A: &'static str = r#"<div id="navbar">
        <a href="/">Home</a>
        <a href="/about">About</a>
        <a href="/contact">Contact</a>
        <a href="/blog/1">Blog</a>
    </div>
    <div class="contact-container">
        <header class="contact-header">
            <h1 class="contact-title">Contact Me</h1>
            <p class="contact-subtitle">Get in touch! This form is powered by a client-side module.</p>
        </header>

        <div class="contact-content">
            <div class="contact-info">
                <h2>Contact Information</h2>
                <div class="contact-methods">
                    <div class="contact-method">
                        <span class="contact-icon">Email</span>
                        <div>
                            <h3>Email</h3>
                            <a href="mailto:contact@example.com" class="contact-link">contact@example.com</a>
                        </div>
                    </div>
                    <div class="contact-method">
                        <span class="contact-icon">Code</span>
                        <div>
                            <h3>GitHub</h3>
                            <a href="https://github.com/example" target="_blank" class="contact-link">@example</a>
                        </div>
                    </div>
                </div>
            </div>

            <div class="contact-form-section">
                <h2>Send a Message</h2>

                <div class="client-loading-notice" style="padding: 1rem; margin-bottom: 1rem; background: #f0f9ff; border: 1px solid #0ea5e9; border-radius: 0.5rem; color: #0369a1;">
                    <p style="margin: 0;"><strong>Interactive Form:</strong> Loading the contact component...</p>
                </div>

                <!-- This placeholder is replaced by the interactive contact form -->
                <div id="contact-form-placeholder" style="min-height: 400px; display: flex; align-items: center; justify-content: center; background: #f9fafb; border-radius: 0.5rem; border: 2px dashed #d1d5db;">
                    <div style="text-align: center; color: #6b7280;">
                        <p style="margin: 0;">Initializing the interactive form...</p>
                    </div>
                </div>
            </div>
        </div>
    </div>

<script type="module">
    import { mount_contact_component, wasm_main } from '"#;

pub const HYBRID_B: &'static str = r#"';

    function loadContactForm() {
        try {
            wasm_main();
            mount_contact_component();
            const loadingNotice = document.querySelector('.client-loading-notice');
            if (loadingNotice) {
                loadingNotice.style.display = 'none';
            }
        } catch (error) {
            const placeholder = document.getElementById('contact-form-placeholder');
            if (placeholder) {
                placeholder.textContent = 'The interactive contact form failed to load. Please contact me directly at contact@example.com';
            }
        }
    }

    if (document.readyState === 'loading') {
        document.addEventListener('DOMContentLoaded', loadContactForm);
    } else {
        loadContactForm();
    }
</script>

<noscript>
    <div style="position: fixed; bottom: 1rem; right: 1rem; padding: 1rem; background: #fee; border: 1px solid #fcc; border-radius: 0.5rem; font-size: 0.875rem; max-width: 300px; z-index: 1000;">
        <p style="margin: 0; font-weight: bold; color: #c33;">JavaScript Required</p>
        <p style="margin: 0.5rem 0 0 0; color: #c33;">This page requires scripting for the interactive form.</p>
    </div>
</noscript>"#;

pub const HYBRID_CSS: &'static str = r#"
    .contact-form-container {
        animation: fadeIn 0.5s ease-in-out;
    }

    @keyframes fadeIn {
        from { opacity: 0; transform: translateY(20px); }
        to { opacity: 1; transform: translateY(0); }
    }
    "#;

/// The hybrid contact page: the static shell with the resolved client
/// script imported inline.
pub open spec fn spec_hybrid_contact_page(js_path: Seq<char>) -> Seq<char> {
    spec_html_document_with_css(
        CONTACT_TITLE@,
        HYBRID_DESC@,
        HYBRID_A@ + js_path + HYBRID_B@,
        None,
        Some(HYBRID_CSS@),
    )
}

/// Renders the hybrid contact page around the resolved script path.
pub fn render_hybrid_contact_page(js_path: &str) -> (r: String)
    ensures
        r@ == spec_hybrid_contact_page(js_path@),
{
    let mut content = String::from_str(HYBRID_A);
    content.append(js_path);
    content.append(HYBRID_B);
    create_html_document_with_css(
        CONTACT_TITLE,
        HYBRID_DESC,
        content.as_str(),
        None,
        Some(HYBRID_CSS),
    )
}

/// What the body content holds, the whole document holds.
pub proof fn lemma_document_contains(
    title: Seq<char>,
    description: Seq<char>,
    body_content: Seq<char>,
    js: Option<Seq<char>>,
    n: Seq<char>,
)
    requires
        contains_seq(body_content, n),
    ensures
        contains_seq(spec_html_document(title, description, body_content, js), n),
{
    let head = DOC_A@ + title + DOC_B@ + description + DOC_C@ + title + DOC_D@ + description
        + DOC_E@ + title + DOC_F@ + description + DOC_G@ + spec_js_preload(js) + DOC_H@;
    lemma_contains_concat(head, body_content, n);
    lemma_contains_concat(head + body_content, DOC_I@, n);
}

/// The about page shows the profile: the escaped name and the escaped bio
/// each stand in the rendered content, in their places.
#[verifier::rlimit(60)]
pub proof fn lemma_about_page_shows_profile(p: ProfileData)
    ensures
        contains_seq(spec_about_page(p), escape_html(p.name@)),
        contains_seq(spec_about_page(p), escape_html(p.bio@)),
{
    let ne = escape_html(p.name@);
    let be = escape_html(p.bio@);
    let c = spec_about_content(p);
    let after_name = ABOUT_B@ + escape_html(p.title@) + ABOUT_C@ + escape_html(p.location@)
        + ABOUT_D@ + be + ABOUT_E@ + spec_skills_html(p.skills@) + ABOUT_F@ + spec_experience_html(
        p.experience@,
    ) + ABOUT_G@ + spec_interests_html(p.interests@) + ABOUT_H@ + escape_html(p.contact.email@)
        + ABOUT_I@ + escape_html(p.contact.email@) + ABOUT_J@ + escape_html(p.contact.website@)
        + ABOUT_K@ + escape_html(p.contact.github@) + ABOUT_L@ + escape_html(p.updated@)
        + ABOUT_M@;
    assert(c =~= ABOUT_A@ + ne + after_name);
    lemma_contains_mid(ABOUT_A@ + ne + after_name, ABOUT_A@, ne, after_name);
    let before_bio = ABOUT_A@ + ne + ABOUT_B@ + escape_html(p.title@) + ABOUT_C@ + escape_html(
        p.location@,
    ) + ABOUT_D@;
    let after_bio = ABOUT_E@ + spec_skills_html(p.skills@) + ABOUT_F@ + spec_experience_html(
        p.experience@,
    ) + ABOUT_G@ + spec_interests_html(p.interests@) + ABOUT_H@ + escape_html(p.contact.email@)
        + ABOUT_I@ + escape_html(p.contact.email@) + ABOUT_J@ + escape_html(p.contact.website@)
        + ABOUT_K@ + escape_html(p.contact.github@) + ABOUT_L@ + escape_html(p.updated@)
        + ABOUT_M@;
    assert(c =~= before_bio + be + after_bio);
    lemma_contains_mid(before_bio + be + after_bio, before_bio, be, after_bio);
    lemma_document_contains(ABOUT_TITLE@, ABOUT_DESC@, c, None, ne);
    lemma_document_contains(ABOUT_TITLE@, ABOUT_DESC@, c, None, be);
}

/// Each blog post links its neighbours: every post after the first holds
/// the link to the previous post, and every post before the last the link
/// to the next post.
pub proof fn lemma_blog_page_neighbour_links(id: int)
    requires
        BLOG_MIN_ID <= id <= BLOG_MAX_ID,
    ensures
        id > BLOG_MIN_ID ==> contains_seq(spec_blog_page(id), spec_prev_link(id - 1)),
        id < BLOG_MAX_ID ==> contains_seq(spec_blog_page(id), spec_next_link(id + 1)),
{
    let pn = spec_prev_next(id);
    let prev = spec_prev_link(id - 1);
    let next = spec_next_link(id + 1);
    if BLOG_MIN_ID < id && id < BLOG_MAX_ID {
        lemma_contains_self(prev);
        lemma_contains_concat(prev, " "@, prev);
        lemma_contains_concat(prev + " "@, next, prev);
        lemma_contains_self(next);
        lemma_contains_concat(prev + " "@, next, next);
    } else if id > BLOG_MIN_ID {
        lemma_contains_self(prev);
    } else {
        lemma_contains_self(next);
    }
    let d = spec_digit(id);
    let before = BLOG_A@ + d + BLOG_B@ + d + BLOG_C@ + d + BLOG_D@;
    if id > BLOG_MIN_ID {
        lemma_contains_concat(before, pn, prev);
        lemma_contains_concat(before + pn, BLOG_E@, prev);
        lemma_document_contains(
            BLOG_TITLE_A@ + d + BLOG_TITLE_B@,
            BLOG_DESC_A@ + d,
            spec_blog_content(id),
            None,
            prev,
        );
    }
    if id < BLOG_MAX_ID {
        lemma_contains_concat(before, pn, next);
        lemma_contains_concat(before + pn, BLOG_E@, next);
        lemma_document_contains(
            BLOG_TITLE_A@ + d + BLOG_TITLE_B@,
            BLOG_DESC_A@ + d,
            spec_blog_content(id),
            None,
            next,
        );
    }
}

/// Where the profile's name and bio hold no HTML-significant characters,
/// escaping leaves them unchanged, so the about page holds them verbatim.
pub proof fn lemma_about_page_shows_plain_profile_verbatim(p: ProfileData)
    requires
        forall|i: int| 0 <= i < p.name@.len() ==> is_plain_char(#[trigger] p.name@[i]),
        forall|i: int| 0 <= i < p.bio@.len() ==> is_plain_char(#[trigger] p.bio@[i]),
    ensures
        contains_seq(spec_about_page(p), p.name@),
        contains_seq(spec_about_page(p), p.bio@),
{
    lemma_escape_plain_identity(p.name@);
    lemma_escape_plain_identity(p.bio@);
    lemma_about_page_shows_profile(p);
}

/// The about page of the placeholder profile shows the error headline and
/// the fallback bio: a content document that does not parse still yields a
/// readable about page.
pub proof fn lemma_placeholder_about_page_shows_error(p: ProfileData)
    requires
        crate::profile::spec_placeholder(p),
    ensures
        contains_seq(spec_about_page(p), "Error Loading Data"@),
        contains_seq(spec_about_page(p), "Failed to load about information."@),
{
    reveal_strlit("Error Loading Data");
    reveal_strlit("Failed to load about information.");
    assert(forall|i: int| 0 <= i < p.name@.len() ==> is_plain_char(#[trigger] p.name@[i]));
    assert(forall|i: int| 0 <= i < p.bio@.len() ==> is_plain_char(#[trigger] p.bio@[i]));
    lemma_about_page_shows_plain_profile_verbatim(p);
}

} // verus!
