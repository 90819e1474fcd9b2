//! The site generator driver: one run renders every route in a fixed
//! order and hands back the pages as write-once artifacts, each an output
//! path with its HTML document.

use vstd::prelude::*;
use crate::pages::{
    render_about_page,
    render_blog_page,
    render_home_page,
    render_static_contact_page,
    spec_about_page,
    spec_blog_page,
    spec_home_page,
    spec_static_contact_page,
};
use crate::profile::ProfileData;

verus! {

pub const PATH_HOME: &'static str = "index.html";

pub const PATH_ABOUT: &'static str = "about/index.html";

pub const PATH_CONTACT: &'static str = "contact/index.html";

pub const PATH_BLOG_1: &'static str = "blog/1/index.html";

pub const PATH_BLOG_2: &'static str = "blog/2/index.html";

pub const PATH_BLOG_3: &'static str = "blog/3/index.html";

/// One output document of a generation run: where it goes and what it holds.
pub struct GeneratedPage {
    pub path: String,
    pub html: String,
}

/// Renders the whole site in order: home, about, the static contact page
/// unless it is skipped, and the three blog posts. A full run produces
/// exactly six documents; a run that skips the contact page exactly five.
pub fn generate_site(profile: &ProfileData, skip_contact: bool) -> (pages: Vec<GeneratedPage>)
    ensures
        !skip_contact ==> {
            &&& pages@.len() == 6
            &&& pages@[0].path@ == PATH_HOME@ && pages@[0].html@ == spec_home_page()
            &&& pages@[1].path@ == PATH_ABOUT@ && pages@[1].html@ == spec_about_page(*profile)
            &&& pages@[2].path@ == PATH_CONTACT@ && pages@[2].html@ == spec_static_contact_page()
            &&& pages@[3].path@ == PATH_BLOG_1@ && pages@[3].html@ == spec_blog_page(1)
            &&& pages@[4].path@ == PATH_BLOG_2@ && pages@[4].html@ == spec_blog_page(2)
            &&& pages@[5].path@ == PATH_BLOG_3@ && pages@[5].html@ == spec_blog_page(3)
        },
        skip_contact ==> {
            &&& pages@.len() == 5
            &&& pages@[0].path@ == PATH_HOME@ && pages@[0].html@ == spec_home_page()
            &&& pages@[1].path@ == PATH_ABOUT@ && pages@[1].html@ == spec_about_page(*profile)
            &&& pages@[2].path@ == PATH_BLOG_1@ && pages@[2].html@ == spec_blog_page(1)
            &&& pages@[3].path@ == PATH_BLOG_2@ && pages@[3].html@ == spec_blog_page(2)
            &&& pages@[4].path@ == PATH_BLOG_3@ && pages@[4].html@ == spec_blog_page(3)
        },
{
    let mut pages: Vec<GeneratedPage> = Vec::new();
    pages.push(GeneratedPage { path: String::from_str(PATH_HOME), html: render_home_page() });
    pages.push(
        GeneratedPage { path: String::from_str(PATH_ABOUT), html: render_about_page(profile) },
    );
    if !skip_contact {
        pages.push(
            GeneratedPage {
                path: String::from_str(PATH_CONTACT),
                html: render_static_contact_page(),
            },
        );
    }
    pages.push(GeneratedPage { path: String::from_str(PATH_BLOG_1), html: render_blog_page(1) });
    pages.push(GeneratedPage { path: String::from_str(PATH_BLOG_2), html: render_blog_page(2) });
    pages.push(GeneratedPage { path: String::from_str(PATH_BLOG_3), html: render_blog_page(3) });
    pages
}

} // verus!
