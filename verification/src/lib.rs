//! A personal portfolio site: a static-site generator for a handful of
//! content pages (home, about, blog, contact), a client-side contact-form
//! state machine, and an asset linker that wires a compiled client bundle
//! into the generated contact page.

pub mod assets;
pub mod content;
pub mod escape;
pub mod form;
pub mod pages;
pub mod profile;
pub mod site;
pub mod strtools;
