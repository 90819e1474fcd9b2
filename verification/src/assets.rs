//! The asset linker: scans a build-output directory listing for the one
//! generated client script (recognised by name and by an export marker in
//! its contents) and its companion binary, and resolves both to the URL
//! paths wired into the hybrid contact page.

use vstd::prelude::*;
use crate::strtools::{
    contains_seq,
    contains_substr,
    ends_with,
    ends_with_seq,
    first_match,
    lemma_first_match_none,
    lemma_first_match_push,
    lemma_first_match_unique,
    starts_with,
    starts_with_seq,
};

verus! {

/// The naming convention of the client bundle's build output.
pub const SCRIPT_PREFIX: &'static str = "portfolio_site-";

pub const SCRIPT_SUFFIX: &'static str = ".js";

pub const BINARY_PREFIX: &'static str = "portfolio_site_bg-";

pub const BINARY_SUFFIX: &'static str = ".wasm";

/// The export that the generated script must contain to be the right one.
pub const EXPORT_MARKER: &'static str = "mount_contact_component";

/// Where the build output is served from.
pub const ASSETS_URL_PREFIX: &'static str = "/assets/";

pub const MSG_SCRIPT_NOT_FOUND: &'static str =
    "script file with mount_contact_component export not found";

pub const MSG_BINARY_NOT_FOUND: &'static str = "client binary file not found";

/// One file of the build-output directory: its name, and whether its
/// contents hold the export marker.
pub struct AssetEntry {
    pub name: String,
    pub has_marker: bool,
}

/// Which of the two required files was missing.
#[derive(Debug)]
pub enum LinkError {
    ScriptNotFound,
    BinaryNotFound,
}

/// The two resolved URL paths, ready to inject into the contact page.
pub struct LinkedAssets {
    pub script_path: String,
    pub binary_path: String,
}

/// A file name that follows the script naming convention.
pub open spec fn spec_is_script_name(name: Seq<char>) -> bool {
    starts_with_seq(name, SCRIPT_PREFIX@) && ends_with_seq(name, SCRIPT_SUFFIX@)
}

/// A file name that follows the companion binary naming convention.
pub open spec fn spec_is_binary_name(name: Seq<char>) -> bool {
    starts_with_seq(name, BINARY_PREFIX@) && ends_with_seq(name, BINARY_SUFFIX@)
}

/// The entry is the client script: right name, and the marker inside.
pub open spec fn spec_is_script_match(e: AssetEntry) -> bool {
    spec_is_script_name(e.name@) && e.has_marker
}

/// The entry is the companion binary: right name.
pub open spec fn spec_is_binary_match(e: AssetEntry) -> bool {
    spec_is_binary_name(e.name@)
}

/// The first entry that is the client script, if any.
pub open spec fn spec_first_script(entries: Seq<AssetEntry>) -> Option<AssetEntry> {
    first_match(entries, |e: AssetEntry| spec_is_script_match(e))
}

/// The first entry that is the companion binary, if any.
pub open spec fn spec_first_binary(entries: Seq<AssetEntry>) -> Option<AssetEntry> {
    first_match(entries, |e: AssetEntry| spec_is_binary_match(e))
}

/// Whether the file name follows the script naming convention.
pub fn is_script_candidate(name: &str) -> (r: bool)
    ensures
        r == spec_is_script_name(name@),
{
    starts_with(name, SCRIPT_PREFIX) && ends_with(name, SCRIPT_SUFFIX)
}

/// Whether the file name follows the companion binary naming convention.
pub fn is_binary_candidate(name: &str) -> (r: bool)
    ensures
        r == spec_is_binary_name(name@),
{
    starts_with(name, BINARY_PREFIX) && ends_with(name, BINARY_SUFFIX)
}

/// Whether the script contents hold the required export marker.
pub fn has_export_marker(content: &str) -> (r: bool)
    ensures
        r == contains_seq(content@, EXPORT_MARKER@),
{
    contains_substr(content, EXPORT_MARKER)
}

impl LinkError {
    /// The human-readable failure line.
    pub fn message(&self) -> (r: &'static str)
        ensures
            self is ScriptNotFound ==> r@ == MSG_SCRIPT_NOT_FOUND@,
            self is BinaryNotFound ==> r@ == MSG_BINARY_NOT_FOUND@,
    {
        match self {
            LinkError::ScriptNotFound => MSG_SCRIPT_NOT_FOUND,
            LinkError::BinaryNotFound => MSG_BINARY_NOT_FOUND,
        }
    }
}

/// Scans the directory listing once and resolves the first entry that is
/// the client script and the first that is the companion binary, each to
/// its URL path; fails naming whichever is absent, the script first.
pub fn link_assets(entries: &Vec<AssetEntry>) -> (r: Result<LinkedAssets, LinkError>)
    ensures
        r is Ok <==> (spec_first_script(entries@) is Some && spec_first_binary(entries@) is Some),
        r is Ok ==> r->Ok_0.script_path@ == ASSETS_URL_PREFIX@ + spec_first_script(
            entries@,
        )->0.name@,
        r is Ok ==> r->Ok_0.binary_path@ == ASSETS_URL_PREFIX@ + spec_first_binary(
            entries@,
        )->0.name@,
        r == Err::<LinkedAssets, LinkError>(LinkError::ScriptNotFound) <==> spec_first_script(
            entries@,
        ) is None,
        r == Err::<LinkedAssets, LinkError>(LinkError::BinaryNotFound) <==> (spec_first_script(
            entries@,
        ) is Some && spec_first_binary(entries@) is None),
{
    let ghost fs = |e: AssetEntry| spec_is_script_match(e);
    let ghost fb = |e: AssetEntry| spec_is_binary_match(e);
    let mut script: Option<String> = None;
    let mut binary: Option<String> = None;
    let mut i: usize = 0;
    assert(entries@.subrange(0, 0) =~= Seq::<AssetEntry>::empty());
    while i < entries.len()
        invariant
            i <= entries@.len(),
            fs == (|e: AssetEntry| spec_is_script_match(e)),
            fb == (|e: AssetEntry| spec_is_binary_match(e)),
            script is Some <==> first_match(entries@.subrange(0, i as int), fs) is Some,
            script matches Some(p) ==> p@ == ASSETS_URL_PREFIX@ + first_match(
                entries@.subrange(0, i as int),
                fs,
            )->0.name@,
            binary is Some <==> first_match(entries@.subrange(0, i as int), fb) is Some,
            binary matches Some(p) ==> p@ == ASSETS_URL_PREFIX@ + first_match(
                entries@.subrange(0, i as int),
                fb,
            )->0.name@,
        decreases entries@.len() - i,
    {
        proof {
            lemma_first_match_push(entries@.subrange(0, i as int), entries@[i as int], fs);
            lemma_first_match_push(entries@.subrange(0, i as int), entries@[i as int], fb);
            assert(entries@.subrange(0, i + 1) =~= entries@.subrange(0, i as int).push(
                entries@[i as int],
            ));
        }
        if script.is_none() && is_script_candidate(entries[i].name.as_str())
            && entries[i].has_marker {
            let mut p = String::from_str(ASSETS_URL_PREFIX);
            p.append(entries[i].name.as_str());
            script = Some(p);
        }
        if binary.is_none() && is_binary_candidate(entries[i].name.as_str()) {
            let mut p = String::from_str(ASSETS_URL_PREFIX);
            p.append(entries[i].name.as_str());
            binary = Some(p);
        }
        i += 1;
    }
    assert(entries@.subrange(0, entries@.len() as int) =~= entries@);
    match script {
        None => Err(LinkError::ScriptNotFound),
        Some(script_path) => match binary {
            None => Err(LinkError::BinaryNotFound),
            Some(binary_path) => Ok(LinkedAssets { script_path, binary_path }),
        },
    }
}

/// Where no entry is the client script, the first script match is owed to
/// be absent, so the linker reports the script as not found.
pub proof fn lemma_no_script_means_not_found(entries: Seq<AssetEntry>)
    requires
        forall|i: int| 0 <= i < entries.len() ==> !spec_is_script_match(#[trigger] entries[i]),
    ensures
        spec_first_script(entries) is None,
{
    let fs = |e: AssetEntry| spec_is_script_match(e);
    assert(forall|i: int| 0 <= i < entries.len() ==> !fs(#[trigger] entries[i]));
    lemma_first_match_none(entries, fs);
}

/// Where exactly one entry is the client script and exactly one is the
/// companion binary, the linker resolves exactly those two entries.
pub proof fn lemma_unique_matches_resolved(entries: Seq<AssetEntry>, si: int, bi: int)
    requires
        0 <= si < entries.len(),
        0 <= bi < entries.len(),
        spec_is_script_match(entries[si]),
        forall|i: int|
            0 <= i < entries.len() && i != si ==> !spec_is_script_match(#[trigger] entries[i]),
        spec_is_binary_match(entries[bi]),
        forall|i: int|
            0 <= i < entries.len() && i != bi ==> !spec_is_binary_match(#[trigger] entries[i]),
    ensures
        spec_first_script(entries) == Some(entries[si]),
        spec_first_binary(entries) == Some(entries[bi]),
{
    let fs = |e: AssetEntry| spec_is_script_match(e);
    let fb = |e: AssetEntry| spec_is_binary_match(e);
    assert(forall|i: int| 0 <= i < entries.len() && i != si ==> !fs(#[trigger] entries[i]));
    assert(forall|i: int| 0 <= i < entries.len() && i != bi ==> !fb(#[trigger] entries[i]));
    lemma_first_match_unique(entries, fs, si);
    lemma_first_match_unique(entries, fb, bi);
}

} // verus!
