//! The content store: profile data read from a JSON document. What
//! serde_json computes is named rather than restated: `json_doc_parses`
//! says whether the text parses, and the field names (`json_text_field`
//! and kin) stand for what each lookup yields on the document text — the
//! text of a field, or the empty string where the field is missing or of
//! the wrong shape. Every extraction result is a function of the text
//! alone, so the loader's contract ties each profile field to its name,
//! and a text that does not parse yields the placeholder profile.

use vstd::prelude::*;
use crate::profile::{ContactInfo, ExperienceEntry, ProfileData, placeholder_profile, spec_placeholder};

verus! {

/// Whether the text parses as one JSON document.
pub uninterp spec fn json_doc_parses(s: Seq<char>) -> bool;

/// The text of the document's string field under `key`: empty where the
/// document does not parse, the field is missing, or it is not a string.
pub uninterp spec fn json_text_field(s: Seq<char>, key: Seq<char>) -> Seq<char>;

/// The text of the string field under `key`.`subkey`, with the same
/// empty-string defaulting.
pub uninterp spec fn json_nested_text_field(
    s: Seq<char>,
    key: Seq<char>,
    subkey: Seq<char>,
) -> Seq<char>;

/// The length of the array field under `key`: zero where the document
/// does not parse, the field is missing, or it is not an array.
pub uninterp spec fn json_list_len(s: Seq<char>, key: Seq<char>) -> nat;

/// The text of element `i` of the array field under `key`, with the same
/// empty-string defaulting; empty beyond the array's length.
pub uninterp spec fn json_list_text(s: Seq<char>, key: Seq<char>, i: int) -> Seq<char>;

/// The text of the string field under `subkey` of element `i` of the
/// array field under `key`, with the same empty-string defaulting.
pub uninterp spec fn json_list_nested_text(
    s: Seq<char>,
    key: Seq<char>,
    i: int,
    subkey: Seq<char>,
) -> Seq<char>;

/// Relies on serde_json::from_str: whether the text parses as one JSON
/// document. The answer depends on the text alone.
#[verifier::external_body]
fn json_parses(s: &str) -> (r: bool)
    ensures
        r == json_doc_parses(s@),
{
    serde_json::from_str::<serde_json::Value>(s).is_ok()
}

/// Relies on serde_json::from_str, Value::get and Value::as_str: the text
/// of the document's string field under `key`, or the empty string. The
/// result depends on the text and the key alone.
#[verifier::external_body]
fn json_text_field_of(s: &str, key: &str) -> (r: String)
    ensures
        r@ == json_text_field(s@, key@),
{
    match serde_json::from_str::<serde_json::Value>(s) {
        Ok(v) => match v.get(key).and_then(|f| f.as_str()) {
            Some(t) => t.to_string(),
            None => String::new(),
        },
        Err(_) => String::new(),
    }
}

/// Relies on serde_json::from_str, Value::get and Value::as_str: the text
/// of the string field under `key`.`subkey`, or the empty string. The
/// result depends on the text and the keys alone.
#[verifier::external_body]
fn json_nested_text_field_of(s: &str, key: &str, subkey: &str) -> (r: String)
    ensures
        r@ == json_nested_text_field(s@, key@, subkey@),
{
    match serde_json::from_str::<serde_json::Value>(s) {
        Ok(v) => match v.get(key).and_then(|c| c.get(subkey)).and_then(|f| f.as_str()) {
            Some(t) => t.to_string(),
            None => String::new(),
        },
        Err(_) => String::new(),
    }
}

/// Relies on serde_json::from_str, Value::get and Value::as_array: the
/// length of the array field under `key`, or zero. The result depends on
/// the text and the key alone.
#[verifier::external_body]
fn json_list_len_of(s: &str, key: &str) -> (r: usize)
    ensures
        r as nat == json_list_len(s@, key@),
{
    match serde_json::from_str::<serde_json::Value>(s) {
        Ok(v) => match v.get(key).and_then(|f| f.as_array()) {
            Some(arr) => arr.len(),
            None => 0,
        },
        Err(_) => 0,
    }
}

/// Relies on serde_json::from_str, Value::get and Value::as_str: the text
/// of element `i` of the array field under `key`, or the empty string.
/// The result depends on the text, the key and the index alone.
#[verifier::external_body]
fn json_list_text_of(s: &str, key: &str, i: usize) -> (r: String)
    ensures
        r@ == json_list_text(s@, key@, i as int),
{
    match serde_json::from_str::<serde_json::Value>(s) {
        Ok(v) => match v.get(key).and_then(|f| f.get(i)).and_then(|e| e.as_str()) {
            Some(t) => t.to_string(),
            None => String::new(),
        },
        Err(_) => String::new(),
    }
}

/// Relies on serde_json::from_str, Value::get and Value::as_str: the text
/// under `subkey` of element `i` of the array field under `key`, or the
/// empty string. The result depends on the text, the keys and the index
/// alone.
#[verifier::external_body]
fn json_list_nested_text_of(s: &str, key: &str, i: usize, subkey: &str) -> (r: String)
    ensures
        r@ == json_list_nested_text(s@, key@, i as int, subkey@),
{
    match serde_json::from_str::<serde_json::Value>(s) {
        Ok(v) => match v
            .get(key)
            .and_then(|f| f.get(i))
            .and_then(|e| e.get(subkey))
            .and_then(|t| t.as_str()) {
            Some(t) => t.to_string(),
            None => String::new(),
        },
        Err(_) => String::new(),
    }
}

/// The strings of the array under `key`, in order, one per element.
fn json_strings_of(s: &str, key: &str) -> (r: Vec<String>)
    ensures
        r@.len() == json_list_len(s@, key@),
        forall|j: int|
            0 <= j < r@.len() ==> (#[trigger] r@[j])@ == json_list_text(s@, key@, j),
{
    let n = json_list_len_of(s, key);
    let mut r: Vec<String> = Vec::new();
    let mut i: usize = 0;
    while i < n
        invariant
            n as nat == json_list_len(s@, key@),
            i <= n,
            r@.len() == i,
            forall|j: int| 0 <= j < i ==> (#[trigger] r@[j])@ == json_list_text(s@, key@, j),
        decreases n - i,
    {
        r.push(json_list_text_of(s, key, i));
        i += 1;
    }
    r
}

/// The work history: one entry per element of the array under
/// "experience", each field the element's text under its key.
fn json_experience_of(s: &str) -> (r: Vec<ExperienceEntry>)
    ensures
        r@.len() == json_list_len(s@, "experience"@),
        forall|j: int|
            0 <= j < r@.len() ==> {
                &&& (#[trigger] r@[j]).company@ == json_list_nested_text(
                    s@,
                    "experience"@,
                    j,
                    "company"@,
                )
                &&& r@[j].position@ == json_list_nested_text(s@, "experience"@, j, "position"@)
                &&& r@[j].duration@ == json_list_nested_text(s@, "experience"@, j, "duration"@)
                &&& r@[j].description@ == json_list_nested_text(
                    s@,
                    "experience"@,
                    j,
                    "description"@,
                )
            },
{
    let n = json_list_len_of(s, "experience");
    let mut r: Vec<ExperienceEntry> = Vec::new();
    let mut i: usize = 0;
    while i < n
        invariant
            n as nat == json_list_len(s@, "experience"@),
            i <= n,
            r@.len() == i,
            forall|j: int|
                0 <= j < i ==> {
                    &&& (#[trigger] r@[j]).company@ == json_list_nested_text(
                        s@,
                        "experience"@,
                        j,
                        "company"@,
                    )
                    &&& r@[j].position@ == json_list_nested_text(s@, "experience"@, j, "position"@)
                    &&& r@[j].duration@ == json_list_nested_text(s@, "experience"@, j, "duration"@)
                    &&& r@[j].description@ == json_list_nested_text(
                        s@,
                        "experience"@,
                        j,
                        "description"@,
                    )
                },
        decreases n - i,
    {
        let e = ExperienceEntry {
            company: json_list_nested_text_of(s, "experience", i, "company"),
            position: json_list_nested_text_of(s, "experience", i, "position"),
            duration: json_list_nested_text_of(s, "experience", i, "duration"),
            description: json_list_nested_text_of(s, "experience", i, "description"),
        };
        r.push(e);
        i += 1;
    }
    r
}

/// Every field of a profile read from the document text: each text field
/// the document's field of that name, each list element by element, with
/// the empty string wherever the document holds nothing usable.
pub open spec fn spec_profile_of(p: ProfileData, s: Seq<char>) -> bool {
    &&& p.name@ == json_text_field(s, "name"@)
    &&& p.title@ == json_text_field(s, "title"@)
    &&& p.location@ == json_text_field(s, "location"@)
    &&& p.bio@ == json_text_field(s, "bio"@)
    &&& p.skills@.len() == json_list_len(s, "skills"@)
    &&& forall|j: int|
        0 <= j < p.skills@.len() ==> (#[trigger] p.skills@[j])@ == json_list_text(s, "skills"@, j)
    &&& p.experience@.len() == json_list_len(s, "experience"@)
    &&& forall|j: int|
        0 <= j < p.experience@.len() ==> {
            &&& (#[trigger] p.experience@[j]).company@ == json_list_nested_text(
                s,
                "experience"@,
                j,
                "company"@,
            )
            &&& p.experience@[j].position@ == json_list_nested_text(s, "experience"@, j, "position"@)
            &&& p.experience@[j].duration@ == json_list_nested_text(s, "experience"@, j, "duration"@)
            &&& p.experience@[j].description@ == json_list_nested_text(
                s,
                "experience"@,
                j,
                "description"@,
            )
        }
    &&& p.interests@.len() == json_list_len(s, "interests"@)
    &&& forall|j: int|
        0 <= j < p.interests@.len() ==> (#[trigger] p.interests@[j])@ == json_list_text(
            s,
            "interests"@,
            j,
        )
    &&& p.contact.email@ == json_nested_text_field(s, "contact"@, "email"@)
    &&& p.contact.website@ == json_nested_text_field(s, "contact"@, "website"@)
    &&& p.contact.github@ == json_nested_text_field(s, "contact"@, "github"@)
    &&& p.updated@ == json_text_field(s, "updated"@)
}

/// Carries the document's fields into the library's profile, field by
/// field, with an empty string or list where a field is missing or of the
/// wrong shape.
fn extract_profile(s: &str) -> (p: ProfileData)
    ensures
        spec_profile_of(p, s@),
{
    let contact = ContactInfo {
        email: json_nested_text_field_of(s, "contact", "email"),
        website: json_nested_text_field_of(s, "contact", "website"),
        github: json_nested_text_field_of(s, "contact", "github"),
    };
    ProfileData {
        name: json_text_field_of(s, "name"),
        title: json_text_field_of(s, "title"),
        location: json_text_field_of(s, "location"),
        bio: json_text_field_of(s, "bio"),
        skills: json_strings_of(s, "skills"),
        experience: json_experience_of(s),
        interests: json_strings_of(s, "interests"),
        contact,
        updated: json_text_field_of(s, "updated"),
    }
}

/// Loads the profile from the JSON text. A text that parses yields the
/// document's fields, element by element; one that does not parse never
/// aborts a generation run: it yields the placeholder profile, whose
/// about page shows the error headline instead of content. Either way the
/// result is a function of the text alone.
pub fn load_profile(json_text: &str) -> (p: ProfileData)
    ensures
        json_doc_parses(json_text@) ==> spec_profile_of(p, json_text@),
        !json_doc_parses(json_text@) ==> spec_placeholder(p),
{
    if json_parses(json_text) {
        extract_profile(json_text)
    } else {
        placeholder_profile()
    }
}

} // verus!
