//! The profile content rendered on the about page: personal and
//! professional information, loaded once per generation run.

use vstd::prelude::*;

verus! {

/// One position in the work history.
pub struct ExperienceEntry {
    pub company: String,
    pub position: String,
    pub duration: String,
    pub description: String,
}

/// Ways to reach the profile's owner.
pub struct ContactInfo {
    pub email: String,
    pub website: String,
    pub github: String,
}

/// The whole profile: every field the about page interpolates.
pub struct ProfileData {
    pub name: String,
    pub title: String,
    pub location: String,
    pub bio: String,
    pub skills: Vec<String>,
    pub experience: Vec<ExperienceEntry>,
    pub interests: Vec<String>,
    pub contact: ContactInfo,
    pub updated: String,
}

/// The profile shown when the content source cannot be read: the error
/// headline, the fallback bio, everything else empty.
pub open spec fn spec_placeholder(p: ProfileData) -> bool {
    &&& p.name@ == "Error Loading Data"@
    &&& p.title@ == Seq::<char>::empty()
    &&& p.location@ == Seq::<char>::empty()
    &&& p.bio@ == "Failed to load about information."@
    &&& p.skills@ == Seq::<String>::empty()
    &&& p.experience@ == Seq::<ExperienceEntry>::empty()
    &&& p.interests@ == Seq::<String>::empty()
    &&& p.contact.email@ == Seq::<char>::empty()
    &&& p.contact.website@ == Seq::<char>::empty()
    &&& p.contact.github@ == Seq::<char>::empty()
    &&& p.updated@ == Seq::<char>::empty()
}

/// The placeholder rendered in place of unreadable content.
pub fn placeholder_profile() -> (p: ProfileData)
    ensures
        spec_placeholder(p),
{
    ProfileData {
        name: String::from_str("Error Loading Data"),
        title: String::new(),
        location: String::new(),
        bio: String::from_str("Failed to load about information."),
        skills: Vec::new(),
        experience: Vec::new(),
        interests: Vec::new(),
        contact: ContactInfo { email: String::new(), website: String::new(), github: String::new() },
        updated: String::new(),
    }
}

} // verus!
