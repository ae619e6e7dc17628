//! What the profile store is asked to do, and when it is refused.
//!
//! The store itself, a directory of files, is the caller's. The functions
//! here take what the caller found there and decide: whether a profile may
//! be stored under a name, what is stored, and what a stored text holds.

use vstd::prelude::*;
use vstd::string::StringExecFns;
use crate::codec::{
    document_of_profile, profile_document, profile_from_document, stored_profile,
    stored_profile_of_document,
};
use crate::json::{json_parsed, json_pretty, parse_json, pretty_json};
use crate::name::{name_verdict, valid_name, validate_profile_name};
use crate::profile::{profile_result_view, Profile, ProfileError, ProfileView, SUPPORTED_VERSION};
use crate::state::{AudioState, AudioStateView};
use crate::text::{join, joined};

verus! {

/// The note of a profile that has no state yet.
pub open spec fn placeholder_note() -> Seq<char> {
    "placeholder profile (no audio state yet)"@
}

/// The error for a name that is not valid, if `name` is not.
pub open spec fn name_error(name: Seq<char>) -> Option<ProfileError> {
    match name_verdict(name) {
        Ok(_) => None,
        Err(e) => Some(ProfileError::NameInvalid(e)),
    }
}

/// Whether a profile may be stored under `name`, where `exists` says
/// whether one is stored there already and `overwrite` whether it may be
/// replaced. The name is judged first.
pub open spec fn claim_verdict(name: Seq<char>, exists: bool, overwrite: bool) -> Result<
    (),
    ProfileError,
> {
    match name_error(name) {
        Some(e) => Err(e),
        None => if exists && !overwrite {
            Err(ProfileError::AlreadyExists)
        } else {
            Ok(())
        },
    }
}

/// Decides whether a profile may be stored under `name`.
pub fn claim_name(name: &str, exists: bool, overwrite: bool) -> (r: Result<(), ProfileError>)
    ensures
        r == claim_verdict(name@, exists, overwrite),
        r is Ok ==> valid_name(name@),
{
    match validate_profile_name(name) {
        Err(e) => Err(ProfileError::NameInvalid(e)),
        Ok(_) => {
            if exists && !overwrite {
                Err(ProfileError::AlreadyExists)
            } else {
                Ok(())
            }
        },
    }
}

/// The note that a profile gets from the notes of a capture: none if there
/// are no notes, else all of them, with `"; "` between each two.
pub open spec fn note_of(notes: Seq<Seq<char>>) -> Option<Seq<char>> {
    if notes.len() == 0 {
        None
    } else {
        Some(joined(notes, "; "@))
    }
}

/// The profile that stores `state` under `name`.
pub open spec fn captured_profile(name: Seq<char>, state: AudioStateView, notes: Seq<Seq<char>>) -> ProfileView {
    ProfileView { version: SUPPORTED_VERSION, name, state, note: note_of(notes) }
}

/// The profile that stands for `name` before any state was captured.
pub open spec fn placeholder_profile(name: Seq<char>) -> ProfileView {
    ProfileView {
        version: SUPPORTED_VERSION,
        name,
        state: AudioStateView::unknown(),
        note: Some(placeholder_note()),
    }
}

fn build_profile(name: &str, state: AudioState, notes: &Vec<String>) -> (profile: Profile)
    ensures
        profile@ == captured_profile(name@, state@, notes.deep_view()),
{
    let note = if notes.len() == 0 {
        None
    } else {
        Some(join(notes, "; "))
    };
    Profile { version: SUPPORTED_VERSION, name: String::from_str(name), state, note }
}

/// Makes the profile to store under `name` before any state was captured:
/// both devices unknown, and a note that says so. Refused if the name is
/// not valid or taken.
pub fn save_placeholder(name: &str, exists: bool) -> (r: Result<Profile, ProfileError>)
    ensures
        profile_result_view(r) == match claim_verdict(name@, exists, false) {
            Ok(_) => Ok(placeholder_profile(name@)),
            Err(e) => Err(e),
        },
        r matches Ok(profile) ==> profile@.valid(),
{
    match claim_name(name, exists, false) {
        Err(e) => Err(e),
        Ok(_) => Ok(
            Profile {
                version: SUPPORTED_VERSION,
                name: String::from_str(name),
                state: AudioState { default_output: None, default_input: None },
                note: Some(String::from_str("placeholder profile (no audio state yet)")),
            },
        ),
    }
}

/// Makes the profile that stores the captured `state` under `name`, with
/// the notes of the capture as its note. Refused if the name is not valid,
/// or if a profile is stored under it already.
pub fn save_current_state(name: &str, exists: bool, state: AudioState, notes: &Vec<String>) -> (r:
    Result<Profile, ProfileError>)
    ensures
        profile_result_view(r) == match claim_verdict(name@, exists, false) {
            Ok(_) => Ok(captured_profile(name@, state@, notes.deep_view())),
            Err(e) => Err(e),
        },
        r matches Ok(profile) ==> profile@.valid(),
{
    match claim_name(name, exists, false) {
        Err(e) => Err(e),
        Ok(_) => Ok(build_profile(name, state, notes)),
    }
}

/// Makes the profile that stores the captured `state` under `name`,
/// replacing what is stored there. Refused only if the name is not valid.
pub fn save_current_state_force(name: &str, state: AudioState, notes: &Vec<String>) -> (r: Result<
    Profile,
    ProfileError,
>)
    ensures
        profile_result_view(r) == match name_error(name@) {
            None => Ok(captured_profile(name@, state@, notes.deep_view())),
            Some(e) => Err(e),
        },
        r matches Ok(profile) ==> profile@.valid(),
{
    match claim_name(name, false, true) {
        Err(e) => Err(e),
        Ok(_) => Ok(build_profile(name, state, notes)),
    }
}

/// Decides whether the profile `name` may be deleted, where `exists` says
/// whether one is stored under the name.
pub fn delete(name: &str, exists: bool) -> (r: Result<(), ProfileError>)
    ensures
        r == match name_error(name@) {
            Some(e) => Err::<(), ProfileError>(e),
            None => if exists {
                Ok::<(), ProfileError>(())
            } else {
                Err::<(), ProfileError>(ProfileError::NotFound)
            },
        },
{
    match validate_profile_name(name) {
        Err(e) => Err(ProfileError::NameInvalid(e)),
        Ok(_) => {
            if exists {
                Ok(())
            } else {
                Err(ProfileError::NotFound)
            }
        },
    }
}

/// A text or nothing, as a sequence of characters.
pub open spec fn stored_view(stored: Option<&str>) -> Option<Seq<char>> {
    match stored {
        Some(text) => Some(text@),
        None => None,
    }
}

/// What `load` answers: the name is judged first; then there has to be a
/// stored text; it has to be JSON; and the document has to store a profile.
pub open spec fn loaded(name: Seq<char>, stored: Option<Seq<char>>) -> Result<
    ProfileView,
    ProfileError,
> {
    match name_error(name) {
        Some(e) => Err(e),
        None => match stored {
            None => Err(ProfileError::NotFound),
            Some(text) => match json_parsed(text) {
                None => Err(ProfileError::Malformed),
                Some(document) => stored_profile(document),
            },
        },
    }
}

/// Reads the profile `name` from the text that is stored under the name,
/// if any is.
pub fn load(name: &str, stored: Option<&str>) -> (r: Result<Profile, ProfileError>)
    ensures
        profile_result_view(r) == loaded(name@, stored_view(stored)),
        r matches Ok(profile) ==> profile.version == SUPPORTED_VERSION,
{
    match validate_profile_name(name) {
        Err(e) => Err(ProfileError::NameInvalid(e)),
        Ok(_) => match stored {
            None => Err(ProfileError::NotFound),
            Some(text) => match parse_json(text) {
                Err(_) => Err(ProfileError::Malformed),
                Ok(document) => profile_from_document(&document),
            },
        },
    }
}

/// Reading gives back what was stored, as far as the parser reads the
/// printer: if `text` is what `profile_text` writes for a valid profile, and
/// parsing `text` gives the document that was printed, then `load` under
/// the profile's name gives the profile, field by field.
pub proof fn stored_text_reads_back(profile: ProfileView, text: Seq<char>)
    requires
        profile.valid(),
    ensures
        profile_text_of(profile) == Ok::<Seq<char>, ProfileError>(text) && json_parsed(text)
            == Some(profile_document(profile)) ==> loaded(profile.name, Some(text)) == Ok::<
            ProfileView,
            ProfileError,
        >(profile),
{
    stored_profile_of_document(profile);
}

/// A text or an error, with the text as a sequence of characters.
pub open spec fn text_result_view(r: Result<String, ProfileError>) -> Result<
    Seq<char>,
    ProfileError,
> {
    match r {
        Ok(text) => Ok(text@),
        Err(e) => Err(e),
    }
}

/// The text that stores a profile: its document, printed.
pub open spec fn profile_text_of(profile: ProfileView) -> Result<Seq<char>, ProfileError> {
    match json_pretty(profile_document(profile)) {
        Some(text) => Ok(text),
        None => Err(ProfileError::Unwritable),
    }
}

/// Writes the text that stores `profile`: its JSON document, printed for
/// people to read.
pub fn profile_text(profile: &Profile) -> (r: Result<String, ProfileError>)
    ensures
        text_result_view(r) == profile_text_of(profile@),
{
    let document = document_of_profile(profile);
    match pretty_json(&document) {
        Ok(text) => Ok(text),
        Err(_) => Err(ProfileError::Unwritable),
    }
}

/// Shows the profile `name` as JSON. The stored text is read first and
/// written anew, so that what is shown is what this library understood.
pub fn show_pretty_json(name: &str, stored: Option<&str>) -> (r: Result<String, ProfileError>)
    ensures
        text_result_view(r) == match loaded(name@, stored_view(stored)) {
            Ok(profile) => profile_text_of(profile),
            Err(e) => Err(e),
        },
{
    match load(name, stored) {
        Err(e) => Err(e),
        Ok(profile) => profile_text(&profile),
    }
}

} // verus!
