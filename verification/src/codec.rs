//! The stored form of a profile: a JSON object.
//!
//! ```text
//! {
//!   "version": 1,
//!   "name": "<profile name>",
//!   "state": {
//!     "default_output": "<identity>",
//!     "default_input": "<identity>"
//!   },
//!   "note": "<text>"
//! }
//! ```
//!
//! A device that is unknown has no member in `state`, and a profile without
//! a note has no member `note`. On reading, members that this library does
//! not know are passed over, and a missing `state` stands for two unknown
//! devices.

use vstd::prelude::*;
use vstd::string::StringExecFns;
use crate::json::{json_members, json_view, lookup, member, Json, JsonNumber};
use crate::profile::{profile_result_view, Profile, ProfileError, ProfileView, SUPPORTED_VERSION};
use crate::state::{AudioState, AudioStateView};

verus! {

/// The member that stores an optional text under `key`: none if there is no
/// text.
pub open spec fn text_member(key: Seq<char>, text: Option<Seq<char>>) -> Seq<(Seq<char>, Json)> {
    match text {
        Some(t) => seq![(key, Json::Text(t))],
        None => seq![],
    }
}

/// The members that store a state: one for each device that is known, the
/// output first.
pub open spec fn state_members(state: AudioStateView) -> Seq<(Seq<char>, Json)> {
    text_member("default_output"@, state.default_output) + text_member(
        "default_input"@,
        state.default_input,
    )
}

/// The members that store a profile: version, name and state, and the note
/// if there is one.
pub open spec fn profile_members(profile: ProfileView) -> Seq<(Seq<char>, Json)> {
    seq![
        ("version"@, Json::Number(JsonNumber::Unsigned(profile.version as u64))),
        ("name"@, Json::Text(profile.name)),
        ("state"@, Json::Object(state_members(profile.state))),
    ] + text_member("note"@, profile.note)
}

/// The JSON document that stores a profile.
pub open spec fn profile_document(profile: ProfileView) -> Json {
    Json::Object(profile_members(profile))
}

/// The optional text stored under `key`: none if the member is missing or
/// `null`. A member of any other kind is malformed.
pub open spec fn optional_text(members: Seq<(Seq<char>, Json)>, key: Seq<char>) -> Result<
    Option<Seq<char>>,
    ProfileError,
> {
    match lookup(members, key) {
        None => Ok(None),
        Some(Json::Null) => Ok(None),
        Some(Json::Text(t)) => Ok(Some(t)),
        Some(_) => Err(ProfileError::Malformed),
    }
}

/// The state stored in the members of a `state` object.
pub open spec fn state_of_members(members: Seq<(Seq<char>, Json)>) -> Result<
    AudioStateView,
    ProfileError,
> {
    match optional_text(members, "default_output"@) {
        Err(e) => Err(e),
        Ok(default_output) => match optional_text(members, "default_input"@) {
            Err(e) => Err(e),
            Ok(default_input) => Ok(AudioStateView { default_output, default_input }),
        },
    }
}

/// The state stored in the members of a profile: that of the member `state`,
/// which has to be an object, or two unknown devices if there is no such
/// member.
pub open spec fn stored_state(members: Seq<(Seq<char>, Json)>) -> Result<
    AudioStateView,
    ProfileError,
> {
    match lookup(members, "state"@) {
        None => Ok(AudioStateView::unknown()),
        Some(Json::Object(state)) => state_of_members(state),
        Some(_) => Err(ProfileError::Malformed),
    }
}

/// The version stored in the members of a profile. It has to be an integer
/// that is not negative, and then it has to be the supported one.
pub open spec fn stored_version(members: Seq<(Seq<char>, Json)>) -> Result<u32, ProfileError> {
    match lookup(members, "version"@) {
        Some(Json::Number(JsonNumber::Unsigned(n))) => if n == SUPPORTED_VERSION {
            Ok(SUPPORTED_VERSION)
        } else {
            Err(ProfileError::UnsupportedVersion(n))
        },
        _ => Err(ProfileError::Malformed),
    }
}

/// The name stored in the members of a profile. It has to be a string.
pub open spec fn stored_name(members: Seq<(Seq<char>, Json)>) -> Result<Seq<char>, ProfileError> {
    match lookup(members, "name"@) {
        Some(Json::Text(name)) => Ok(name),
        _ => Err(ProfileError::Malformed),
    }
}

/// The profile that a JSON document stores, or why it stores none. The
/// document has to be an object. Its members are read in the order version,
/// name, state, note, and the first that is wrong decides the error.
pub open spec fn stored_profile(document: Json) -> Result<ProfileView, ProfileError> {
    match document {
        Json::Object(members) => match stored_version(members) {
            Err(e) => Err(e),
            Ok(version) => match stored_name(members) {
                Err(e) => Err(e),
                Ok(name) => match stored_state(members) {
                    Err(e) => Err(e),
                    Ok(state) => match optional_text(members, "note"@) {
                        Err(e) => Err(e),
                        Ok(note) => Ok(ProfileView { version, name, state, note }),
                    },
                },
            },
        },
        _ => Err(ProfileError::Malformed),
    }
}

/// An optional text or an error, with the text as a sequence of characters.
pub open spec fn optional_view(r: Result<Option<String>, ProfileError>) -> Result<
    Option<Seq<char>>,
    ProfileError,
> {
    match r {
        Ok(text) => Ok(text.deep_view()),
        Err(e) => Err(e),
    }
}

/// A state or an error, with the state by its view.
pub open spec fn state_result_view(r: Result<AudioState, ProfileError>) -> Result<
    AudioStateView,
    ProfileError,
> {
    match r {
        Ok(state) => Ok(state@),
        Err(e) => Err(e),
    }
}

fn read_optional_text(map: &serde_json::Map<String, serde_json::Value>, key: &str) -> (r: Result<
    Option<String>,
    ProfileError,
>)
    ensures
        optional_view(r) == optional_text(json_members(*map), key@),
{
    match member(map, key) {
        None => Ok(None),
        Some(value) => {
            if value.is_null() {
                Ok(None)
            } else {
                match value.as_str() {
                    Some(text) => Ok(Some(String::from_str(text))),
                    None => Err(ProfileError::Malformed),
                }
            }
        },
    }
}

fn read_state(map: &serde_json::Map<String, serde_json::Value>) -> (r: Result<
    AudioState,
    ProfileError,
>)
    ensures
        state_result_view(r) == stored_state(json_members(*map)),
{
    match member(map, "state") {
        None => Ok(AudioState { default_output: None, default_input: None }),
        Some(value) => match value.as_object() {
            None => Err(ProfileError::Malformed),
            Some(state) => {
                let default_output = match read_optional_text(state, "default_output") {
                    Ok(text) => text,
                    Err(e) => { return Err(e); },
                };
                let default_input = match read_optional_text(state, "default_input") {
                    Ok(text) => text,
                    Err(e) => { return Err(e); },
                };
                Ok(AudioState { default_output, default_input })
            },
        },
    }
}

fn read_version(map: &serde_json::Map<String, serde_json::Value>) -> (r: Result<u32, ProfileError>)
    ensures
        r == stored_version(json_members(*map)),
{
    match member(map, "version") {
        None => Err(ProfileError::Malformed),
        Some(value) => match value.as_u64() {
            None => Err(ProfileError::Malformed),
            Some(n) => {
                if n == SUPPORTED_VERSION as u64 {
                    Ok(SUPPORTED_VERSION)
                } else {
                    Err(ProfileError::UnsupportedVersion(n))
                }
            },
        },
    }
}

/// Reads the profile that a JSON document stores.
///
/// Members that the stored form does not know are passed over. A version
/// other than the supported one is refused as such, whatever else the
/// document holds.
pub fn profile_from_document(document: &serde_json::Value) -> (r: Result<Profile, ProfileError>)
    ensures
        profile_result_view(r) == stored_profile(json_view(*document)),
{
    let map = match document.as_object() {
        Some(map) => map,
        None => { return Err(ProfileError::Malformed); },
    };
    let version = match read_version(map) {
        Ok(version) => version,
        Err(e) => { return Err(e); },
    };
    let name = match member(map, "name") {
        None => { return Err(ProfileError::Malformed); },
        Some(value) => match value.as_str() {
            Some(text) => String::from_str(text),
            None => { return Err(ProfileError::Malformed); },
        },
    };
    let state = match read_state(map) {
        Ok(state) => state,
        Err(e) => { return Err(e); },
    };
    let note = match read_optional_text(map, "note") {
        Ok(note) => note,
        Err(e) => { return Err(e); },
    };
    Ok(Profile { version, name, state, note })
}

/// Looking up in two sequences of members, one after the other, finds the
/// member of the first if it has one, and that of the second otherwise.
pub proof fn lookup_in_both(
    first: Seq<(Seq<char>, Json)>,
    second: Seq<(Seq<char>, Json)>,
    key: Seq<char>,
)
    ensures
        lookup(first + second, key) == match lookup(first, key) {
            Some(value) => Some(value),
            None => lookup(second, key),
        },
    decreases first.len(),
{
    if first.len() == 0 {
        assert(first + second =~= second);
    } else {
        assert((first + second).drop_first() =~= first.drop_first() + second);
        lookup_in_both(first.drop_first(), second, key);
    }
}

/// Looking up in a single member finds it under its key and nothing under
/// another.
pub proof fn lookup_in_one(at: Seq<char>, value: Json, key: Seq<char>)
    ensures
        lookup(seq![(at, value)], key) == if at == key {
            Some(value)
        } else {
            None
        },
{
    reveal_with_fuel(lookup, 2);
}

/// The keys of the stored form are six different texts.
pub proof fn keys_differ()
    ensures
        "version"@ != "name"@,
        "version"@ != "state"@,
        "version"@ != "note"@,
        "name"@ != "state"@,
        "name"@ != "note"@,
        "state"@ != "note"@,
        "default_output"@ != "default_input"@,
{
    reveal_strlit("version");
    reveal_strlit("name");
    reveal_strlit("state");
    reveal_strlit("note");
    reveal_strlit("default_output");
    reveal_strlit("default_input");
    assert("version"@.len() == 7);
    assert("name"@.len() == 4);
    assert("state"@.len() == 5);
    assert("note"@.len() == 4);
    assert("default_output"@.len() == 14);
    assert("default_input"@.len() == 13);
    assert("name"@[1] != "note"@[1]);
}

fn put_text(map: &mut serde_json::Map<String, serde_json::Value>, key: &str, text: &Option<String>)
    requires
        lookup(json_members(*old(map)), key@) is None,
    ensures
        json_members(*final(map)) == json_members(*old(map)) + text_member(key@, text.deep_view()),
{
    match text {
        Some(t) => {
            map.insert(String::from_str(key), serde_json::Value::from(t.clone()));
        },
        None => {},
    }
    assert(json_members(*map) =~= json_members(*old(map)) + text_member(key@, text.deep_view()));
}

/// Builds the JSON document that stores `profile`.
pub fn document_of_profile(profile: &Profile) -> (document: serde_json::Value)
    ensures
        json_view(document) == profile_document(profile@),
{
    let mut state = serde_json::Map::new();
    put_text(&mut state, "default_output", &profile.state.default_output);
    proof {
        keys_differ();
        let first = text_member("default_output"@, profile.state.default_output.deep_view());
        lookup_in_both(Seq::empty(), first, "default_input"@);
        if profile.state.default_output is Some {
            lookup_in_one("default_output"@, first[0].1, "default_input"@);
        }
    }
    put_text(&mut state, "default_input", &profile.state.default_input);
    assert(json_members(state) =~= state_members(profile@.state));

    let mut map = serde_json::Map::new();
    let ghost version = ("version"@, Json::Number(JsonNumber::Unsigned(profile.version as u64)));
    let ghost name = ("name"@, Json::Text(profile.name@));
    let ghost stored = ("state"@, Json::Object(state_members(profile@.state)));
    map.insert(String::from_str("version"), serde_json::Value::from(profile.version));
    assert(json_members(map) =~= seq![version]);
    proof {
        lookup_in_one(version.0, version.1, "name"@);
    }
    map.insert(String::from_str("name"), serde_json::Value::from(profile.name.clone()));
    assert(json_members(map) =~= seq![version] + seq![name]);
    proof {
        lookup_in_both(seq![version], seq![name], "state"@);
        lookup_in_one(version.0, version.1, "state"@);
        lookup_in_one(name.0, name.1, "state"@);
    }
    map.insert(String::from_str("state"), serde_json::Value::from(state));
    assert(json_members(map) =~= seq![version, name] + seq![stored]);
    proof {
        lookup_in_both(seq![version, name], seq![stored], "note"@);
        assert(seq![version, name] =~= seq![version] + seq![name]);
        lookup_in_both(seq![version], seq![name], "note"@);
        lookup_in_one(version.0, version.1, "note"@);
        lookup_in_one(name.0, name.1, "note"@);
        lookup_in_one(stored.0, stored.1, "note"@);
    }
    put_text(&mut map, "note", &profile.note);
    assert(json_members(map) =~= profile_members(profile@));
    serde_json::Value::from(map)
}

/// Storing and reading give back what was stored: the document that stores
/// a profile of the supported version stores that profile, field by field.
/// A device or a note that the profile does not have is absent after
/// reading too; it does not come back as an empty text.
pub proof fn stored_profile_of_document(profile: ProfileView)
    requires
        profile.version == SUPPORTED_VERSION,
    ensures
        stored_profile(profile_document(profile)) == Ok::<ProfileView, ProfileError>(profile),
        stored_state(profile_members(profile)) == Ok::<AudioStateView, ProfileError>(
            profile.state,
        ),
        optional_text(profile_members(profile), "note"@) == Ok::<
            Option<Seq<char>>,
            ProfileError,
        >(profile.note),
{
    keys_differ();
    let version = ("version"@, Json::Number(JsonNumber::Unsigned(profile.version as u64)));
    let name = ("name"@, Json::Text(profile.name));
    let state = ("state"@, Json::Object(state_members(profile.state)));
    let head = seq![version, name, state];
    let note = text_member("note"@, profile.note);
    let members = profile_members(profile);
    assert(members == head + note);
    assert(head =~= seq![version] + (seq![name] + seq![state]));
    assert forall|key: Seq<char>|
        lookup(members, key) == if key == "version"@ {
            Some(version.1)
        } else if key == "name"@ {
            Some(name.1)
        } else if key == "state"@ {
            Some(state.1)
        } else {
            lookup(note, key)
        } by {
        lookup_in_both(head, note, key);
        lookup_in_both(seq![version], seq![name] + seq![state], key);
        lookup_in_both(seq![name], seq![state], key);
        lookup_in_one(version.0, version.1, key);
        lookup_in_one(name.0, name.1, key);
        lookup_in_one(state.0, state.1, key);
    }
    if profile.note is Some {
        lookup_in_one("note"@, Json::Text(profile.note->0), "note"@);
    }
    assert(lookup(members, "note"@) == lookup(note, "note"@));

    let output = text_member("default_output"@, profile.state.default_output);
    let input = text_member("default_input"@, profile.state.default_input);
    assert(state_members(profile.state) == output + input);
    lookup_in_both(output, input, "default_output"@);
    lookup_in_both(output, input, "default_input"@);
    if profile.state.default_output is Some {
        lookup_in_one("default_output"@, output[0].1, "default_output"@);
        lookup_in_one("default_output"@, output[0].1, "default_input"@);
    }
    if profile.state.default_input is Some {
        lookup_in_one("default_input"@, input[0].1, "default_output"@);
        lookup_in_one("default_input"@, input[0].1, "default_input"@);
    }
    assert(state_of_members(state_members(profile.state)) == Ok::<AudioStateView, ProfileError>(
        profile.state,
    ));
}

} // verus!
