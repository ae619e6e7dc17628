//! Profiles: a routing state stored under a name.

use vstd::prelude::*;
use vstd::string::StringExecFns;
use crate::name::{valid_name, NameError};
use crate::text::{digits, unsigned_text};
use crate::state::{copy_identity, AudioState, AudioStateView};

verus! {

/// The only version of the stored form that this library reads and writes.
pub const SUPPORTED_VERSION: u32 = 1;

/// A routing state stored under a name.
#[derive(Debug, PartialEq, Eq)]
pub struct Profile {
    /// Version of the stored form.
    pub version: u32,
    /// The name the profile is stored under.
    pub name: String,
    /// The routing state that the profile restores.
    pub state: AudioState,
    /// What went wrong while the state was captured, if anything did.
    pub note: Option<String>,
}

/// What a `Profile` holds, with its texts as sequences of characters.
pub struct ProfileView {
    pub version: u32,
    pub name: Seq<char>,
    pub state: AudioStateView,
    pub note: Option<Seq<char>>,
}

impl ProfileView {
    /// The profile is one that this library stores: its version is the
    /// supported one and its name may name a profile.
    pub open spec fn valid(self) -> bool {
        &&& self.version == SUPPORTED_VERSION
        &&& valid_name(self.name)
    }
}

impl View for Profile {
    type V = ProfileView;

    open spec fn view(&self) -> ProfileView {
        ProfileView {
            version: self.version,
            name: self.name@,
            state: self.state@,
            note: self.note.deep_view(),
        }
    }
}

impl Clone for Profile {
    fn clone(&self) -> (r: Self)
        ensures
            r@ == self@,
    {
        Profile {
            version: self.version,
            name: self.name.clone(),
            state: self.state.clone(),
            note: copy_identity(&self.note),
        }
    }
}

/// Why a profile could not be stored, found or read.
#[derive(Clone, Copy, Debug, PartialEq, Eq, Structural)]
pub enum ProfileError {
    /// The name cannot name a profile.
    NameInvalid(NameError),
    /// A profile is stored under the name already.
    AlreadyExists,
    /// No profile is stored under the name.
    NotFound,
    /// What is stored is not JSON, or not the JSON of a profile.
    Malformed,
    /// What is stored has a version that this library does not read.
    UnsupportedVersion(u64),
    /// The profile could not be written as JSON.
    Unwritable,
}

impl ProfileError {
    /// The error in words, for the profile called `name`.
    pub open spec fn description(self, name: Seq<char>) -> Seq<char> {
        match self {
            ProfileError::NameInvalid(e) => e.description(),
            ProfileError::AlreadyExists => "profile already exists: "@ + name,
            ProfileError::NotFound => "profile not found: "@ + name,
            ProfileError::Malformed => "failed to parse profile json: "@ + name,
            ProfileError::UnsupportedVersion(v) => "unsupported profile version: "@ + digits(
                v as nat,
            ) + " (profile "@ + name + ")"@,
            ProfileError::Unwritable => "failed to write profile json: "@ + name,
        }
    }

    /// Writes the error in words, for the profile called `name`.
    pub fn describe(&self, name: &str) -> (s: String)
        ensures
            s@ == self.description(name@),
    {
        match self {
            ProfileError::NameInvalid(e) => e.describe(),
            ProfileError::AlreadyExists => {
                let mut s = String::from_str("profile already exists: ");
                s.append(name);
                s
            },
            ProfileError::NotFound => {
                let mut s = String::from_str("profile not found: ");
                s.append(name);
                s
            },
            ProfileError::Malformed => {
                let mut s = String::from_str("failed to parse profile json: ");
                s.append(name);
                s
            },
            ProfileError::UnsupportedVersion(v) => {
                let mut s = String::from_str("unsupported profile version: ");
                let number = unsigned_text(*v);
                s.append(number.as_str());
                s.append(" (profile ");
                s.append(name);
                s.append(")");
                s
            },
            ProfileError::Unwritable => {
                let mut s = String::from_str("failed to write profile json: ");
                s.append(name);
                s
            },
        }
    }
}

/// A profile or an error, with the profile by its view.
pub open spec fn profile_result_view(r: Result<Profile, ProfileError>) -> Result<
    ProfileView,
    ProfileError,
> {
    match r {
        Ok(profile) => Ok(profile@),
        Err(e) => Err(e),
    }
}

} // verus!
