//! The routing state of a machine: which device fills each role.

use vstd::prelude::*;
use vstd::string::StringExecFns;
use crate::device::{read_view, DeviceError, Role};

verus! {

/// The default devices of a machine at one instant. A field is `None` where
/// the device is unknown: it could not be read, or was never recorded.
#[derive(Debug, PartialEq, Eq)]
pub struct AudioState {
    /// Identity of the default output device.
    pub default_output: Option<String>,
    /// Identity of the default input device.
    pub default_input: Option<String>,
}

/// What an `AudioState` holds, as sequences of characters.
pub struct AudioStateView {
    pub default_output: Option<Seq<char>>,
    pub default_input: Option<Seq<char>>,
}

impl AudioStateView {
    /// The identity recorded for `role`, if it is known.
    pub open spec fn device(self, role: Role) -> Option<Seq<char>> {
        match role {
            Role::Output => self.default_output,
            Role::Input => self.default_input,
        }
    }

    /// The state in which neither device is known.
    pub open spec fn unknown() -> AudioStateView {
        AudioStateView { default_output: None, default_input: None }
    }
}

impl View for AudioState {
    type V = AudioStateView;

    open spec fn view(&self) -> AudioStateView {
        AudioStateView {
            default_output: self.default_output.deep_view(),
            default_input: self.default_input.deep_view(),
        }
    }
}

/// A copy of an optional identity.
pub fn copy_identity(identity: &Option<String>) -> (r: Option<String>)
    ensures
        r.deep_view() == identity.deep_view(),
{
    match identity {
        Some(s) => Some(s.clone()),
        None => None,
    }
}

impl AudioState {
    /// The identity recorded for `role`, if it is known.
    pub fn device(&self, role: Role) -> (r: &Option<String>)
        ensures
            r.deep_view() == self@.device(role),
    {
        match role {
            Role::Output => &self.default_output,
            Role::Input => &self.default_input,
        }
    }
}

impl Clone for AudioState {
    fn clone(&self) -> (r: Self)
        ensures
            r@ == self@,
    {
        AudioState {
            default_output: copy_identity(&self.default_output),
            default_input: copy_identity(&self.default_input),
        }
    }
}

impl Default for AudioState {
    fn default() -> (r: Self)
        ensures
            r@ == AudioStateView::unknown(),
    {
        AudioState { default_output: None, default_input: None }
    }
}

/// The note that records why the device of `role` could not be read.
pub open spec fn read_failure_note(role: Role, cause: DeviceError) -> Seq<char> {
    "failed to read "@ + role.label_spec() + ": "@ + cause.description()
}

/// What a capture records for a role: the identity that was read, or
/// nothing if the read failed.
pub open spec fn captured_device(read: Result<Seq<char>, DeviceError>) -> Option<Seq<char>> {
    match read {
        Ok(identity) => Some(identity),
        Err(_) => None,
    }
}

/// The notes that a capture makes for a role: one if the read failed, none
/// otherwise.
pub open spec fn captured_notes(role: Role, read: Result<Seq<char>, DeviceError>) -> Seq<
    Seq<char>,
> {
    match read {
        Ok(_) => seq![],
        Err(cause) => seq![read_failure_note(role, cause)],
    }
}

/// The state that a capture records from the two reads.
pub open spec fn captured_state(
    output: Result<Seq<char>, DeviceError>,
    input: Result<Seq<char>, DeviceError>,
) -> AudioStateView {
    AudioStateView {
        default_output: captured_device(output),
        default_input: captured_device(input),
    }
}

fn capture_role(role: Role, read: Result<String, DeviceError>, notes: &mut Vec<String>) -> (r:
    Option<String>)
    ensures
        r.deep_view() == captured_device(read_view(read)),
        final(notes).deep_view() == old(notes).deep_view() + captured_notes(role, read_view(read)),
{
    let r = match read {
        Ok(identity) => Some(identity),
        Err(cause) => {
            let mut note = String::from_str("failed to read ");
            note.append(role.label());
            note.append(": ");
            let why = cause.describe();
            note.append(why.as_str());
            notes.push(note);
            None
        },
    };
    assert(notes.deep_view() =~= old(notes).deep_view() + captured_notes(role, read_view(read)));
    r
}

/// Captures the current state from what the device directory answered for
/// the two roles.
///
/// Each role stands for itself: a read that succeeded is recorded, one that
/// failed leaves its device unknown and adds a note that names the role and
/// the cause. The capture as a whole never fails. The notes come in the
/// order output, input.
pub fn current_audio_state(
    output: Result<String, DeviceError>,
    input: Result<String, DeviceError>,
) -> (r: (AudioState, Vec<String>))
    ensures
        r.0@ == captured_state(read_view(output), read_view(input)),
        r.1.deep_view() == captured_notes(Role::Output, read_view(output)) + captured_notes(
            Role::Input,
            read_view(input),
        ),
{
    let mut notes: Vec<String> = Vec::new();
    assert(notes.deep_view() =~= Seq::<Seq<char>>::empty());
    let default_output = capture_role(Role::Output, output, &mut notes);
    let default_input = capture_role(Role::Input, input, &mut notes);
    assert(notes.deep_view() =~= captured_notes(Role::Output, read_view(output)) + captured_notes(
        Role::Input,
        read_view(input),
    ));
    (AudioState { default_output, default_input }, notes)
}

} // verus!
