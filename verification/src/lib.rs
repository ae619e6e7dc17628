//! Capture, compare and restore the default audio devices of a machine
//! through named profiles.
//!
//! Devices are identified by their persistent identity strings. Every
//! function here computes on plain values; reading and switching devices and
//! keeping the files of the profile store is left to the caller.

pub mod codec;
pub mod device;
pub mod differ;
pub mod engine;
pub mod json;
pub mod laws;
pub mod name;
pub mod plan;
pub mod profile;
pub mod state;
pub mod store;
pub mod text;

pub use codec::{document_of_profile, profile_from_document};
pub use device::{
    ensure_ok, find_device, get_default_device_id, get_device_uid, DeviceError, LiveDevice, Role,
};
pub use differ::{describe_change, diff_audio_state, display_identity, same_identity, Operation};
pub use engine::{apply, ApplyAction, ApplyError, ApplyEvent, ApplyStage};
pub use name::{list, profile_path, validate_profile_name, NameError, MAX_NAME_LEN};
pub use plan::{apply_plan, dry_run_apply, render_plan, ApplyPlan};
pub use profile::{Profile, ProfileError, SUPPORTED_VERSION};
pub use state::{current_audio_state, AudioState};
pub use store::{
    claim_name, delete, load, profile_text, save_current_state, save_current_state_force,
    save_placeholder, show_pretty_json,
};
