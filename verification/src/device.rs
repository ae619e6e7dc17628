//! The two device slots and the ways a device directory can fail.

use vstd::prelude::*;
use vstd::string::StringExecFns;
use crate::text::{decimal, decimal_text};

verus! {

/// One of the two device slots that a profile records.
#[derive(Clone, Copy, Debug, PartialEq, Eq, Structural)]
pub enum Role {
    /// The default output device.
    Output,
    /// The default input device.
    Input,
}

impl Role {
    /// The name under which the role appears in reports and in stored
    /// profiles.
    pub open spec fn label_spec(self) -> Seq<char> {
        match self {
            Role::Output => "default_output"@,
            Role::Input => "default_input"@,
        }
    }

    /// The name under which the role appears in reports and in stored
    /// profiles.
    pub fn label(self) -> (s: &'static str)
        ensures
            s@ == self.label_spec(),
    {
        match self {
            Role::Output => "default_output",
            Role::Input => "default_input",
        }
    }
}

/// Why the device directory could not answer a request.
#[derive(Clone, Copy, Debug, PartialEq, Eq, Structural)]
pub enum DeviceError {
    /// The current device of a role could not be read.
    Unavailable,
    /// No live device has the identity that was asked for.
    NotFound,
    /// The system refused the change and reported this status code.
    SystemRejected(i32),
}

impl DeviceError {
    /// The error in words. A status code is given in decimal.
    pub open spec fn description(self) -> Seq<char> {
        match self {
            DeviceError::Unavailable => "device unavailable"@,
            DeviceError::NotFound => "device not found"@,
            DeviceError::SystemRejected(code) => "rejected by the system (OSStatus="@ + decimal(
                code as int,
            ) + ")"@,
        }
    }

    /// Writes the error in words.
    pub fn describe(&self) -> (s: String)
        ensures
            s@ == self.description(),
    {
        match self {
            DeviceError::Unavailable => String::from_str("device unavailable"),
            DeviceError::NotFound => String::from_str("device not found"),
            DeviceError::SystemRejected(code) => {
                let mut s = String::from_str("rejected by the system (OSStatus=");
                let number = decimal_text(*code as i64);
                s.append(number.as_str());
                s.append(")");
                s
            },
        }
    }
}

/// Reads the status that the system gave to a change: zero is success, and
/// any other status is a rejection that keeps the code.
pub fn ensure_ok(status: i32) -> (r: Result<(), DeviceError>)
    ensures
        r == if status == 0 {
            Ok::<(), DeviceError>(())
        } else {
            Err::<(), DeviceError>(DeviceError::SystemRejected(status))
        },
{
    if status == 0 {
        Ok(())
    } else {
        Err(DeviceError::SystemRejected(status))
    }
}

/// First step of reading the default device of a role: the system gave
/// `status` and, if that is zero, the handle of the device. A handle is
/// good for this session only and must not be stored.
pub fn get_default_device_id(status: i32, handle: u32) -> (r: Result<u32, DeviceError>)
    ensures
        r == if status == 0 {
            Ok::<u32, DeviceError>(handle)
        } else {
            Err::<u32, DeviceError>(DeviceError::Unavailable)
        },
{
    if status == 0 {
        Ok(handle)
    } else {
        Err(DeviceError::Unavailable)
    }
}

/// What `get_device_uid` answers: the identity, if the system gave status
/// zero and an identity with it.
pub open spec fn identity_read(status: i32, uid: Option<Seq<char>>) -> Result<
    Seq<char>,
    DeviceError,
> {
    if status == 0 && uid is Some {
        Ok(uid->0)
    } else {
        Err(DeviceError::Unavailable)
    }
}

/// A text or an error, with the text as a sequence of characters.
pub open spec fn read_view(read: Result<String, DeviceError>) -> Result<Seq<char>, DeviceError> {
    match read {
        Ok(s) => Ok(s@),
        Err(e) => Err(e),
    }
}

/// Second step of reading the default device of a role: the system gave
/// `status` and, perhaps, the persistent identity of the device behind the
/// handle. Without both there is no identity, and none is made up.
pub fn get_device_uid(status: i32, uid: Option<String>) -> (r: Result<String, DeviceError>)
    ensures
        read_view(r) == identity_read(status, uid.deep_view()),
{
    if status != 0 {
        return Err(DeviceError::Unavailable);
    }
    match uid {
        Some(identity) => Ok(identity),
        None => Err(DeviceError::Unavailable),
    }
}

/// A device that is present now: its handle for this session and its
/// persistent identity.
#[derive(Debug, PartialEq, Eq)]
pub struct LiveDevice {
    pub handle: u32,
    pub identity: String,
}

/// Finds the handle of the device that has `identity` among the devices
/// that are present: that of the first such device, or `NotFound` if there
/// is none.
pub fn find_device(devices: &Vec<LiveDevice>, identity: &str) -> (r: Result<u32, DeviceError>)
    ensures
        match r {
            Ok(handle) => exists|i: int|
                {
                    &&& 0 <= i < devices.len()
                    &&& (#[trigger] devices[i]).identity@ == identity@
                    &&& devices[i].handle == handle
                    &&& forall|j: int| 0 <= j < i ==> (#[trigger] devices[j]).identity@ != identity@
                },
            Err(e) => {
                &&& e == DeviceError::NotFound
                &&& forall|i: int|
                    0 <= i < devices.len() ==> (#[trigger] devices[i]).identity@ != identity@
            },
        },
{
    let wanted = String::from_str(identity);
    let mut i: usize = 0;
    while i < devices.len()
        invariant
            i <= devices.len(),
            wanted@ == identity@,
            forall|j: int| 0 <= j < i ==> (#[trigger] devices[j]).identity@ != identity@,
        decreases devices.len() - i,
    {
        if devices[i].identity.eq(&wanted) {
            return Ok(devices[i].handle);
        }
        i += 1;
    }
    Err(DeviceError::NotFound)
}

} // verus!
