//! Why a portal call fails.

use crate::text::append_decimal;
use crate::text::decimal;
use vstd::prelude::*;
use vstd::string::*;

verus! {

/// Why a portal call fails.
#[derive(Debug, PartialEq, Eq)]
pub enum PortalError {
    /// The grant of the session does not cover the device of an input event.
    InputNotAuthorized,
    /// The thread that performs input is gone.
    SendFailed,
    /// The session has not been started.
    NotStarted,
    /// The restore payload has no D-Bus form.
    CannotSerialize,
    /// The output picker named an output that does not exist.
    InvalidOutputIndex(usize),
    /// The user dismissed the output picker.
    Cancelled,
    /// The output picker failed.
    Wayland(String),
    /// The screen cast could not be started.
    CannotStartStream(String),
    /// No socket for emulated-input clients could be made.
    CannotListen(String),
    /// A file descriptor could not be duplicated.
    CannotDuplicate(String),
}

impl PortalError {
    /// The message that goes to the client.
    pub open spec fn text(self) -> Seq<char> {
        match self {
            PortalError::InputNotAuthorized => "input device is not authorized"@,
            PortalError::SendFailed => "Send failed"@,
            PortalError::NotStarted => "remote session is not started"@,
            PortalError::CannotSerialize => "cannot serialize restore data"@,
            PortalError::InvalidOutputIndex(index) => "output picker returned invalid index "@
                + decimal(index as nat),
            PortalError::Cancelled => "You cancel it"@,
            PortalError::Wayland(reason) => "wayland error, "@ + reason@,
            PortalError::CannotStartStream(reason) => "cannot start pipewire stream, error: "@
                + reason@,
            PortalError::CannotListen(reason) => "Failed to create EIS listener: "@ + reason@,
            PortalError::CannotDuplicate(reason) => reason@,
        }
    }

    /// The message that goes to the client.
    pub fn message(&self) -> (r: String)
        ensures
            r@ == self.text(),
    {
        match self {
            PortalError::InputNotAuthorized => "input device is not authorized".to_owned(),
            PortalError::SendFailed => "Send failed".to_owned(),
            PortalError::NotStarted => "remote session is not started".to_owned(),
            PortalError::CannotSerialize => "cannot serialize restore data".to_owned(),
            PortalError::InvalidOutputIndex(index) => {
                let mut text = "output picker returned invalid index ".to_owned();
                append_decimal(&mut text, *index);
                text
            },
            PortalError::Cancelled => "You cancel it".to_owned(),
            PortalError::Wayland(reason) => {
                let mut text = "wayland error, ".to_owned();
                text.append(reason.as_str());
                text
            },
            PortalError::CannotStartStream(reason) => {
                let mut text = "cannot start pipewire stream, error: ".to_owned();
                text.append(reason.as_str());
                text
            },
            PortalError::CannotListen(reason) => {
                let mut text = "Failed to create EIS listener: ".to_owned();
                text.append(reason.as_str());
                text
            },
            PortalError::CannotDuplicate(reason) => reason.clone(),
        }
    }
}

} // verus!
