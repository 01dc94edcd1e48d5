//! The errors the library reports, and their texts.

use crate::models::Uuid;
use vstd::prelude::*;

verus! {

/// What the Bluetooth backend reports when a request fails.
#[derive(Clone, Debug)]
pub enum BackendError {
    PermissionDenied,
    DeviceNotFound,
    NotConnected,
    UnexpectedCallback,
    UnexpectedCharacteristic,
    NoSuchCharacteristic,
    NoAdapterAvailable,
    NotSupported(String),
    RuntimeError(String),
    /// Any other failure, by its text.
    Other(String),
}

impl BackendError {
    /// The text the backend shows for this error.
    pub open spec fn text(self) -> Seq<char> {
        match self {
            BackendError::PermissionDenied => "Permission denied"@,
            BackendError::DeviceNotFound => "Device not found"@,
            BackendError::NotConnected => "Not connected"@,
            BackendError::UnexpectedCallback => "Unexpected callback"@,
            BackendError::UnexpectedCharacteristic => "Unexpected characteristic"@,
            BackendError::NoSuchCharacteristic => "No such characteristic"@,
            BackendError::NoAdapterAvailable => "No Bluetooth adapter available"@,
            BackendError::NotSupported(what) => "The operation is not supported: "@ + what@,
            BackendError::RuntimeError(what) => "Runtime Error: "@ + what@,
            BackendError::Other(what) => what@,
        }
    }
}

/// Calls `btleplug::Error`'s `to_string`.
///
/// Claimed: each variant shows its fixed text, `NotSupported` and `RuntimeError` show
/// theirs followed by what they hold, and an error of another kind shows its own text.
#[verifier::external_body]
fn backend_text(e: &BackendError) -> (text: String)
    ensures
        text@ == e.text(),
{
    let e = match e {
        BackendError::PermissionDenied => btleplug::Error::PermissionDenied,
        BackendError::DeviceNotFound => btleplug::Error::DeviceNotFound,
        BackendError::NotConnected => btleplug::Error::NotConnected,
        BackendError::UnexpectedCallback => btleplug::Error::UnexpectedCallback,
        BackendError::UnexpectedCharacteristic => btleplug::Error::UnexpectedCharacteristic,
        BackendError::NoSuchCharacteristic => btleplug::Error::NoSuchCharacteristic,
        BackendError::NoAdapterAvailable => btleplug::Error::NoAdapterAvailable,
        BackendError::NotSupported(s) => btleplug::Error::NotSupported(s.clone()),
        BackendError::RuntimeError(s) => btleplug::Error::RuntimeError(s.clone()),
        BackendError::Other(s) => btleplug::Error::Other(s.clone().into()),
    };
    e.to_string()
}

/// Calls `uuid::Uuid::from_u128` and the `to_string` of what it returns.
///
/// Claimed: the text is the hyphenated form, eight, four, four, four and twelve
/// lower-case hex digits, most significant first.
#[verifier::external_body]
pub(crate) fn uuid_text(uuid: Uuid) -> (text: String)
    ensures
        text@ == uuid_chars(uuid),
{
    uuid::Uuid::from_u128(uuid).to_string()
}

/// The lower-case hex digit of a value below 16.
pub open spec fn lower_hex(d: int) -> char {
    if d < 10 {
        (d + 48) as char
    } else {
        (d + 87) as char
    }
}

/// How many hyphens of a hyphenated uuid stand before position `i`.
pub open spec fn hyphens_before(i: int) -> int {
    if i < 8 {
        0
    } else if i < 13 {
        1
    } else if i < 18 {
        2
    } else if i < 23 {
        3
    } else {
        4
    }
}

/// The hyphenated form of a uuid.
pub open spec fn uuid_chars(uuid: Uuid) -> Seq<char> {
    Seq::new(
        36,
        |i: int|
            if i == 8 || i == 13 || i == 18 || i == 23 {
                '-'
            } else {
                let digit = i - hyphens_before(i);
                lower_hex(((uuid >> ((124 - 4 * digit) as u128)) & 0xf) as int)
            },
    )
}

/// Everything that can go wrong in a call of the library.
#[derive(Clone, Debug)]
pub enum Error {
    /// The backend failed.
    Btleplug(BackendError),
    /// No scan has found a device with this address.
    UnknownPeripheral(String),
    /// The connected device has no such characteristic.
    CharacNotAvailable(String),
    NoDeviceConnected,
    AlreadyConnected,
    HandlerNotInitialized,
    /// The receiver of a status update is gone; holds the status that was not sent.
    SendingState(bool),
    NoAdapters,
    DisconnectFailed,
    ConnectionFailed,
    /// The mask of a masked manufacturer data filter is not as long as its data.
    InvalidFilterMask,
    /// The named command did not finish in time.
    Timeout(String),
    JoinError(String),
    /// Something went wrong on the android side, or on the way to it.
    Android(String),
}

pub type Result<T> = std::result::Result<T, Error>;

/// An [`Error`] with its texts as sequences of characters.
#[verifier::ext_equal]
pub ghost enum ErrorView {
    Btleplug(BackendError),
    UnknownPeripheral(Seq<char>),
    CharacNotAvailable(Seq<char>),
    NoDeviceConnected,
    AlreadyConnected,
    HandlerNotInitialized,
    SendingState(bool),
    NoAdapters,
    DisconnectFailed,
    ConnectionFailed,
    InvalidFilterMask,
    Timeout(Seq<char>),
    JoinError(Seq<char>),
    Android(Seq<char>),
}

impl View for Error {
    type V = ErrorView;

    open spec fn view(&self) -> ErrorView {
        match *self {
            Error::Btleplug(e) => ErrorView::Btleplug(e),
            Error::UnknownPeripheral(s) => ErrorView::UnknownPeripheral(s@),
            Error::CharacNotAvailable(s) => ErrorView::CharacNotAvailable(s@),
            Error::NoDeviceConnected => ErrorView::NoDeviceConnected,
            Error::AlreadyConnected => ErrorView::AlreadyConnected,
            Error::HandlerNotInitialized => ErrorView::HandlerNotInitialized,
            Error::SendingState(b) => ErrorView::SendingState(b),
            Error::NoAdapters => ErrorView::NoAdapters,
            Error::DisconnectFailed => ErrorView::DisconnectFailed,
            Error::ConnectionFailed => ErrorView::ConnectionFailed,
            Error::InvalidFilterMask => ErrorView::InvalidFilterMask,
            Error::Timeout(s) => ErrorView::Timeout(s@),
            Error::JoinError(s) => ErrorView::JoinError(s@),
            Error::Android(s) => ErrorView::Android(s@),
        }
    }
}

impl ErrorView {
    /// The text shown to users, which is also what an error serializes to.
    pub open spec fn text(self) -> Seq<char> {
        match self {
            ErrorView::Btleplug(e) => "Btleplug error: "@ + e.text(),
            ErrorView::UnknownPeripheral(id) => "There is no peripheral with id: "@ + id,
            ErrorView::CharacNotAvailable(uuid) => "Characteristic "@ + uuid + " not available"@,
            ErrorView::NoDeviceConnected => "No device connected"@,
            ErrorView::AlreadyConnected => "Device is already connected."@,
            ErrorView::HandlerNotInitialized => "Handler not initialized"@,
            ErrorView::SendingState(_) => "could not send State: channel closed"@,
            ErrorView::NoAdapters => "no bluetooth adapters found"@,
            ErrorView::DisconnectFailed => "Unknonwn error during disconnect"@,
            ErrorView::ConnectionFailed => "Unknown error during connect"@,
            ErrorView::InvalidFilterMask => "Mask must match manufacturer data length"@,
            ErrorView::Timeout(cmd) => "Timeout during execution of "@ + cmd,
            ErrorView::JoinError(why) => "Failed to join Task: "@ + why,
            ErrorView::Android(why) => "android: "@ + why,
        }
    }
}

/// `head` followed by `tail`.
pub(crate) fn joined(head: &str, tail: &str) -> (text: String)
    ensures
        text@ == head@ + tail@,
{
    let mut text = head.to_owned();
    text.append(tail);
    text
}

impl Error {
    /// The text shown to users, which is also what an error serializes to.
    pub fn message(&self) -> (text: String)
        ensures
            text@ == self@.text(),
    {
        match self {
            Error::Btleplug(e) => joined("Btleplug error: ", backend_text(e).as_str()),
            Error::UnknownPeripheral(id) => joined("There is no peripheral with id: ", id.as_str()),
            Error::CharacNotAvailable(uuid) => {
                let mut text = joined("Characteristic ", uuid.as_str());
                text.append(" not available");
                text
            },
            Error::NoDeviceConnected => "No device connected".to_owned(),
            Error::AlreadyConnected => "Device is already connected.".to_owned(),
            Error::HandlerNotInitialized => "Handler not initialized".to_owned(),
            Error::SendingState(_) => "could not send State: channel closed".to_owned(),
            Error::NoAdapters => "no bluetooth adapters found".to_owned(),
            Error::DisconnectFailed => "Unknonwn error during disconnect".to_owned(),
            Error::ConnectionFailed => "Unknown error during connect".to_owned(),
            Error::InvalidFilterMask => "Mask must match manufacturer data length".to_owned(),
            Error::Timeout(cmd) => joined("Timeout during execution of ", cmd.as_str()),
            Error::JoinError(why) => joined("Failed to join Task: ", why.as_str()),
            Error::Android(why) => joined("android: ", why.as_str()),
        }
    }
}

} // verus!
