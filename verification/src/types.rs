//! The values that peers exchange and that commands print.
use vstd::prelude::*;

verus! {

/// One configured peer: its alias and its socket address as text.
#[derive(Debug, Clone, PartialEq, Eq)]
pub struct DeviceEntry {
    pub alias: String,
    pub address: String,
}

impl DeviceEntry {
    /// A field-by-field copy.
    pub fn duplicate(&self) -> (r: DeviceEntry)
        ensures
            r.alias@ == self.alias@,
            r.address@ == self.address@,
    {
        DeviceEntry { alias: self.alias.clone(), address: self.address.clone() }
    }
}

/// Body of a successful clipboard read.
#[derive(Debug, Clone, PartialEq, Eq)]
pub struct ClipboardReadResponse {
    pub text: String,
}

/// Body of a clipboard write request.
#[derive(Debug, Clone, PartialEq, Eq)]
pub struct ClipboardWriteRequest {
    pub text: String,
}

/// Body of a successful clipboard write.
#[derive(Debug, Clone, PartialEq, Eq)]
pub struct ApiStatusResponse {
    pub ok: bool,
    pub message: String,
}

/// Body of every failed request.
#[derive(Debug, Clone, PartialEq, Eq)]
pub struct ApiErrorResponse {
    pub ok: bool,
    pub error: String,
}

} // verus!
