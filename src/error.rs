//! Errors of the string-keyed model.
use vstd::prelude::*;

use crate::schema::{device_text, Command, Device};

verus! {

pub type Result<T> = core::result::Result<T, GoveeError>;

/// Errors raised by the string-keyed model before anything is sent.
#[derive(Debug)]
pub enum GoveeError {
    /// A value outside its accepted range, with a message naming the range.
    Error(String),
    /// A devices response without any devices.
    NoDevicesReturned(),
    /// A command that the device does not list.
    Unsupported(Command, Box<Device>),
}

impl GoveeError {
    /// A human-readable description of the error.
    pub fn message(&self) -> (r: String)
        ensures
            self is Error ==> r@ == self->Error_0@,
            self is NoDevicesReturned ==> r@ == "No devices were returned from the API"@,
            self is Unsupported ==> r@ == "Unsupported command '"@ + self->Unsupported_0.spec_name()
                + "' for '"@ + device_text(*self->Unsupported_1) + "'"@,
    {
        match self {
            GoveeError::Error(msg) => msg.clone(),
            GoveeError::NoDevicesReturned() => "No devices were returned from the API".to_owned(),
            GoveeError::Unsupported(cmd, device) => {
                let mut out = String::new();
                out.append("Unsupported command '");
                out.append(cmd.name());
                out.append("' for '");
                let text = device.describe();
                out.append(text.as_str());
                out.append("'");
                assert(out@ =~= "Unsupported command '"@ + cmd.spec_name() + "' for '"@ + device_text(
                    **device,
                ) + "'"@);
                out
            },
        }
    }
}

} // verus!
