use vstd::prelude::*;

verus! {

/// The normalized outcome handed back to the caller of the forwarder.
#[derive(Debug, Clone, PartialEq, Eq)]
pub struct StatusResult {
    /// Human-readable status message.
    pub status: String,
    /// Whether the backend accepted the purchase.
    pub exito: bool,
}

/// Mathematical model of a `StatusResult`.
pub struct StatusModel {
    pub status: Seq<char>,
    pub exito: bool,
}

impl View for StatusResult {
    type V = StatusModel;

    open spec fn view(&self) -> StatusModel {
        StatusModel { status: self.status@, exito: self.exito }
    }
}

/// Message reported when the relay backend could not be reached at all.
pub open spec fn connect_error_message() -> Seq<char> {
    "Connect Error"@
}

/// Message reported when the relay backend answered outside the 2xx class.
pub open spec fn bridge_error_message() -> Seq<char> {
    "Bridge Error"@
}

/// Message reported when the relay backend's 2xx body could not be decoded.
pub open spec fn decode_error_message() -> Seq<char> {
    "Decode Error"@
}

/// A failed outcome carrying the given message.
pub open spec fn failure_model(message: Seq<char>) -> StatusModel {
    StatusModel { status: message, exito: false }
}

impl StatusResult {
    /// A result that reports failure with the given message.
    pub fn failure(message: &str) -> (r: StatusResult)
        ensures
            r@ == failure_model(message@),
    {
        StatusResult { status: String::from_str(message), exito: false }
    }

    /// The relay backend could not be reached.
    pub fn connect_error() -> (r: StatusResult)
        ensures
            r@ == failure_model(connect_error_message()),
    {
        StatusResult::failure("Connect Error")
    }

    /// The relay backend answered with a status code outside the 2xx class.
    pub fn bridge_error() -> (r: StatusResult)
        ensures
            r@ == failure_model(bridge_error_message()),
    {
        StatusResult::failure("Bridge Error")
    }

    /// The relay backend's body could not be decoded.
    pub fn decode_error() -> (r: StatusResult)
        ensures
            r@ == failure_model(decode_error_message()),
    {
        StatusResult::failure("Decode Error")
    }
}

} // verus!
