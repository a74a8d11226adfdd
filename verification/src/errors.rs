use vstd::prelude::*;

verus! {

/// Error taxonomy of the library.
///
/// Discovery and connection failures are fatal to session construction;
/// mutation failures are reported to the caller of the failing operation and
/// never stop the gesture loop.
#[derive(Debug)]
#[non_exhaustive]
pub enum InstanceError {
    /// Discovery failed: the transport could not be initialised, or no
    /// candidate device was visible, or the device identity could not be read.
    CreationError(String),
    /// A device was visible but the exclusive connection could not be
    /// established.
    UnableToConnect,
    /// The background image path did not lead to a decodable image.
    PathNotFound,
    /// The device or transport rejected a request at runtime; its message is
    /// kept verbatim.
    Generic(String),
}

/// The human-readable message that `InstanceError::message` returns.
pub open spec fn spec_message(e: InstanceError) -> Seq<char> {
    match e {
        InstanceError::CreationError(m) => "Unable to create instance, reason "@ + m@,
        InstanceError::UnableToConnect => "Unable to connect to the device"@,
        InstanceError::PathNotFound => "The path provided wasn't found"@,
        InstanceError::Generic(m) => m@,
    }
}

impl InstanceError {
    /// Renders the error for an operator, one fixed phrase per variant.
    pub fn message(&self) -> (r: String)
        ensures
            r@ == spec_message(*self),
    {
        match self {
            InstanceError::CreationError(m) => {
                let mut s = "Unable to create instance, reason ".to_owned();
                s.append(m.as_str());
                s
            },
            InstanceError::UnableToConnect => "Unable to connect to the device".to_owned(),
            InstanceError::PathNotFound => "The path provided wasn't found".to_owned(),
            InstanceError::Generic(m) => m.clone(),
        }
    }
}

} // verus!
