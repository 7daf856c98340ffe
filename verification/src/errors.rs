use vstd::prelude::*;

verus! {

/// An opaque error value handed back by the external modem/GNSS/TLS/AT
/// capability. The console treats it purely as data to report; it never
/// branches on what is inside.
#[derive(Clone, Copy, PartialEq, Eq, Structural, Debug)]
pub struct DeviceError {
    pub code: i32,
}

/// A failure of one console command: the external capability refused a step,
/// or the console's own UART write or read failed.
#[derive(Clone, Copy, PartialEq, Eq, Structural, Debug)]
pub enum Error {
    Device(DeviceError),
    WriteError,
    ReadError,
}

impl From<DeviceError> for Error {
    fn from(e: DeviceError) -> (r: Error) {
        Error::Device(e)
    }
}

impl vstd::std_specs::convert::FromSpecImpl<DeviceError> for Error {
    open spec fn obeys_from_spec() -> bool {
        true
    }

    open spec fn from_spec(e: DeviceError) -> Error {
        Error::Device(e)
    }
}

} // verus!
