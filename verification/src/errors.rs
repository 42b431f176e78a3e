use vstd::prelude::*;

verus! {

/// The ways a relay operation can fail. Every failure short-circuits the
/// current operation to a `success = false` outcome; none of them is a
/// process-level fault. A receive timeout is not an error (it is an
/// ordinary outcome of a bounded read) and so has no variant here.
#[derive(Clone, Copy, Debug, PartialEq, Eq, Structural)]
pub enum RelayError {
    /// The named bus interface could not be opened.
    Open,
    /// A hex string (payload, identifier or padding byte) is malformed.
    Decode,
    /// The receive filter was rejected by the bus.
    Filter,
    /// An identifier or payload is out of range for a frame.
    FrameBuild,
    /// The driver or queue rejected the transmit.
    Transmit,
    /// Restoring the accept-all filter failed.
    FilterReset,
}

} // verus!
