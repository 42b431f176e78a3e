use vstd::prelude::*;

use crate::errors::RelayError;

verus! {

/// The largest standard (11-bit) arbitration identifier.
pub const MAX_STANDARD_ID: u32 = 0x7FF;

/// The payload capacity of one CAN frame, in bytes.
pub const MAX_FRAME_BYTES: usize = 8;

/// One CAN frame as this relay sends and receives it: a standard (11-bit)
/// arbitration identifier and up to eight payload bytes. The extended and
/// remote flags of the wire format are never set by this system, so they
/// do not appear here.
#[derive(Debug)]
pub struct CanFrame {
    pub id: u32,
    pub data: Vec<u8>,
}

impl CanFrame {
    /// A frame the bus will accept: identifier within the standard range,
    /// payload within the frame capacity.
    pub open spec fn wf(self) -> bool {
        self.id <= MAX_STANDARD_ID && self.data@.len() <= MAX_FRAME_BYTES
    }

    /// Builds a frame, rejecting an out-of-range identifier or an
    /// oversized payload.
    pub fn new(id: u32, data: Vec<u8>) -> (r: Result<CanFrame, RelayError>)
        ensures
            r matches Ok(f) <==> id <= MAX_STANDARD_ID && data@.len() <= MAX_FRAME_BYTES,
            r matches Ok(f) ==> f.id == id && f.data@ == data@ && f.wf(),
            r matches Err(e) ==> e == RelayError::FrameBuild,
    {
        if id > MAX_STANDARD_ID || data.len() > MAX_FRAME_BYTES {
            Err(RelayError::FrameBuild)
        } else {
            Ok(CanFrame { id, data })
        }
    }
}

} // verus!
