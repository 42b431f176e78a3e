use vstd::prelude::*;

use crate::errors::RelayError;
use crate::frame::CanFrame;
use crate::frame::MAX_FRAME_BYTES;
use crate::frame::MAX_STANDARD_ID;
use crate::hex_codec::decode_payload;
use crate::hex_codec::hex_bytes;
use crate::hex_codec::hex_number_value;
use crate::hex_codec::parse_hex_u32;
use crate::hex_codec::u32_parses;
use crate::hex_codec::valid_hex_string;

verus! {

/// The inputs of a send request that yield a transmittable frame: an
/// identifier that parses and fits the standard range, and a payload
/// that decodes to at most eight bytes.
pub open spec fn send_request_ok(id: Seq<char>, data: Seq<char>) -> bool {
    &&& u32_parses(id)
    &&& hex_number_value(id) <= MAX_STANDARD_ID
    &&& valid_hex_string(data)
    &&& hex_bytes(data).len() <= MAX_FRAME_BYTES
}

/// The pure half of the send operation: turns the request's identifier
/// and payload hex into the frame to transmit, raw (no ISO-TP prefix,
/// no padding). A malformed field is a decode failure — never a crash
/// of the serving process; an out-of-range identifier or an oversized
/// payload is a frame-build failure. The caller opens the bus, sends
/// the frame with forced retry, and counts the send only on success.
pub fn prepare_send(id_hex: &str, data_hex: &str) -> (r: Result<CanFrame, RelayError>)
    ensures
        r matches Ok(f) <==> send_request_ok(id_hex@, data_hex@),
        r matches Ok(f) ==> {
            &&& f.wf()
            &&& f.id as nat == hex_number_value(id_hex@)
            &&& f.data@ == hex_bytes(data_hex@)
        },
        !u32_parses(id_hex@) ==> (r matches Err(e) && e == RelayError::Decode),
        u32_parses(id_hex@) && hex_number_value(id_hex@) > MAX_STANDARD_ID ==> (r matches Err(e)
            && e == RelayError::FrameBuild),
        u32_parses(id_hex@) && hex_number_value(id_hex@) <= MAX_STANDARD_ID && !valid_hex_string(
            data_hex@,
        ) ==> (r matches Err(e) && e == RelayError::Decode),
        u32_parses(id_hex@) && hex_number_value(id_hex@) <= MAX_STANDARD_ID && valid_hex_string(
            data_hex@,
        ) && hex_bytes(data_hex@).len() > MAX_FRAME_BYTES ==> (r matches Err(e) && e
            == RelayError::FrameBuild),
{
    let id = match parse_hex_u32(id_hex) {
        Some(v) => v,
        None => {
            return Err(RelayError::Decode);
        },
    };
    if id > MAX_STANDARD_ID {
        return Err(RelayError::FrameBuild);
    }
    let data = match decode_payload(data_hex) {
        Ok(d) => d,
        Err(e) => {
            return Err(e);
        },
    };
    CanFrame::new(id, data)
}

} // verus!
