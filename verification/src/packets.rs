use vstd::prelude::*;

use crate::frame::CanFrame;
use crate::hex_codec::u32_to_upper_hex;
use crate::hex_codec::upper_hex_chars;

verus! {

/// One received frame as it is reported: the identifier and each
/// payload byte rendered as upper-case hex with natural digits only.
#[derive(Debug)]
pub struct CanData {
    pub id: String,
    pub data: Vec<String>,
}

/// `c` is the rendering of frame `f`.
pub open spec fn renders_frame(c: CanData, f: CanFrame) -> bool {
    &&& c.id@ == upper_hex_chars(f.id as nat)
    &&& c.data@.len() == f.data@.len()
    &&& forall|i: int|
        0 <= i < f.data@.len() ==> (#[trigger] c.data@[i])@ == upper_hex_chars(f.data@[i] as nat)
}

/// The outcome of a wait operation: whether it succeeded, and the
/// received frames in arrival order, not deduplicated, bounded by the
/// operation's packet limit. Discarded once the response is produced.
#[derive(Debug)]
pub struct Packets {
    pub success: Option<bool>,
    pub frames: Vec<CanData>,
}

/// Renders one frame for output: the identifier and each payload byte
/// as upper-case hex.
pub fn encode_frame(frame: &CanFrame) -> (r: CanData)
    ensures
        renders_frame(r, *frame),
{
    let id = u32_to_upper_hex(frame.id);
    let mut data: Vec<String> = Vec::new();
    let mut i: usize = 0;
    while i < frame.data.len()
        invariant
            i <= frame.data@.len(),
            data@.len() == i,
            forall|k: int|
                0 <= k < i ==> (#[trigger] data@[k])@ == upper_hex_chars(frame.data@[k] as nat),
        decreases frame.data@.len() - i,
    {
        data.push(u32_to_upper_hex(frame.data[i] as u32));
        i += 1;
    }
    CanData { id, data }
}

impl Packets {
    /// An empty collection with the outcome still undecided.
    pub fn new() -> (r: Packets)
        ensures
            r.success is None,
            r.frames@.len() == 0,
    {
        Packets { success: None, frames: Vec::new() }
    }

    /// Appends one received frame, rendered, preserving arrival order.
    pub fn add_frame(&mut self, frame: CanFrame)
        ensures
            final(self).success == old(self).success,
            final(self).frames@.len() == old(self).frames@.len() + 1,
            final(self).frames@.drop_last() == old(self).frames@,
            renders_frame(final(self).frames@.last(), frame),
    {
        let rendered = encode_frame(&frame);
        self.frames.push(rendered);
        proof {
            assert(self.frames@.drop_last() =~= old(self).frames@);
        }
    }
}

} // verus!
