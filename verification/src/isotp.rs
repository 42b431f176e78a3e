use vstd::prelude::*;

use crate::errors::RelayError;

verus! {

/// The ISO-TP single-frame form of a payload: one length-prefix byte
/// holding the original payload length, then the payload. If the
/// prefixed sequence runs over the eight-byte frame capacity it is
/// truncated to exactly eight bytes (a documented lossy rule: usable
/// payload caps at seven bytes). If it falls short of eight bytes and a
/// padding byte was supplied, it is padded to exactly eight bytes with
/// that byte; with no padding byte the frame stays short.
pub open spec fn isotp_payload(data: Seq<u8>, padding: Option<u8>) -> Seq<u8>
    recommends
        data.len() <= 255,
{
    let prefixed = seq![data.len() as u8] + data;
    if prefixed.len() >= 8 {
        prefixed.take(8)
    } else {
        match padding {
            Some(b) => prefixed + Seq::new((8 - prefixed.len()) as nat, |i: int| b),
            None => prefixed,
        }
    }
}

/// Applies the length-prefix, truncation and padding rules to a decoded
/// payload. A payload over 255 bytes has no representable length prefix
/// and is rejected outright rather than silently wrapped.
pub fn build_isotp_payload(data: &Vec<u8>, padding: Option<u8>) -> (r: Result<
    Vec<u8>,
    RelayError,
>)
    ensures
        r matches Ok(v) <==> data@.len() <= 255,
        r matches Ok(v) ==> v@ == isotp_payload(data@, padding) && v@.len() <= 8,
        r matches Err(e) ==> e == RelayError::FrameBuild,
{
    let n = data.len();
    if n > 255 {
        return Err(RelayError::FrameBuild);
    }
    let mut v: Vec<u8> = Vec::new();
    v.push(n as u8);
    let limit: usize = if n > 7 {
        7
    } else {
        n
    };
    let mut i: usize = 0;
    while i < limit
        invariant
            i <= limit,
            limit <= 7,
            limit <= n,
            n == data@.len(),
            n <= 255,
            v@ == seq![n as u8] + data@.take(i as int),
        decreases limit - i,
    {
        v.push(data[i]);
        assert(data@.take(i + 1 as int) == data@.take(i as int).push(data@[i as int]));
        i += 1;
    }
    assert(v@ == seq![n as u8] + data@.take(limit as int));
    if n >= 7 {
        proof {
            let prefixed = seq![n as u8] + data@;
            assert(prefixed.len() >= 8);
            assert(v@ =~= prefixed.take(8));
        }
        return Ok(v);
    }
    assert(v@ == seq![n as u8] + data@) by {
        assert(data@.take(limit as int) =~= data@);
    }
    match padding {
        Some(b) => {
            while v.len() < 8
                invariant
                    n < 7,
                    n == data@.len(),
                    n + 1 <= v@.len() <= 8,
                    v@.take((n + 1) as int) == seq![n as u8] + data@,
                    forall|j: int| n + 1 <= j < v@.len() ==> v@[j] == b,
                decreases 8 - v@.len(),
            {
                v.push(b);
            }
            proof {
                let prefixed = seq![n as u8] + data@;
                assert(v@ =~= prefixed + Seq::new((8 - prefixed.len()) as nat, |i: int| b));
            }
            Ok(v)
        },
        None => Ok(v),
    }
}

/// Round trip: with no padding, a payload that fits beside its length
/// prefix (at most seven bytes) is carried intact — the frame is the
/// length byte followed by exactly the original bytes.
pub proof fn lemma_isotp_round_trip(data: Seq<u8>)
    requires
        data.len() <= 7,
    ensures
        isotp_payload(data, None).len() == data.len() + 1,
        isotp_payload(data, None)[0] == data.len() as u8,
        isotp_payload(data, None).skip(1) == data,
{
    let out = isotp_payload(data, None);
    if data.len() == 7 {
        assert(out =~= seq![data.len() as u8] + data);
    }
    assert(out.skip(1) =~= data);
}

/// Truncation: a payload whose length-prefixed form runs over eight
/// bytes is cut to exactly eight — the length byte, then the first
/// seven payload bytes — whether or not a padding byte was supplied.
pub proof fn lemma_isotp_truncation(data: Seq<u8>, padding: Option<u8>)
    requires
        8 <= data.len() <= 255,
    ensures
        isotp_payload(data, padding).len() == 8,
        isotp_payload(data, padding) == seq![data.len() as u8] + data.take(7),
{
    assert(isotp_payload(data, padding) =~= seq![data.len() as u8] + data.take(7));
}

/// Padding: when a padding byte is supplied and the prefixed frame is
/// shorter than eight bytes, the output is exactly eight bytes — the
/// prefixed payload, then the padding byte in every remaining position.
pub proof fn lemma_isotp_padding(data: Seq<u8>, b: u8)
    requires
        data.len() < 7,
    ensures
        isotp_payload(data, Some(b)).len() == 8,
        isotp_payload(data, Some(b)).take(data.len() + 1 as int) == seq![data.len() as u8] + data,
        forall|j: int|
            data.len() + 1 <= j < 8 ==> isotp_payload(data, Some(b))[j] == b,
{
    assert(isotp_payload(data, Some(b)).take(data.len() + 1 as int) =~= seq![data.len() as u8] + data);
}

/// No padding is added once the prefixed frame already fills the eight
/// bytes: a seven-byte payload comes out prefixed and otherwise intact
/// even when a padding byte was supplied.
pub proof fn lemma_isotp_padding_full(data: Seq<u8>, b: u8)
    requires
        data.len() == 7,
    ensures
        isotp_payload(data, Some(b)) == seq![data.len() as u8] + data,
{
    assert(isotp_payload(data, Some(b)) =~= seq![data.len() as u8] + data);
}

} // verus!
