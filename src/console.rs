//! Byte handling of the debug console.
use vstd::prelude::*;

verus! {

/// The bytes sent for `bytes`: each line feed goes out as carriage return
/// and line feed.
pub open spec fn crlf(bytes: Seq<u8>) -> Seq<u8>
    decreases bytes.len(),
{
    if bytes.len() == 0 {
        seq![]
    } else {
        let prev = crlf(bytes.drop_last());
        if bytes.last() == 10u8 {
            prev + seq![13u8, 10u8]
        } else {
            prev.push(bytes.last())
        }
    }
}

/// The bytes to put on the wire for `bytes`.
pub fn expand_newlines(bytes: &[u8]) -> (r: Vec<u8>)
    ensures
        r@ == crlf(bytes@),
{
    let mut out: Vec<u8> = Vec::new();
    let mut i: usize = 0;
    while i < bytes.len()
        invariant
            i <= bytes@.len(),
            out@ == crlf(bytes@.take(i as int)),
        decreases bytes@.len() - i,
    {
        let c = bytes[i];
        proof {
            assert(bytes@.take(i as int + 1).drop_last() =~= bytes@.take(i as int));
        }
        if c == 10u8 {
            out.push(13u8);
            out.push(10u8);
        } else {
            out.push(c);
        }
        assert(out@ =~= crlf(bytes@.take(i as int + 1)));
        i = i + 1;
    }
    assert(bytes@.take(bytes@.len() as int) =~= bytes@);
    out
}

} // verus!
