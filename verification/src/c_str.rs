//! C strings: what the platform takes for a name or for a line of text.

use vstd::prelude::*;

verus! {

/// The C string that holds `bytes`: the bytes, and a zero byte after them.
/// Bytes that hold a zero themselves cannot be held by a C string.
pub open spec fn c_string_of(bytes: Seq<u8>) -> Option<Seq<u8>> {
    if bytes.contains(0u8) {
        None
    } else {
        Some(bytes.push(0u8))
    }
}

/// Makes a C string of `bytes`, if they can be held by one.
pub fn c_string(bytes: &[u8]) -> (out: Option<Vec<u8>>)
    ensures
        (match out {
            Some(terminated) => c_string_of(bytes@) == Some(terminated@),
            None => c_string_of(bytes@) is None,
        }),
{
    let mut terminated: Vec<u8> = Vec::new();
    let mut i: usize = 0;
    while i < bytes.len()
        invariant
            i <= bytes.len(),
            terminated@ == bytes@.take(i as int),
            !bytes@.take(i as int).contains(0u8),
        decreases bytes.len() - i,
    {
        let byte: u8 = bytes[i];
        if byte == 0 {
            assert(bytes@[i as int] == 0u8);
            return None;
        }
        terminated.push(byte);
        assert(bytes@.take(i + 1) =~= bytes@.take(i as int).push(byte));
        i = i + 1;
    }
    assert(bytes@.take(i as int) =~= bytes@);
    terminated.push(0);
    Some(terminated)
}

} // verus!
