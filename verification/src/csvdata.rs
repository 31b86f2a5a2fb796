//! Turning an uploaded dataset's raw bytes into text. Structural validation
//! of the CSV itself is an external collaborator's job; what this core owes
//! is the exact byte-to-text conversion.

use vstd::prelude::*;
use vstd::utf8::{decode_utf8, valid_utf8};

verus! {

/// Decodes an uploaded file's bytes as text: `None` exactly when the bytes
/// are not valid UTF-8.
pub fn csv_bytes_to_string(data: &[u8]) -> (r: Option<String>)
    ensures
        r is Some <==> valid_utf8(data@),
        r matches Some(s) ==> s@ == decode_utf8(data@),
{
    let n = data.len();
    let mut copy: Vec<u8> = Vec::new();
    let mut i: usize = 0;
    while i < n
        invariant
            0 <= i <= n,
            n == data@.len(),
            copy@ == data@.subrange(0, i as int),
        decreases n - i,
    {
        proof {
            assert(data@.subrange(0, i + 1) =~= data@.subrange(0, i as int).push(data@[i as int]));
        }
        copy.push(data[i]);
        i = i + 1;
    }
    proof {
        assert(copy@ =~= data@);
    }
    crate::abi::string_from_utf8(copy)
}

} // verus!
