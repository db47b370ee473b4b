//! Byte-level building blocks for the wire format, and the one trusted
//! conversion from captured bytes back to a `String`.
use vstd::prelude::*;
use vstd::string::StringSliceAdditionalSpecFns;
use vstd::utf8::valid_first_scalar;
use vstd::utf8::valid_utf8;
use vstd::utf8::encode_utf8;

verus! {

/// Appends the UTF-8 bytes of `s` to `v`.
pub fn append_str_bytes(v: &mut Vec<u8>, s: &str)
    ensures
        final(v)@ == old(v)@ + s.spec_bytes(),
{
    let ghost v0 = v@;
    let bytes = s.as_bytes();
    let mut i: usize = 0;
    while i < bytes.len()
        invariant
            i <= bytes@.len(),
            bytes@ == s.spec_bytes(),
            v@ == v0 + bytes@.subrange(0, i as int),
        decreases bytes@.len() - i,
    {
        v.push(bytes[i]);
        assert(v@ =~= v0 + bytes@.subrange(0, i + 1 as int));
        i += 1;
    }
    assert(v0 + bytes@.subrange(0, bytes@.len() as int) =~= v0 + bytes@);
}

/// A sequence of ASCII bytes is valid UTF-8: each byte on its own is the
/// width-1 encoding of its own code.
pub proof fn lemma_ascii_bytes_valid_utf8(bytes: Seq<u8>)
    requires
        forall|i: int| 0 <= i < bytes.len() ==> #[trigger] bytes[i] < 128,
    ensures
        valid_utf8(bytes),
    decreases bytes.len(),
{
    if bytes.len() > 0 {
        let b = bytes[0];
        assert(b & 0x7f == b) by (bit_vector)
            requires
                b < 128,
        ;
        assert(valid_first_scalar(bytes));
        assert(vstd::utf8::length_of_first_scalar(bytes) == 1);
        let rest = vstd::utf8::pop_first_scalar(bytes);
        assert(rest =~= bytes.subrange(1, bytes.len() as int));
        lemma_ascii_bytes_valid_utf8(rest);
    }
}

/// Relies on `String::from_utf8`: it succeeds exactly on valid UTF-8 input,
/// and on success the returned string's UTF-8 encoding is the input bytes.
#[verifier::external_body]
pub(crate) fn string_from_utf8_bytes(v: Vec<u8>) -> (r: Option<String>)
    ensures
        r matches Some(s) ==> encode_utf8(s@) == v@,
        r is None ==> !valid_utf8(v@),
{
    match String::from_utf8(v) {
        Ok(s) => Some(s),
        Err(_) => None,
    }
}

} // verus!
