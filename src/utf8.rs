use vstd::prelude::*;

verus! {

/// What decoding `bytes` as UTF-8 gives: the characters, or the length of
/// the longest valid prefix together with the description of the fault.
pub uninterp spec fn utf8_decoding(bytes: Seq<u8>) -> Result<Seq<char>, (nat, Seq<char>)>;

/// Relies on `String::from_utf8`: it accepts exactly the valid UTF-8 byte
/// sequences, and its error reports the valid prefix (`valid_up_to`, less
/// than the input's length) and a description (its `Display`).
#[verifier::external_body]
pub(crate) fn decode_utf8(bytes: Vec<u8>) -> (r: Result<String, (usize, String)>)
    ensures
        match r {
            Ok(s) => utf8_decoding(bytes@) == Ok::<Seq<char>, (nat, Seq<char>)>(s@),
            Err((offset, detail)) => utf8_decoding(bytes@) == Err::<Seq<char>, (nat, Seq<char>)>(
                (offset as nat, detail@),
            ) && offset < bytes@.len(),
        },
{
    match String::from_utf8(bytes) {
        Ok(s) => Ok(s),
        Err(e) => Err((e.utf8_error().valid_up_to(), e.utf8_error().to_string())),
    }
}

} // verus!
