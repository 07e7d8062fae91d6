use vstd::prelude::*;

verus! {

/// The text that lossy UTF-8 decoding makes of a sequence of bytes: valid
/// sequences become their characters, invalid ones the replacement character.
pub uninterp spec fn lossy_text(bytes: Seq<u8>) -> Seq<char>;

/// Whether every byte is an ASCII character.
pub open spec fn is_ascii(bytes: Seq<u8>) -> bool {
    forall|i: int| 0 <= i < bytes.len() ==> bytes[i] < 128
}

/// The text of a sequence of ASCII bytes: each byte is one character.
pub open spec fn ascii_text(bytes: Seq<u8>) -> Seq<char> {
    Seq::new(bytes.len(), |i: int| bytes[i] as char)
}

/// The text that a line of raw output stands for. ASCII bytes stand for
/// themselves; any other line is decoded with substitution.
pub open spec fn line_text(bytes: Seq<u8>) -> Seq<char> {
    if is_ascii(bytes) {
        ascii_text(bytes)
    } else {
        lossy_text(bytes)
    }
}

/// Calls `String::from_utf8_lossy` and takes ownership of what it returns.
/// Believed, not proved: the result is the lossy decoding of `bytes`, a
/// function of the bytes alone; and bytes that are all ASCII, which are
/// valid UTF-8, come back unchanged, one character for each byte.
#[verifier::external_body]
fn from_utf8_lossy(bytes: &[u8]) -> (text: String)
    ensures
        text@ == lossy_text(bytes@),
        is_ascii(bytes@) ==> text@ == ascii_text(bytes@),
{
    String::from_utf8_lossy(bytes).into_owned()
}

/// Decodes the raw bytes of a line into text. This never fails: bytes that
/// are not valid UTF-8 are replaced, not rejected.
pub fn decode_line(bytes: &[u8]) -> (text: String)
    ensures
        text@ == line_text(bytes@),
{
    from_utf8_lossy(bytes)
}

} // verus!
