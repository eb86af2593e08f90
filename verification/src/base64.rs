//! Base64 text, as the `data_encoding` crate reads and writes it.
use crate::text;
use vstd::prelude::*;
use vstd::string::StringExecFns;

verus! {

/// What is wrong with a text that is not Base64.
#[derive(Clone, Copy, Debug, PartialEq, Eq, Structural)]
pub enum Base64ErrorKind {
    /// The length is not one that the encoding produces.
    Length,
    /// A character outside the alphabet.
    Symbol,
    /// Bits that are cut off are not zero.
    Trailing,
    /// Padding of a length that does not occur.
    Padding,
}

/// Where a text stops being Base64, and why.
#[derive(Clone, Copy, Debug, PartialEq, Eq, Structural)]
pub struct Base64Error {
    pub position: usize,
    pub kind: Base64ErrorKind,
}

/// The bytes that a text stands for, or why it stands for none.
pub type Base64Bytes = Result<Seq<u8>, Base64Error>;

/// The Base64 text of `data`: what `data_encoding::BASE64.encode` returns for
/// it.
pub uninterp spec fn base64_text(data: Seq<u8>) -> Seq<char>;

/// What `data_encoding::BASE64.decode` returns for the bytes of a text.
pub uninterp spec fn base64_bytes(text: Seq<u8>) -> Base64Bytes;

/// Whether padding stands nowhere but in the last group of four characters.
pub open spec fn padded_at_the_end(text: Seq<u8>) -> bool {
    forall|i: int| 0 <= i < text.len() - 4 ==> text[i] != 0x3d
}

/// Whether `text` is what encoding `data` gives, unless padded groups were
/// joined in it or `data` is too long to be encoded.
pub open spec fn is_text_of(text: Seq<u8>, data: Seq<u8>) -> bool {
    padded_at_the_end(text) && data.len() <= usize::MAX / 512 ==> vstd::utf8::encode_utf8(
        base64_text(data),
    ) == text
}

/// `data_encoding::BASE64.encode`. Its result is named [`base64_text`]; of it
/// the contract claims that decoding gives `data` back, which the crate's
/// documentation promises of every encoding. `encode` panics beyond the length
/// in `requires`.
#[verifier::external_body]
pub(crate) fn base64_encode(data: &[u8]) -> (text: String)
    requires
        data@.len() <= usize::MAX / 512,
    ensures
        text@ == base64_text(data@),
        base64_bytes(vstd::utf8::encode_utf8(text@)) == Base64Bytes::Ok(data@),
{
    data_encoding::BASE64.encode(data)
}

/// `data_encoding::BASE64.decode`. Its result is named [`base64_bytes`]; of it
/// the contract claims that no more than three bytes come out of every four
/// characters (`decode_len` gives that maximum), and that a text that decodes is
/// the one that the bytes are encoded to. The latter holds but for padding in
/// front of the last group: every character of `BASE64` stands for another
/// value, bits that are cut off have to be zero, and the length of padding is
/// checked, but padded groups may be joined. `decode` panics beyond the length in
/// `requires`.
#[verifier::external_body]
pub(crate) fn base64_decode(text: &[u8]) -> (data: Result<Vec<u8>, Base64Error>)
    requires
        text@.len() <= usize::MAX / 8,
    ensures
        match data {
            Ok(bytes) => base64_bytes(text@) == Base64Bytes::Ok(bytes@),
            Err(error) => base64_bytes(text@) == Base64Bytes::Err(error),
        },
        data matches Ok(bytes) ==> bytes@.len() <= text@.len() / 4 * 3,
        data matches Ok(bytes) ==> is_text_of(text@, bytes@),
{
    data_encoding::BASE64.decode(text).map_err(
        |error|
            Base64Error {
                position: error.position,
                kind: match error.kind {
                    data_encoding::DecodeKind::Length => Base64ErrorKind::Length,
                    data_encoding::DecodeKind::Symbol => Base64ErrorKind::Symbol,
                    data_encoding::DecodeKind::Trailing => Base64ErrorKind::Trailing,
                    data_encoding::DecodeKind::Padding => Base64ErrorKind::Padding,
                },
            },
    )
}

impl Base64ErrorKind {
    pub open spec fn text(self) -> Seq<char> {
        match self {
            Base64ErrorKind::Length => "invalid length"@,
            Base64ErrorKind::Symbol => "invalid symbol"@,
            Base64ErrorKind::Trailing => "non-zero trailing bits"@,
            Base64ErrorKind::Padding => "invalid padding length"@,
        }
    }
}

impl Base64Error {
    pub open spec fn text(self) -> Seq<char> {
        self.kind.text() + " at "@ + text::decimal_text(self.position as nat)
    }

    /// The error in words: the kind, and the position it occurs at.
    pub fn message(&self) -> (message: String)
        ensures
            message@ == self.text(),
    {
        let mut message = match self.kind {
            Base64ErrorKind::Length => "invalid length",
            Base64ErrorKind::Symbol => "invalid symbol",
            Base64ErrorKind::Trailing => "non-zero trailing bits",
            Base64ErrorKind::Padding => "invalid padding length",
        }.to_owned();
        message.append(" at ");
        message.append(text::decimal(self.position as u64).as_str());
        message
    }
}

/// An error in words is its kind, and the position in base ten.
pub proof fn law_base64_error_texts(error: Base64Error)
    ensures
        ({
            let at = " at "@ + text::decimal_text(error.position as nat);
            &&& error.kind is Length ==> error.text() == "invalid length"@ + at
            &&& error.kind is Symbol ==> error.text() == "invalid symbol"@ + at
            &&& error.kind is Trailing ==> error.text() == "non-zero trailing bits"@ + at
            &&& error.kind is Padding ==> error.text() == "invalid padding length"@ + at
        }),
{
    let number = text::decimal_text(error.position as nat);
    assert(error.text() =~= error.kind.text() + (" at "@ + number));
}

/// Padding stands only at the end of a text when nothing but its last four
/// characters can be a padding character, and only then.
pub proof fn law_padded_at_the_end(text: Seq<u8>)
    ensures
        padded_at_the_end(text) <==> (forall|i: int|
            0 <= i < text.len() - 4 ==> text[i] != 0x3d),
{
}

} // verus!
