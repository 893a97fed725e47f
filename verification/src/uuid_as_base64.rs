//! An identifier written as the base64url encoding of its sixteen bytes, the
//! form in which identifiers travel in queries and bodies.
use vstd::prelude::*;

use crate::ids::{
    base64url, base64url_decode, base64url_decode_text, base64url_encode, uuid_from_slice,
    uuid_length_error, UuidBytes,
};

verus! {

/// The text that stands for the identifier `id`.
pub fn serialize(id: &UuidBytes) -> (res: String)
    ensures
        res@ == base64url(id@),
{
    base64url_encode(id)
}

/// The identifier that `text` stands for. A text that is not base64url is
/// refused with the decoder's message; one that decodes to other than sixteen
/// bytes, with the identifier's length message.
pub fn deserialize(text: &str) -> (res: Result<UuidBytes, String>)
    ensures
        match base64url_decode(text@) {
            Err(m) => res matches Err(e) && e@ == m,
            Ok(bytes) => if bytes.len() == 16 {
                res matches Ok(id) && id@ == bytes
            } else {
                res matches Err(e) && e@ == uuid_length_error(bytes.len())
            },
        },
        forall|b: Seq<u8>|
            b.len() == 16 && text@ == base64url(b) ==> (res matches Ok(id) && id@ == b),
{
    id_from_decoded(base64url_decode_text(text))
}

/// The identifier from the result of decoding its text: a decoding error is
/// passed on; decoded bytes are the identifier if there are exactly sixteen.
pub fn id_from_decoded(decoded: Result<Vec<u8>, String>) -> (res: Result<UuidBytes, String>)
    ensures
        match decoded {
            Err(m) => res matches Err(e) && e@ == m@,
            Ok(bytes) => if bytes@.len() == 16 {
                res matches Ok(id) && id@ == bytes@
            } else {
                res matches Err(e) && e@ == uuid_length_error(bytes@.len())
            },
        },
{
    match decoded {
        Err(e) => Err(e),
        Ok(bytes) => uuid_from_slice(bytes.as_slice()),
    }
}

} // verus!
