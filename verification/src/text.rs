//! Text fields: a fixed buffer that holds a NUL-terminated UTF-8 string.

use crate::error::NsrtError;
use vstd::prelude::*;
use vstd::slice::{slice_subrange, slice_to_vec};
use vstd::string::StringSliceAdditionalSpecFns;
use vstd::utf8::{
    decode_utf8, encode_utf8, encode_utf8_decode_utf8, encode_utf8_valid_utf8, valid_utf8,
};

verus! {

/// The size of a text field on the wire.
pub const TEXT_LEN: usize = 32;

/// The longest user id, in bytes, that leaves room for the terminator.
pub const USER_ID_MAX: usize = 31;

/// How many bytes stand before the first NUL of `field`; all of them, if
/// it holds none.
pub open spec fn text_end(field: Seq<u8>) -> nat
    decreases field.len(),
{
    if field.len() == 0 || field[0] == 0 {
        0
    } else {
        1 + text_end(field.drop_first())
    }
}

/// The bytes of `field` before its first NUL.
pub open spec fn text_bytes(field: Seq<u8>) -> Seq<u8> {
    field.subrange(0, text_end(field) as int)
}

/// `text_end` is the place of the first NUL: no byte before it is NUL, and
/// the byte there is, unless the field is over.
pub proof fn text_end_is_first_nul(field: Seq<u8>)
    ensures
        text_end(field) <= field.len(),
        forall|j: int| 0 <= j < text_end(field) ==> field[j] != 0,
        text_end(field) < field.len() ==> field[text_end(field) as int] == 0,
    decreases field.len(),
{
    if field.len() != 0 && field[0] != 0 {
        let rest = field.drop_first();
        text_end_is_first_nul(rest);
        assert forall|j: int| 0 <= j < text_end(field) implies field[j] != 0 by {
            if j > 0 {
                assert(field[j] == rest[j - 1]);
            }
        }
        assert(text_end(field) < field.len() ==> field[text_end(field) as int] == rest[text_end(
            rest,
        ) as int]);
    }
}

/// A place that no NUL stands before, and where one stands or the field is
/// over, is `text_end`.
pub proof fn first_nul_is_text_end(field: Seq<u8>, n: int)
    requires
        0 <= n <= field.len(),
        forall|j: int| 0 <= j < n ==> field[j] != 0,
        n < field.len() ==> field[n] == 0,
    ensures
        text_end(field) == n,
    decreases field.len(),
{
    if n > 0 {
        let rest = field.drop_first();
        assert(field[0] != 0);
        assert forall|j: int| 0 <= j < n - 1 implies rest[j] != 0 by {
            assert(rest[j] == field[j + 1]);
        }
        first_nul_is_text_end(rest, n - 1);
    }
}

/// How many bytes stand before the first NUL of `field`.
pub fn text_length(field: &[u8]) -> (n: usize)
    ensures
        n == text_end(field@),
{
    let mut i: usize = 0;
    while i < field.len() && field[i] != 0
        invariant
            i <= field.len(),
            forall|j: int| 0 <= j < i ==> field@[j] != 0,
        decreases field.len() - i,
    {
        i += 1;
    }
    proof {
        first_nul_is_text_end(field@, i as int);
    }
    i
}

/// `std::str::from_utf8`: the bytes as a string slice, if they are UTF-8.
/// The contract says that the call succeeds exactly on valid UTF-8 and that
/// the slice it gives is made of the very bytes it was given.
#[verifier::external_body]
fn str_from_utf8(bytes: &[u8]) -> (text: Result<&str, std::str::Utf8Error>)
    ensures
        text is Ok <==> valid_utf8(bytes@),
        text matches Ok(s) ==> s.spec_bytes() == bytes@,
{
    std::str::from_utf8(bytes)
}

/// The text in a field of [`TEXT_LEN`] bytes: what stands before the first
/// NUL, read as UTF-8.  Bytes after the field are not looked at.
///
/// A buffer shorter than the field, and a field without a NUL, are invalid
/// responses.  Text that is not UTF-8 is a UTF-8 error.
pub fn decode_text(data: &[u8]) -> (result: Result<String, NsrtError>)
    ensures
        match result {
            Ok(text) => {
                &&& data@.len() >= TEXT_LEN
                &&& text_end(data@.subrange(0, TEXT_LEN as int)) < TEXT_LEN
                &&& valid_utf8(text_bytes(data@.subrange(0, TEXT_LEN as int)))
                &&& text@ == decode_utf8(text_bytes(data@.subrange(0, TEXT_LEN as int)))
            },
            Err(NsrtError::InvalidResponse) => {
                data@.len() < TEXT_LEN || text_end(data@.subrange(0, TEXT_LEN as int))
                    == TEXT_LEN
            },
            Err(NsrtError::Utf8Error(_)) => {
                &&& data@.len() >= TEXT_LEN
                &&& text_end(data@.subrange(0, TEXT_LEN as int)) < TEXT_LEN
                &&& !valid_utf8(text_bytes(data@.subrange(0, TEXT_LEN as int)))
            },
            Err(_) => false,
        },
{
    if data.len() < TEXT_LEN {
        return Err(NsrtError::InvalidResponse);
    }
    let field = slice_subrange(data, 0, TEXT_LEN);
    let end = text_length(field);
    if end >= TEXT_LEN {
        proof {
            text_end_is_first_nul(field@);
        }
        return Err(NsrtError::InvalidResponse);
    }
    match str_from_utf8(slice_subrange(field, 0, end)) {
        Ok(text) => {
            proof {
                encode_utf8_decode_utf8(text@);
            }
            Ok(text.to_string())
        },
        Err(error) => Err(NsrtError::Utf8Error(error)),
    }
}

/// The payload that sets the user id: the text's bytes and a NUL after
/// them.  Text of more than [`USER_ID_MAX`] bytes is refused.
pub fn encode_user_id(user_id: &str) -> (result: Result<Vec<u8>, NsrtError>)
    ensures
        user_id.spec_bytes().len() <= USER_ID_MAX ==> (result matches Ok(data) && data@
            == user_id.spec_bytes() + seq![0u8]),
        user_id.spec_bytes().len() > USER_ID_MAX ==> (result matches Err(
            NsrtError::InvalidParameter(why),
        ) && why@ == "User ID too long"@),
{
    let bytes = user_id.as_bytes();
    if bytes.len() > USER_ID_MAX {
        return Err(NsrtError::InvalidParameter("User ID too long".to_string()));
    }
    let mut data = slice_to_vec(bytes);
    data.push(0);
    Ok(data)
}

/// A user id that was written is read back.  Text that holds no NUL and
/// whose bytes fit is found again in any field that begins with the payload
/// of [`encode_user_id`], whatever fills the rest of the field.
pub proof fn user_id_round_trip(user_id: Seq<char>, field: Seq<u8>)
    requires
        encode_utf8(user_id).len() <= USER_ID_MAX,
        forall|i: int| 0 <= i < encode_utf8(user_id).len() ==> encode_utf8(user_id)[i] != 0,
        field.len() == TEXT_LEN,
        field.subrange(0, encode_utf8(user_id).len() as int + 1) == encode_utf8(user_id) + seq![
            0u8
        ],
    ensures
        text_end(field) == encode_utf8(user_id).len(),
        text_bytes(field) == encode_utf8(user_id),
        valid_utf8(text_bytes(field)),
        decode_utf8(text_bytes(field)) == user_id,
{
    let bytes = encode_utf8(user_id);
    let payload = bytes + seq![0u8];
    let n = bytes.len() as int;
    assert forall|j: int| 0 <= j < n implies field[j] != 0 by {
        assert(field[j] == field.subrange(0, n + 1)[j]);
        assert(payload[j] == bytes[j]);
    }
    assert(field[n] == 0) by {
        assert(field[n] == field.subrange(0, n + 1)[n]);
        assert(payload[n] == 0);
    }
    first_nul_is_text_end(field, n);
    assert(text_bytes(field) =~= bytes) by {
        assert forall|j: int| 0 <= j < n implies field.subrange(0, n)[j] == bytes[j] by {
            assert(field[j] == field.subrange(0, n + 1)[j]);
            assert(payload[j] == bytes[j]);
        }
    }
    encode_utf8_valid_utf8(user_id);
    encode_utf8_decode_utf8(user_id);
}

} // verus!
