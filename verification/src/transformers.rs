use crate::structures::{bytes_equal, CommandLoad, CommandUniversal};
use vstd::prelude::*;
use vstd::slice::slice_to_vec;
use vstd::string::StrSliceExecFns;
use vstd::utf8::{decode_utf8, encode_utf8, valid_utf8};

verus! {

/// Calls `String::from_utf8`. Its documentation says that it fails exactly when the
/// bytes are not valid UTF-8, and otherwise gives the string whose UTF-8 bytes they
/// are (without copying them): this contract states both, the error dropped.
#[verifier::external_body]
fn string_from_utf8(bytes: Vec<u8>) -> (r: Option<String>)
    ensures
        r is Some <==> valid_utf8(bytes@),
        r matches Some(s) ==> s@ == decode_utf8(bytes@),
{
    String::from_utf8(bytes).ok()
}

/// Turns UTF-8 bytes into the string they encode.
/// Bytes that are not valid UTF-8 are refused (the caller must not pass them).
///
/// The text is checked before it is returned: its own UTF-8 bytes must be the bytes
/// that were given, which by `law_text_is_determined_by_its_bytes` leaves only one
/// possible text. A conversion that disagreed with the bytes would stop the program
/// rather than hand back other text.
pub fn vec_to_string(vec: &[u8]) -> (s: String)
    requires
        valid_utf8(vec@),
    ensures
        encode_utf8(s@) == vec@,
        s@ == decode_utf8(vec@),
{
    let owned = slice_to_vec(vec);
    match string_from_utf8(owned) {
        Some(s) => {
            if bytes_equal(s.as_str().as_bytes(), vec) {
                proof {
                    // Shown from the comparison alone: the returned text encodes to the input.
                    assert(encode_utf8(s@) == vec@);
                    law_text_is_determined_by_its_bytes(s@, vec@);
                }
                s
            } else {
                proof {
                    // Unreachable as long as `String::from_utf8` behaves as documented.
                    vstd::utf8::decode_utf8_encode_utf8(vec@);
                }
                None::<String>.expect("decoded text does not give back the bytes it came from")
            }
        },
        None => None::<String>.expect("valid UTF-8 bytes were refused"),
    }
}

/// A text is determined by its UTF-8 bytes: any text whose encoding is `bytes` is
/// exactly the decoding of `bytes`. So two different texts (one with a letter in
/// another case, say) never share their bytes.
pub proof fn law_text_is_determined_by_its_bytes(text: Seq<char>, bytes: Seq<u8>)
    requires
        encode_utf8(text) == bytes,
    ensures
        valid_utf8(bytes),
        text == decode_utf8(bytes),
{
    broadcast use vstd::utf8::encode_utf8_valid_utf8, vstd::utf8::encode_utf8_decode_utf8;
}

/// Two texts with the same UTF-8 bytes are the same text.
pub proof fn law_utf8_encoding_is_injective(a: Seq<char>, b: Seq<char>)
    requires
        encode_utf8(a) == encode_utf8(b),
    ensures
        a == b,
{
    law_text_is_determined_by_its_bytes(a, encode_utf8(b));
    law_text_is_determined_by_its_bytes(b, encode_utf8(b));
}

/// Turns a string into its UTF-8 bytes.
pub fn string_to_vec(s: &str) -> (v: Vec<u8>)
    ensures
        v@ == encode_utf8(s@),
{
    s.as_bytes_vec()
}

/// Turns a load command into a universal one: type and key are copied, the hash is emptied.
pub fn load_to_command(load: &CommandLoad, command: &mut CommandUniversal)
    ensures
        final(command).request_type@ == load.request_type@,
        final(command).key@ == load.key@,
        final(command).hash@ == Seq::<char>::empty(),
{
    command.request_type = load.request_type.clone();
    command.key = load.key.clone();
    command.hash = String::new();
}

/// Bytes made from a string turn back into that string.
pub proof fn law_string_bytes_round_trip(s: Seq<char>)
    ensures
        valid_utf8(encode_utf8(s)),
        decode_utf8(encode_utf8(s)) == s,
{
    broadcast use vstd::utf8::encode_utf8_valid_utf8, vstd::utf8::encode_utf8_decode_utf8;
}

/// Valid UTF-8 bytes made into a string turn back into the same bytes.
pub proof fn law_bytes_string_round_trip(bytes: Seq<u8>)
    requires
        valid_utf8(bytes),
    ensures
        encode_utf8(decode_utf8(bytes)) == bytes,
{
    vstd::utf8::decode_utf8_encode_utf8(bytes);
}

} // verus!
