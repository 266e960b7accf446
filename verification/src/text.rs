//! Text fields of fixed width.

use vstd::prelude::*;
use vstd::utf8::{decode_utf8, valid_utf8};
use std::string::FromUtf8Error;

verus! {

/// The error of `String::from_utf8`. Nothing is read from it.
#[verifier::external_type_specification]
#[verifier::external_body]
pub struct ExFromUtf8Error(FromUtf8Error);

/// `String::from_utf8` of the standard library: it accepts exactly the byte
/// strings that are well-formed UTF-8, and the text it returns is made of
/// the characters that they encode, in their order.
pub assume_specification[ String::from_utf8 ](vec: Vec<u8>) -> (r: Result<String, FromUtf8Error>)
    ensures
        r is Ok <==> valid_utf8(vec@),
        r matches Ok(text) ==> text@ == decode_utf8(vec@),
;

/// The text of a field that holds `bytes`: the characters that the bytes
/// encode in UTF-8, and no text at all where they are not well-formed.
pub open spec fn field_text(bytes: Seq<u8>) -> Seq<char> {
    if valid_utf8(bytes) {
        decode_utf8(bytes)
    } else {
        Seq::empty()
    }
}

/// Reads a field as text. A field that is not well-formed UTF-8 is no
/// error: it reads as the empty text.
pub fn decode_text(bytes: Vec<u8>) -> (text: String)
    ensures
        text@ == field_text(bytes@),
{
    match String::from_utf8(bytes) {
        Ok(text) => text,
        Err(_) => String::default(),
    }
}

} // verus!
