//! How the client stub decodes the dispatched call's result: chosen from the
//! token text of the return type, not from its structure.

use vstd::prelude::*;
use vstd::string::StringExecFns;

verus! {

/// The decoding strategy for one return type.
#[derive(PartialEq, Eq, Structural, Clone, Copy, Debug)]
pub enum DecodeStrategy {
    /// Read the result as a string; fail with "Expected string response".
    Text,
    /// Nothing to read: always succeed with `()`.
    Unit,
    /// Read the result as a boolean; fail with "Expected bool response".
    Boolean,
    /// Generic structured decode, failing as a number decode.
    Numeric,
    /// Generic structured decode, failing as a response decode.
    Structured,
}

/// The fixed-width integer and floating-point type names.
pub open spec fn is_numeric_name(t: Seq<char>) -> bool {
    t == "i8"@ || t == "i16"@ || t == "i32"@ || t == "i64"@ || t == "i128"@ || t == "isize"@
        || t == "u8"@ || t == "u16"@ || t == "u32"@ || t == "u64"@ || t == "u128"@ || t == "usize"@
        || t == "f32"@ || t == "f64"@
}

/// The strategy for a return type whose token text is `t`.
pub open spec fn decode_for(t: Seq<char>) -> DecodeStrategy {
    if t == "String"@ {
        DecodeStrategy::Text
    } else if t == "()"@ {
        DecodeStrategy::Unit
    } else if t == "bool"@ {
        DecodeStrategy::Boolean
    } else if is_numeric_name(t) {
        DecodeStrategy::Numeric
    } else {
        DecodeStrategy::Structured
    }
}

/// The expression, as token text, that turns `result` into the stub's
/// `Result` under strategy `d`.
pub open spec fn decode_expr(d: DecodeStrategy) -> Seq<char> {
    match d {
        DecodeStrategy::Text => "result . as_string () . ok_or_else (|| \"Expected string response\" . to_string ())"@,
        DecodeStrategy::Unit => "Ok (())"@,
        DecodeStrategy::Boolean => "result . as_bool () . ok_or_else (|| \"Expected bool response\" . to_string ())"@,
        DecodeStrategy::Numeric => "serde_wasm_bindgen :: from_value (result) . map_err (| e | format ! (\"Failed to deserialize number: {}\" , e))"@,
        DecodeStrategy::Structured => "serde_wasm_bindgen :: from_value (result) . map_err (| e | format ! (\"Failed to deserialize response: {}\" , e))"@,
    }
}

fn text_is(t: &String, name: &str) -> (r: bool)
    ensures
        r == (t@ == name@),
{
    *t == String::from_str(name)
}

/// The decoding strategy for the return type whose token text is `return_type`.
pub fn select_decode(return_type: &String) -> (r: DecodeStrategy)
    ensures
        r == decode_for(return_type@),
{
    if text_is(return_type, "String") {
        DecodeStrategy::Text
    } else if text_is(return_type, "()") {
        DecodeStrategy::Unit
    } else if text_is(return_type, "bool") {
        DecodeStrategy::Boolean
    } else if text_is(return_type, "i8") || text_is(return_type, "i16") || text_is(return_type, "i32")
        || text_is(return_type, "i64") || text_is(return_type, "i128") || text_is(return_type, "isize")
        || text_is(return_type, "u8") || text_is(return_type, "u16") || text_is(return_type, "u32")
        || text_is(return_type, "u64") || text_is(return_type, "u128") || text_is(return_type, "usize")
        || text_is(return_type, "f32") || text_is(return_type, "f64") {
        DecodeStrategy::Numeric
    } else {
        DecodeStrategy::Structured
    }
}

/// The token text of the decode expression under strategy `d`.
pub fn decode_expression(d: DecodeStrategy) -> (r: String)
    ensures
        r@ == decode_expr(d),
{
    match d {
        DecodeStrategy::Text => String::from_str("result . as_string () . ok_or_else (|| \"Expected string response\" . to_string ())"),
        DecodeStrategy::Unit => String::from_str("Ok (())"),
        DecodeStrategy::Boolean => String::from_str("result . as_bool () . ok_or_else (|| \"Expected bool response\" . to_string ())"),
        DecodeStrategy::Numeric => String::from_str("serde_wasm_bindgen :: from_value (result) . map_err (| e | format ! (\"Failed to deserialize number: {}\" , e))"),
        DecodeStrategy::Structured => String::from_str("serde_wasm_bindgen :: from_value (result) . map_err (| e | format ! (\"Failed to deserialize response: {}\" , e))"),
    }
}

/// The expression, as token text, that decodes the result of a call whose
/// return type has the token text `return_type`.
pub fn generate_try_deserialize_expr(return_type: &String) -> (r: String)
    ensures
        r@ == decode_expr(decode_for(return_type@)),
{
    decode_expression(select_decode(return_type))
}

} // verus!
