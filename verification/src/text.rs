//! Modules given as text: recognising a binary module and turning the text
//! format into one.
use vstd::prelude::*;

verus! {

/// The four bytes that every binary module starts with.
pub open spec fn wasm_magic() -> Seq<u8> {
    seq![0u8, 0x61u8, 0x73u8, 0x6du8]
}

/// Whether `bytes` start like a binary module.
pub open spec fn spec_is_wasm(bytes: Seq<u8>) -> bool {
    bytes.len() >= 4 && bytes.subrange(0, 4) == wasm_magic()
}

/// Whether `bytes` start like a binary module.
pub fn is_wasm(bytes: &[u8]) -> (r: bool)
    ensures
        r == spec_is_wasm(bytes@),
{
    if bytes.len() < 4 {
        return false;
    }
    let r = bytes[0] == 0 && bytes[1] == 0x61 && bytes[2] == 0x73 && bytes[3] == 0x6d;
    proof {
        let head = bytes@.subrange(0, 4);
        assert(head[0] == bytes@[0] && head[1] == bytes@[1] && head[2] == bytes@[2] && head[3]
            == bytes@[3]);
        if r {
            assert(head =~= wasm_magic());
        }
    }
    r
}

/// The error of the `wat` crate.
#[verifier::external_type_specification]
#[verifier::external_body]
pub struct ExWatError(wat::Error);

/// The binary module that `wat::parse_bytes` makes of `bytes`; `None` where
/// it reports an error.
pub uninterp spec fn wat_binary(bytes: Seq<u8>) -> Option<Seq<u8>>;

/// Calls `wat::parse_bytes`, which takes a module in the text format or in
/// the binary format and gives the module in the binary format. What it
/// gives depends on the bytes alone, and bytes that start like a binary
/// module come back as they are.
#[verifier::external_body]
fn parse_bytes(bytes: &[u8]) -> (r: Result<Vec<u8>, wat::Error>)
    ensures
        r matches Ok(v) ==> wat_binary(bytes@) == Some(v@),
        r is Err ==> wat_binary(bytes@) is None,
        spec_is_wasm(bytes@) ==> r is Ok,
        r matches Ok(v) ==> (spec_is_wasm(bytes@) ==> v@ == bytes@),
{
    wat::parse_bytes(bytes).map(|binary| binary.into_owned())
}

/// What `wat::Error` says of itself through `Display`.
#[verifier::external_body]
fn error_message(error: &wat::Error) -> (r: String) {
    error.to_string()
}

/// Why text could not be turned into a binary module.
#[derive(Debug, PartialEq, Eq, Hash)]
pub struct WatError {
    /// What is wrong with the text, in words.
    pub message: String,
}

impl Clone for WatError {
    fn clone(&self) -> (r: Self)
        ensures
            r == *self,
    {
        WatError { message: self.message.clone() }
    }
}

/// Turns a module in the text format into the binary format. Bytes that
/// start like a binary module are returned as they are.
pub fn wat2wasm(bytes: &[u8]) -> (r: Result<Vec<u8>, WatError>)
    ensures
        match r {
            Ok(v) => wat_binary(bytes@) == Some(v@),
            Err(_) => wat_binary(bytes@) is None,
        },
        spec_is_wasm(bytes@) ==> (r matches Ok(v) && v@ == bytes@),
{
    match parse_bytes(bytes) {
        Ok(v) => Ok(v),
        Err(e) => Err(WatError { message: error_message(&e) }),
    }
}

} // verus!
