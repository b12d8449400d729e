//! Random bytes of the system.
use vstd::prelude::*;

verus! {

/// `getrandom::Error`: why the system gave no random bytes.
#[verifier::external_type_specification]
#[verifier::external_body]
pub struct ExGetrandomError(getrandom::Error);

/// Bytes that were drawn from the system.
pub struct Drawn {
    bytes: Ghost<Seq<u8>>,
}

impl Drawn {
    /// The bytes.
    pub closed spec fn bytes(self) -> Seq<u8> {
        self.bytes@
    }
}

/// `getrandom::fill`: puts random bytes of the system in place of those that
/// are there. Nothing is stated of the bytes, nor of when the system fails to
/// give them.
#[verifier::external_body]
pub(crate) fn fill_random(bytes: &mut Vec<u8>) -> (result: Result<Drawn, getrandom::Error>)
    ensures
        final(bytes)@.len() == old(bytes)@.len(),
        result matches Ok(drawn) ==> drawn.bytes() == final(bytes)@,
{
    match getrandom::fill(bytes) {
        Ok(()) => Ok(Drawn { bytes: Ghost(bytes@) }),
        Err(error) => Err(error),
    }
}

/// The `Display` form of a `getrandom::Error`.
#[verifier::external_body]
pub(crate) fn random_error_text(error: &getrandom::Error) -> String
{
    error.to_string()
}

} // verus!
