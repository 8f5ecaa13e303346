//! The calls that leave the verified code, each with the contract relied on.
use vstd::prelude::*;

verus! {

/// What `str::trim` leaves of a text: the text without its leading and
/// trailing Unicode whitespace.
pub uninterp spec fn trimmed_of(s: Seq<char>) -> Seq<char>;

/// Relies on `str::trim`: the result depends on the characters alone.
#[verifier::external_body]
pub(crate) fn trim_text(s: &str) -> (r: String)
    ensures
        r@ == trimmed_of(s@),
{
    s.trim().to_string()
}

/// Relies on `rust_cktap::rand_chaincode`: 32 bytes drawn from the thread's
/// random generator, fresh on each call.
#[verifier::external_body]
pub(crate) fn fresh_chain_code() -> (r: Vec<u8>)
    ensures
        r@.len() == 32,
{
    let code = rust_cktap::rand_chaincode();
    let bytes: &[u8; 32] = code.as_ref();
    bytes.to_vec()
}

} // verus!
