//! The script hash of an address: the SHA-256 digest of its output script.

use vstd::prelude::*;

use bitcoin::Address;

use crate::primitives::{
    address_script_buildable, address_script_bytes, address_script_of, address_witness,
    sha256_digest, sha256_of,
};
use crate::types::ScriptHash;

verus! {

/// The script hash of an output script: its SHA-256 digest, as it is.
pub fn script_to_scripthash(script: &[u8]) -> (r: ScriptHash)
    ensures
        r@ == sha256_of(script@),
{
    ScriptHash { bytes: sha256_digest(script) }
}

/// The script hash of an address: the SHA-256 digest of its output script.
///
/// The address's output script must be one that can be built: a witness
/// version of at most 16 and a program shorter than 2^32 bytes.
pub fn address_to_scripthash(address: &Address) -> (r: ScriptHash)
    requires
        address_script_buildable(*address),
    ensures
        r@ == sha256_of(address_script_of(*address)),
{
    let script = address_script_bytes(address);
    script_to_scripthash(script.as_slice())
}

/// The script hash of an address, or `None` where its output script cannot be
/// built (a witness version above 16, or a program of 2^32 bytes or more).
pub fn try_address_to_scripthash(address: &Address) -> (r: Option<ScriptHash>)
    ensures
        address_script_buildable(*address) ==> (r matches Some(h) && h@ == sha256_of(
            address_script_of(*address),
        )),
        !address_script_buildable(*address) ==> r is None,
{
    match address_witness(address) {
        Some((version, len)) => {
            if version > 16 || len as u64 >= 0x1_0000_0000u64 {
                return None;
            }
        },
        None => {},
    }
    Some(address_to_scripthash(address))
}

/// Two addresses with the same output script have the same script hash.
pub proof fn lemma_scripthash_depends_on_script_alone(
    a1: Address,
    a2: Address,
    h1: ScriptHash,
    h2: ScriptHash,
)
    requires
        address_script_of(a1) == address_script_of(a2),
        h1@ == sha256_of(address_script_of(a1)),
        h2@ == sha256_of(address_script_of(a2)),
    ensures
        h1@ == h2@,
{
}

} // verus!
