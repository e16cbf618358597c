//! The primitives taken from rust-bitcoin and bitcoin_hashes, with the
//! contracts this library relies on.

use vstd::prelude::*;

use std::str::FromStr;

use bitcoin::util::base58;
use bitcoin::util::bip32::ExtendedPubKey;
use bitcoin::util::address::Payload;
use bitcoin::Address;
use bitcoin_hashes::sha256;

verus! {

/// rust-bitcoin's Base58 error, carried through as it came.
#[verifier::external_type_specification]
#[verifier::external_body]
pub struct ExBase58Error(base58::Error);

/// rust-bitcoin's BIP32 extended public key, carried through as it came.
#[verifier::external_type_specification]
#[verifier::external_body]
pub struct ExExtendedPubKey(ExtendedPubKey);

/// rust-bitcoin's address.
#[verifier::external_type_specification]
#[verifier::external_body]
pub struct ExAddress(Address);

/// The payload that Base58Check decoding finds in a text, or `None` where the
/// text has a character outside the alphabet, is shorter than a checksum, or
/// carries a checksum that does not match.
pub uninterp spec fn base58_check_decode(s: Seq<char>) -> Option<Seq<u8>>;

/// The Base58Check text of a payload.
pub uninterp spec fn base58_check_encode(b: Seq<u8>) -> Seq<char>;

/// The error that Base58Check decoding reports on a text it refuses.
pub uninterp spec fn base58_error_of(s: Seq<char>) -> base58::Error;

/// Whether rust-bitcoin's BIP32 parser accepts a text as an extended public key.
pub uninterp spec fn xpub_parses(s: Seq<char>) -> bool;

/// The error that rust-bitcoin's BIP32 parser reports on a text it refuses.
pub uninterp spec fn xpub_error_of(s: Seq<char>) -> base58::Error;

/// The Base58Check text of an extended public key, as its `Display` writes it.
pub uninterp spec fn xpub_text_of(k: ExtendedPubKey) -> Seq<char>;

/// The SHA-256 digest of a byte string.
pub uninterp spec fn sha256_of(b: Seq<u8>) -> Seq<u8>;

/// Relies on `bitcoin::util::base58::from_check`: it fails, with an error, or
/// returns the payload, as a function of the text alone.
#[verifier::external_body]
pub(crate) fn base58_from_check(s: &str) -> (r: Result<Vec<u8>, base58::Error>)
    ensures
        match r {
            Ok(v) => base58_check_decode(s@) == Some(v@),
            Err(e) => base58_check_decode(s@) is None && e == base58_error_of(s@),
        },
{
    base58::from_check(s)
}

/// Relies on `bitcoin::util::base58::check_encode_slice`: the Base58Check text
/// of the bytes, as a function of the bytes alone, which `from_check` decodes
/// back to the same bytes.
#[verifier::external_body]
pub(crate) fn base58_check_encode_slice(b: &[u8]) -> (r: String)
    ensures
        r@ == base58_check_encode(b@),
        base58_check_decode(r@) == Some(b@),
{
    base58::check_encode_slice(b)
}

/// Relies on `ExtendedPubKey::from_str`: whether it succeeds, and the error
/// where it does not, are functions of the text alone. A key it returns holds
/// every field of the payload, so its `Display` text decodes to the same
/// payload as the text it was read from.
#[verifier::external_body]
pub(crate) fn xpub_from_str(s: &str) -> (r: Result<ExtendedPubKey, base58::Error>)
    ensures
        r is Ok <==> xpub_parses(s@),
        r matches Ok(k) ==> base58_check_decode(xpub_text_of(k)) == base58_check_decode(s@),
        r matches Err(e) ==> e == xpub_error_of(s@),
{
    ExtendedPubKey::from_str(s)
}

/// Relies on `ExtendedPubKey`'s `Display`: the Base58Check text of the key.
#[verifier::external_body]
pub(crate) fn xpub_to_string(k: &ExtendedPubKey) -> (r: String)
    ensures
        r@ == xpub_text_of(*k),
{
    k.to_string()
}

/// The bytes of an address's output script.
pub uninterp spec fn address_script_of(a: Address) -> Seq<u8>;

/// For an address with a witness program, its witness version and the length
/// of its program; `None` for a P2PKH or P2SH address.
pub uninterp spec fn address_witness_of(a: Address) -> Option<(u8, usize)>;

/// Whether rust-bitcoin can build the output script of an address:
/// `Script::new_witness_program` asserts a witness version of at most 16, and
/// `Builder::push_slice` refuses a program of 2^32 bytes or more.
pub open spec fn address_script_buildable(a: Address) -> bool {
    match address_witness_of(a) {
        None => true,
        Some((version, len)) => version <= 16 && len < 0x1_0000_0000,
    }
}

/// Relies on the public fields of `Address::payload` and on `u5::to_u8`: the
/// witness version and program length of a witness address.
#[verifier::external_body]
pub(crate) fn address_witness(a: &Address) -> (r: Option<(u8, usize)>)
    ensures
        r == address_witness_of(*a),
{
    match &a.payload {
        Payload::PubkeyHash(_) => None,
        Payload::ScriptHash(_) => None,
        Payload::WitnessProgram { version, program } => Some((version.to_u8(), program.len())),
    }
}

/// Relies on `Address::script_pubkey` and `Script::into_bytes`: the bytes of the
/// address's output script, which depend on the address alone. It panics where
/// the script cannot be built, which `requires` leaves out.
#[verifier::external_body]
pub(crate) fn address_script_bytes(a: &Address) -> (r: Vec<u8>)
    requires
        address_script_buildable(*a),
    ensures
        r@ == address_script_of(*a),
{
    a.script_pubkey().into_bytes()
}

/// Relies on `bitcoin_hashes::sha256::Hash::hash` and `into_inner`: the SHA-256
/// digest of the bytes.
#[verifier::external_body]
pub(crate) fn sha256_digest(b: &[u8]) -> (r: [u8; 32])
    ensures
        r@ == sha256_of(b@),
{
    let h = <sha256::Hash as bitcoin_hashes::Hash>::hash(b);
    bitcoin_hashes::Hash::into_inner(h)
}

} // verus!
