//! Extended public keys with the xpub/ypub/zpub family of version prefixes.
//!
//! rust-bitcoin's BIP32 parser knows only the plain P2PKH prefix of each
//! network. A key is therefore read by looking its prefix up in the table of
//! known prefixes, writing the P2PKH prefix of the same network in its place,
//! and handing the result to that parser. The declared network and script type
//! are kept beside the parsed key.
//!
//! As the parser sees the substituted prefix, anything it derives from the
//! serialised key reflects that prefix and not the declared one, and differs
//! from what software that reads the unaltered bytes derives. Within this
//! library it is the same on every decoding.

use vstd::prelude::*;
use vstd::slice::slice_subrange;
use vstd::slice::slice_to_vec;

use std::str::FromStr;

use bitcoin::util::base58;
use bitcoin::util::bip32::ExtendedPubKey;

use crate::primitives::{
    base58_check_decode, base58_check_encode, base58_check_encode_slice, base58_error_of,
    base58_from_check, xpub_error_of, xpub_from_str, xpub_parses, xpub_text_of, xpub_to_string,
};
use crate::types::{Network, ScriptType};

verus! {

/// The size of a serialised extended key: version, depth, parent fingerprint,
/// child number, chain code and public key.
pub const XPUB_LEN: usize = 78;

/// The (network, script type) that a version prefix declares, from the table of
/// known prefixes.
pub open spec fn xyz_version(v: Seq<u8>) -> Option<(Network, ScriptType)> {
    if v == seq![0x04u8, 0x88u8, 0xB2u8, 0x1Eu8] {
        Some((Network::Mainnet, ScriptType::P2pkh))
    } else if v == seq![0x04u8, 0xB2u8, 0x47u8, 0x46u8] {
        Some((Network::Mainnet, ScriptType::P2wpkh))
    } else if v == seq![0x04u8, 0x9Du8, 0x7Cu8, 0xB2u8] {
        Some((Network::Mainnet, ScriptType::P2shP2wpkh))
    } else if v == seq![0x04u8, 0x35u8, 0x87u8, 0xCFu8] {
        Some((Network::Testnet, ScriptType::P2pkh))
    } else if v == seq![0x04u8, 0x5Fu8, 0x1Cu8, 0xF6u8] {
        Some((Network::Testnet, ScriptType::P2wpkh))
    } else if v == seq![0x04u8, 0x4Au8, 0x52u8, 0x62u8] {
        Some((Network::Testnet, ScriptType::P2shP2wpkh))
    } else {
        None
    }
}

/// The plain P2PKH version prefix of a network; regtest uses testnet's.
pub open spec fn p2pkh_version(n: Network) -> Seq<u8> {
    match n {
        Network::Mainnet => seq![0x04u8, 0x88u8, 0xB2u8, 0x1Eu8],
        Network::Testnet | Network::Regtest => seq![0x04u8, 0x35u8, 0x87u8, 0xCFu8],
    }
}

/// A serialised key with its version prefix replaced by the P2PKH prefix of `n`.
pub open spec fn substituted(data: Seq<u8>, n: Network) -> Seq<u8> {
    p2pkh_version(n) + data.subrange(4, data.len() as int)
}

/// The known version prefixes with what each declares.
fn xyz_version_table() -> (r: Vec<([u8; 4], Network, ScriptType)>)
    ensures
        forall|i: int|
            0 <= i < r.len() ==> xyz_version(#[trigger] r@[i].0@) == Some((r@[i].1, r@[i].2)),
        forall|v: Seq<u8>|
            #![trigger xyz_version(v)]
            xyz_version(v) is Some ==> exists|i: int| 0 <= i < r.len() && r@[i].0@ == v,
{
    let mut r: Vec<([u8; 4], Network, ScriptType)> = Vec::new();
    r.push(([0x04u8, 0x88u8, 0xB2u8, 0x1Eu8], Network::Mainnet, ScriptType::P2pkh));
    r.push(([0x04u8, 0xB2u8, 0x47u8, 0x46u8], Network::Mainnet, ScriptType::P2wpkh));
    r.push(([0x04u8, 0x9Du8, 0x7Cu8, 0xB2u8], Network::Mainnet, ScriptType::P2shP2wpkh));
    r.push(([0x04u8, 0x35u8, 0x87u8, 0xCFu8], Network::Testnet, ScriptType::P2pkh));
    r.push(([0x04u8, 0x5Fu8, 0x1Cu8, 0xF6u8], Network::Testnet, ScriptType::P2wpkh));
    r.push(([0x04u8, 0x4Au8, 0x52u8, 0x62u8], Network::Testnet, ScriptType::P2shP2wpkh));
    assert(r@[0].0@ =~= seq![0x04u8, 0x88u8, 0xB2u8, 0x1Eu8]);
    assert(r@[1].0@ =~= seq![0x04u8, 0xB2u8, 0x47u8, 0x46u8]);
    assert(r@[2].0@ =~= seq![0x04u8, 0x9Du8, 0x7Cu8, 0xB2u8]);
    assert(r@[3].0@ =~= seq![0x04u8, 0x35u8, 0x87u8, 0xCFu8]);
    assert(r@[4].0@ =~= seq![0x04u8, 0x5Fu8, 0x1Cu8, 0xF6u8]);
    assert(r@[5].0@ =~= seq![0x04u8, 0x4Au8, 0x52u8, 0x62u8]);
    r
}

/// Why a text is not an extended public key that this library reads.
#[derive(Debug, PartialEq, Eq)]
pub enum XyzError {
    /// The text is not Base58Check: a character outside the alphabet, a
    /// payload shorter than a checksum, or a checksum that does not match.
    Encoding(base58::Error),
    /// The payload is not the size of a serialised extended key; holds its size.
    InvalidLength(usize),
    /// The version prefix is not a known one; holds its bytes.
    InvalidVersion(Vec<u8>),
    /// The BIP32 parser refused the key after its prefix was substituted.
    KeyParse(base58::Error),
}

/// Whether the four bytes of `a` are the bytes of `b`.
fn same_bytes(a: &[u8; 4], b: &[u8]) -> (r: bool)
    ensures
        r == (a@ == b@),
{
    if b.len() != 4 {
        return false;
    }
    let r = a[0] == b[0] && a[1] == b[1] && a[2] == b[2] && a[3] == b[3];
    proof {
        if r {
            assert(a@ =~= b@);
        } else if a[0] != b[0] {
            assert(a@[0] != b@[0]);
        } else if a[1] != b[1] {
            assert(a@[1] != b@[1]);
        } else if a[2] != b[2] {
            assert(a@[2] != b@[2]);
        } else {
            assert(a@[3] != b@[3]);
        }
    }
    r
}

/// Looks a version prefix up in the table of known prefixes.
pub fn parse_xyz_version(version: &[u8]) -> (r: Result<(Network, ScriptType), XyzError>)
    ensures
        match xyz_version(version@) {
            Some(p) => r == Ok::<(Network, ScriptType), XyzError>(p),
            None => r matches Err(XyzError::InvalidVersion(v)) && v@ == version@,
        },
{
    let table = xyz_version_table();
    let mut i: usize = 0;
    while i < table.len()
        invariant
            0 <= i <= table.len(),
            forall|j: int| 0 <= j < i ==> table@[j].0@ != version@,
            forall|j: int|
                0 <= j < table.len() ==> xyz_version(#[trigger] table@[j].0@) == Some(
                    (table@[j].1, table@[j].2),
                ),
            forall|v: Seq<u8>|
                #![trigger xyz_version(v)]
                xyz_version(v) is Some ==> exists|j: int| 0 <= j < table.len() && table@[j].0@ == v,
        decreases table.len() - i,
    {
        if same_bytes(&table[i].0, version) {
            return Ok((table[i].1, table[i].2));
        }
        i = i + 1;
    }
    Err(XyzError::InvalidVersion(slice_to_vec(version)))
}

/// The plain P2PKH version prefix of a network, the one the BIP32 parser reads.
pub fn get_xpub_p2pkh_version(network: Network) -> (r: [u8; 4])
    ensures
        r@ == p2pkh_version(network),
{
    let r = match network {
        Network::Mainnet => [0x04u8, 0x88u8, 0xB2u8, 0x1Eu8],
        Network::Testnet | Network::Regtest => [0x04u8, 0x35u8, 0x87u8, 0xCFu8],
    };
    assert(r@ =~= p2pkh_version(network));
    r
}

/// Reads the version prefix of a serialised extended key and replaces it by the
/// P2PKH prefix of the network it declares. Returns the declared network and
/// script type with the rewritten bytes.
pub fn substitute_xyz_version(data: Vec<u8>) -> (r: Result<(Network, ScriptType, Vec<u8>), XyzError>)
    ensures
        data@.len() != XPUB_LEN ==> (r matches Err(XyzError::InvalidLength(n)) && n == data@.len()),
        data@.len() == XPUB_LEN ==> match xyz_version(data@.subrange(0, 4)) {
            None => r matches Err(XyzError::InvalidVersion(v)) && v@ == data@.subrange(0, 4),
            Some((n, t)) => r matches Ok((n2, t2, b)) && n2 == n && t2 == t && b@ == substituted(
                data@,
                n,
            ),
        },
{
    if data.len() != XPUB_LEN {
        return Err(XyzError::InvalidLength(data.len()));
    }
    let (network, script_type) = match parse_xyz_version(slice_subrange(data.as_slice(), 0, 4)) {
        Ok(p) => p,
        Err(e) => return Err(e),
    };
    let prefix = get_xpub_p2pkh_version(network);
    let mut bytes = data;
    bytes[0] = prefix[0];
    bytes[1] = prefix[1];
    bytes[2] = prefix[2];
    bytes[3] = prefix[3];
    assert(bytes@ =~= substituted(data@, network));
    Ok((network, script_type, bytes))
}

/// An extended public key with the network and script type that its version
/// prefix declared.
#[derive(Debug, PartialEq, Eq)]
pub struct XyzPubKey {
    pub network: Network,
    pub script_type: ScriptType,
    /// The key as rust-bitcoin parsed it, from the bytes with the P2PKH prefix
    /// of `network` in place of the declared one.
    pub extended_pubkey: ExtendedPubKey,
}

/// Whether `r` is what decoding the text `s` gives.
///
/// The checks come in order and the first that fails decides the error:
/// Base58Check, the length of the payload, its version prefix, and last the
/// BIP32 parser on the text re-encoded with the substituted prefix. Errors of
/// the codec and of the parser are passed on as they came. A returned key
/// serialises to the payload with the substituted prefix.
pub open spec fn parse_outcome(s: Seq<char>, r: Result<XyzPubKey, XyzError>) -> bool {
    match base58_check_decode(s) {
        None => r matches Err(XyzError::Encoding(e)) && e == base58_error_of(s),
        Some(d) => if d.len() != XPUB_LEN {
            r matches Err(XyzError::InvalidLength(n)) && n == d.len()
        } else {
            match xyz_version(d.subrange(0, 4)) {
                None => r matches Err(XyzError::InvalidVersion(v)) && v@ == d.subrange(0, 4),
                Some((n, t)) => if xpub_parses(base58_check_encode(substituted(d, n))) {
                    r matches Ok(k) && k.network == n && k.script_type == t
                        && base58_check_decode(xpub_text_of(k.extended_pubkey)) == Some(
                        substituted(d, n),
                    )
                } else {
                    r matches Err(XyzError::KeyParse(e)) && e == xpub_error_of(
                        base58_check_encode(substituted(d, n)),
                    )
                },
            }
        },
    }
}

/// Whether a key declared on `key` serves a wallet on `target`: the same
/// network, or a testnet key on regtest.
pub open spec fn network_matches(key: Network, target: Network) -> bool {
    key == target || (key == Network::Testnet && target == Network::Regtest)
}

impl XyzPubKey {
    /// Decodes a Base58Check extended public key with any of the known
    /// version prefixes.
    pub fn parse(inp: &str) -> (r: Result<XyzPubKey, XyzError>)
        ensures
            parse_outcome(inp@, r),
    {
        let data = match base58_from_check(inp) {
            Ok(d) => d,
            Err(e) => return Err(XyzError::Encoding(e)),
        };
        let (network, script_type, bytes) = match substitute_xyz_version(data) {
            Ok(x) => x,
            Err(e) => return Err(e),
        };
        let faux_xpub = base58_check_encode_slice(bytes.as_slice());
        match xpub_from_str(faux_xpub.as_str()) {
            Ok(extended_pubkey) => Ok(XyzPubKey { network, script_type, extended_pubkey }),
            Err(e) => Err(XyzError::KeyParse(e)),
        }
    }

    /// The Base58Check text of the parsed key. It carries the P2PKH prefix of
    /// `network`, not the prefix the key was written with.
    pub fn xpub_string(&self) -> (r: String)
        ensures
            r@ == xpub_text_of(self.extended_pubkey),
    {
        xpub_to_string(&self.extended_pubkey)
    }

    /// Whether this key serves a wallet on `network`. A testnet key also
    /// serves regtest; no other pair of distinct networks matches.
    pub fn matches_network(&self, network: Network) -> (r: bool)
        ensures
            r == network_matches(self.network, network),
    {
        self.network == network || (self.network == Network::Testnet && network == Network::Regtest)
    }
}

impl FromStr for XyzPubKey {
    type Err = XyzError;

    fn from_str(inp: &str) -> (r: Result<XyzPubKey, XyzError>)
        ensures
            parse_outcome(inp@, r),
    {
        XyzPubKey::parse(inp)
    }
}

/// The table of known prefixes is the product of mainnet and testnet with the
/// three script types: each such pair is declared by exactly one prefix of four
/// bytes, and no prefix declares regtest.
pub proof fn lemma_version_table_product(n: Network, t: ScriptType)
    requires
        n != Network::Regtest,
    ensures
        exists|v: Seq<u8>| v.len() == 4 && #[trigger] xyz_version(v) == Some((n, t)),
        forall|v: Seq<u8>, w: Seq<u8>|
            #![trigger xyz_version(v), xyz_version(w)]
            xyz_version(v) == Some((n, t)) && xyz_version(w) == Some((n, t)) ==> v == w,
        forall|v: Seq<u8>| #![trigger xyz_version(v)] xyz_version(v) is Some ==> xyz_version(v)->Some_0.0 != Network::Regtest,
{
    let v = match (n, t) {
        (Network::Mainnet, ScriptType::P2pkh) => seq![0x04u8, 0x88u8, 0xB2u8, 0x1Eu8],
        (Network::Mainnet, ScriptType::P2wpkh) => seq![0x04u8, 0xB2u8, 0x47u8, 0x46u8],
        (Network::Mainnet, ScriptType::P2shP2wpkh) => seq![0x04u8, 0x9Du8, 0x7Cu8, 0xB2u8],
        (_, ScriptType::P2pkh) => seq![0x04u8, 0x35u8, 0x87u8, 0xCFu8],
        (_, ScriptType::P2wpkh) => seq![0x04u8, 0x5Fu8, 0x1Cu8, 0xF6u8],
        (_, ScriptType::P2shP2wpkh) => seq![0x04u8, 0x4Au8, 0x52u8, 0x62u8],
    };
    assert(v.len() == 4 && xyz_version(v) == Some((n, t)));
}

/// Substituting the prefix keeps every byte after it, makes the bytes read as
/// the P2PKH prefix of the declared network, changes them exactly when the
/// declared script type is not P2PKH, and is stable: substituting again gives
/// the same bytes. So what the BIP32 parser derives from a ypub or zpub differs
/// from what the unaltered bytes give, the same way on every decoding.
pub proof fn lemma_substitution_divergence(d: Seq<u8>, n: Network, t: ScriptType)
    requires
        d.len() == XPUB_LEN,
        xyz_version(d.subrange(0, 4)) == Some((n, t)),
    ensures
        substituted(d, n).len() == XPUB_LEN,
        substituted(d, n).subrange(4, XPUB_LEN as int) == d.subrange(4, XPUB_LEN as int),
        xyz_version(substituted(d, n).subrange(0, 4)) == Some((n, ScriptType::P2pkh)),
        substituted(d, n) == d <==> t == ScriptType::P2pkh,
        substituted(substituted(d, n), n) == substituted(d, n),
{
    let e = substituted(d, n);
    let p = d.subrange(0, 4);
    assert(e.subrange(4, XPUB_LEN as int) =~= d.subrange(4, XPUB_LEN as int));
    assert(e.subrange(0, 4) =~= p2pkh_version(n));
    assert(substituted(e, n) =~= e);
    if t == ScriptType::P2pkh {
        assert(p == p2pkh_version(n));
        assert(e =~= d);
    } else {
        assert(p != p2pkh_version(n));
        assert(e.subrange(0, 4) != d.subrange(0, 4));
    }
}

/// Decoding is a function of the text: two decodings of one text succeed or
/// fail alike, with the same error, and where they succeed they declare the
/// same network and script type and hold keys that serialise to the same
/// payload.
pub proof fn lemma_parse_deterministic(
    s: Seq<char>,
    a: Result<XyzPubKey, XyzError>,
    b: Result<XyzPubKey, XyzError>,
)
    requires
        parse_outcome(s, a),
        parse_outcome(s, b),
    ensures
        a is Ok <==> b is Ok,
        a is Ok ==> a->Ok_0.network == b->Ok_0.network && a->Ok_0.script_type
            == b->Ok_0.script_type && base58_check_decode(xpub_text_of(a->Ok_0.extended_pubkey))
            == base58_check_decode(xpub_text_of(b->Ok_0.extended_pubkey)),
        (a matches Err(XyzError::Encoding(_))) ==> b == a,
        (a matches Err(XyzError::KeyParse(_))) ==> b == a,
        (a matches Err(XyzError::InvalidLength(_))) ==> b == a,
        (a matches Err(XyzError::InvalidVersion(_))) ==> (b matches Err(XyzError::InvalidVersion(_))
            && a->Err_0->InvalidVersion_0@ == b->Err_0->InvalidVersion_0@),
{
}

/// A decoded key serialises to the decoded payload with the P2PKH prefix of its
/// network in place of the declared one: the bytes after the prefix are kept,
/// and the serialisation differs from the payload exactly when the declared
/// script type is not P2PKH. The network is never regtest.
pub proof fn lemma_returned_key_reflects_substitution(
    s: Seq<char>,
    d: Seq<u8>,
    k: XyzPubKey,
)
    requires
        base58_check_decode(s) == Some(d),
        parse_outcome(s, Ok(k)),
    ensures
        base58_check_decode(xpub_text_of(k.extended_pubkey)) == Some(substituted(d, k.network)),
        k.network != Network::Regtest,
        substituted(d, k.network).subrange(0, 4) == p2pkh_version(k.network),
        substituted(d, k.network).subrange(4, XPUB_LEN as int) == d.subrange(4, XPUB_LEN as int),
        substituted(d, k.network) == d <==> k.script_type == ScriptType::P2pkh,
{
    lemma_substitution_divergence(d, k.network, k.script_type);
    assert(substituted(d, k.network).subrange(0, 4) =~= p2pkh_version(k.network));
}

/// What decoding the Base58Check text of a payload gives: a payload that is not
/// the size of a serialised key fails with its size, one with an unknown prefix
/// fails with that prefix, and one with a known prefix whose key material the
/// BIP32 parser accepts decodes to the network and script type of its prefix.
/// The second `requires` is what `base58_check_encode_slice` ensures of every
/// text it returns.
pub proof fn lemma_encoded_payload_outcome(b: Seq<u8>, r: Result<XyzPubKey, XyzError>)
    requires
        parse_outcome(base58_check_encode(b), r),
        base58_check_decode(base58_check_encode(b)) == Some(b),
    ensures
        b.len() != XPUB_LEN ==> (r matches Err(XyzError::InvalidLength(n)) && n == b.len()),
        b.len() == XPUB_LEN && xyz_version(b.subrange(0, 4)) is None ==> (r matches Err(
            XyzError::InvalidVersion(v),
        ) && v@ == b.subrange(0, 4)),
        b.len() == XPUB_LEN && xyz_version(b.subrange(0, 4)) is Some && xpub_parses(
            base58_check_encode(substituted(b, xyz_version(b.subrange(0, 4))->Some_0.0)),
        ) ==> (r matches Ok(k) && (k.network, k.script_type) == xyz_version(
            b.subrange(0, 4),
        )->Some_0 && base58_check_decode(xpub_text_of(k.extended_pubkey)) == Some(
            substituted(b, k.network),
        )),
{
}

} // verus!
