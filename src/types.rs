use vstd::prelude::*;

verus! {

/// The chain a key or an address belongs to.
///
/// `Regtest` shares the version prefixes of `Testnet`.
#[derive(Clone, Copy, Debug, PartialEq, Eq, Structural)]
pub enum Network {
    Mainnet,
    Testnet,
    Regtest,
}

/// The output-script convention an extended key is meant for.
#[derive(Clone, Copy, Debug, PartialEq, Eq, Structural)]
pub enum ScriptType {
    /// Legacy pay-to-pubkey-hash.
    P2pkh,
    /// Native segwit pay-to-witness-pubkey-hash.
    P2wpkh,
    /// Segwit pay-to-witness-pubkey-hash wrapped in pay-to-script-hash.
    P2shP2wpkh,
}

/// The SHA-256 digest of an output script, used as a lookup key for it.
#[derive(Clone, Copy, Debug, PartialEq, Eq, Hash)]
pub struct ScriptHash {
    pub bytes: [u8; 32],
}

impl ScriptHash {
    pub open spec fn view(&self) -> Seq<u8> {
        self.bytes@
    }

    /// The digest as bytes.
    pub fn to_bytes(&self) -> (r: [u8; 32])
        ensures
            r@ == self.view(),
    {
        self.bytes
    }
}

} // verus!
