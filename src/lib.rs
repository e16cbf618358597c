//! Normalisation of extended public keys written with the xpub/ypub/zpub family
//! of version prefixes, and the script hash of an address.

mod primitives;
pub mod types;
pub mod scripthash;
pub mod xyz;

pub use types::{Network, ScriptHash, ScriptType};
pub use scripthash::{address_to_scripthash, script_to_scripthash, try_address_to_scripthash};
pub use xyz::{XyzError, XyzPubKey};
