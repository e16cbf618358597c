use std::str::FromStr;

use bitcoin::util::base58;
use xyzpub::xyz::{get_xpub_p2pkh_version, parse_xyz_version, substitute_xyz_version, XPUB_LEN};
use xyzpub::{Network, ScriptType, XyzError, XyzPubKey};

const MASTER_XPUB: &str = "xpub661MyMwAqRbcFtXgS5sYJABqqG9YLmC4Q1Rdap9gSE8NqtwybGhePY2gZ29ESFjqJoCu1Rupje8YtGqsefD265TMg7usUDFdp6W1EGMcet8";

const MAINNET_P2PKH: [u8; 4] = [0x04, 0x88, 0xB2, 0x1E];
const MAINNET_P2WPKH: [u8; 4] = [0x04, 0xB2, 0x47, 0x46];
const MAINNET_P2SH_P2WPKH: [u8; 4] = [0x04, 0x9D, 0x7C, 0xB2];
const TESTNET_P2PKH: [u8; 4] = [0x04, 0x35, 0x87, 0xCF];
const TESTNET_P2WPKH: [u8; 4] = [0x04, 0x5F, 0x1C, 0xF6];
const TESTNET_P2SH_P2WPKH: [u8; 4] = [0x04, 0x4A, 0x52, 0x62];

fn master_bytes() -> Vec<u8> {
    base58::from_check(MASTER_XPUB).unwrap()
}

fn with_prefix(prefix: &[u8]) -> String {
    let mut data = master_bytes();
    data.splice(0..4, prefix.iter().cloned());
    base58::check_encode_slice(&data)
}

fn key_with_network(network: Network) -> XyzPubKey {
    let mut key = XyzPubKey::parse(MASTER_XPUB).unwrap();
    key.network = network;
    key
}

#[test]
fn every_known_prefix_decodes_to_its_row() {
    let rows = [
        (MAINNET_P2PKH, Network::Mainnet, ScriptType::P2pkh),
        (MAINNET_P2WPKH, Network::Mainnet, ScriptType::P2wpkh),
        (MAINNET_P2SH_P2WPKH, Network::Mainnet, ScriptType::P2shP2wpkh),
        (TESTNET_P2PKH, Network::Testnet, ScriptType::P2pkh),
        (TESTNET_P2WPKH, Network::Testnet, ScriptType::P2wpkh),
        (TESTNET_P2SH_P2WPKH, Network::Testnet, ScriptType::P2shP2wpkh),
    ];
    for (prefix, network, script_type) in rows.iter() {
        let key = XyzPubKey::parse(&with_prefix(prefix)).unwrap();
        assert_eq!(key.network, *network);
        assert_eq!(key.script_type, *script_type);
    }
}

#[test]
fn unknown_prefix_is_invalid_version() {
    let r = XyzPubKey::parse(&with_prefix(&[0x00, 0x01, 0x02, 0x03]));
    assert_eq!(r.unwrap_err(), XyzError::InvalidVersion(vec![0x00, 0x01, 0x02, 0x03]));
    let r = XyzPubKey::parse(&with_prefix(&[0x04, 0x88, 0xB2, 0x1F]));
    assert_eq!(r.unwrap_err(), XyzError::InvalidVersion(vec![0x04, 0x88, 0xB2, 0x1F]));
}

#[test]
fn wrong_payload_length_is_invalid_length() {
    let data = master_bytes();
    let short = base58::check_encode_slice(&data[..77]);
    assert_eq!(XyzPubKey::parse(&short).unwrap_err(), XyzError::InvalidLength(77));
    let mut long = data.clone();
    long.push(0);
    let long = base58::check_encode_slice(&long);
    assert_eq!(XyzPubKey::parse(&long).unwrap_err(), XyzError::InvalidLength(79));
    let empty = base58::check_encode_slice(&[]);
    assert_eq!(XyzPubKey::parse(&empty).unwrap_err(), XyzError::InvalidLength(0));
}

#[test]
fn decoding_twice_gives_the_same_key() {
    let zpub = with_prefix(&MAINNET_P2WPKH);
    let a = XyzPubKey::parse(&zpub).unwrap();
    let b = XyzPubKey::parse(&zpub).unwrap();
    assert_eq!(a, b);
    assert_eq!(a.extended_pubkey.fingerprint(), b.extended_pubkey.fingerprint());
    assert_eq!(a.extended_pubkey.to_string(), b.extended_pubkey.to_string());
}

#[test]
fn parsed_key_carries_the_substituted_prefix() {
    let zpub = with_prefix(&MAINNET_P2WPKH);
    let key = XyzPubKey::parse(&zpub).unwrap();
    assert_ne!(key.extended_pubkey.to_string(), zpub);
    assert_eq!(key.extended_pubkey.to_string(), MASTER_XPUB);
    assert_eq!(key.extended_pubkey.network, bitcoin::Network::Bitcoin);

    let vpub = with_prefix(&TESTNET_P2WPKH);
    let key = XyzPubKey::parse(&vpub).unwrap();
    assert_eq!(key.extended_pubkey.to_string(), with_prefix(&TESTNET_P2PKH));
    assert_eq!(key.extended_pubkey.network, bitcoin::Network::Testnet);
}

#[test]
fn mainnet_p2wpkh_vector_and_corrupted_checksum() {
    let zpub = with_prefix(&MAINNET_P2WPKH);
    let key = XyzPubKey::parse(&zpub).unwrap();
    assert_eq!(key.network, Network::Mainnet);
    assert_eq!(key.script_type, ScriptType::P2wpkh);

    let raw = base58::from(&zpub).unwrap();
    assert_eq!(raw.len(), XPUB_LEN + 4);
    for i in XPUB_LEN..XPUB_LEN + 4 {
        let mut bad = raw.clone();
        bad[i] ^= 0x01;
        let r = XyzPubKey::parse(&base58::encode_slice(&bad));
        assert!(matches!(r, Err(XyzError::Encoding(base58::Error::BadChecksum(_, _)))));
    }
}

#[test]
fn bad_character_is_encoding_error() {
    let r = XyzPubKey::parse("xpub0OIl");
    assert!(matches!(r, Err(XyzError::Encoding(base58::Error::BadByte(_)))));
    let r = XyzPubKey::parse("");
    assert!(matches!(r, Err(XyzError::Encoding(base58::Error::TooShort(0)))));
}

#[test]
fn invalid_key_material_is_key_parse_error() {
    let mut data = master_bytes();
    data.splice(0..4, MAINNET_P2WPKH.iter().cloned());
    for b in data[45..78].iter_mut() {
        *b = 0;
    }
    let r = XyzPubKey::parse(&base58::check_encode_slice(&data));
    assert!(matches!(r, Err(XyzError::KeyParse(_))));
}

#[test]
fn from_str_agrees_with_parse() {
    let ypub = with_prefix(&MAINNET_P2SH_P2WPKH);
    let key = XyzPubKey::from_str(&ypub).unwrap();
    assert_eq!(key, XyzPubKey::parse(&ypub).unwrap());
    assert_eq!(key.script_type, ScriptType::P2shP2wpkh);
}

#[test]
fn matches_network_rules() {
    assert!(key_with_network(Network::Testnet).matches_network(Network::Regtest));
    assert!(key_with_network(Network::Testnet).matches_network(Network::Testnet));
    assert!(!key_with_network(Network::Testnet).matches_network(Network::Mainnet));
    assert!(key_with_network(Network::Mainnet).matches_network(Network::Mainnet));
    assert!(!key_with_network(Network::Mainnet).matches_network(Network::Regtest));
    assert!(!key_with_network(Network::Mainnet).matches_network(Network::Testnet));
    assert!(key_with_network(Network::Regtest).matches_network(Network::Regtest));
    assert!(!key_with_network(Network::Regtest).matches_network(Network::Testnet));
    assert!(!key_with_network(Network::Regtest).matches_network(Network::Mainnet));
}

#[test]
fn version_lookup_and_p2pkh_prefixes() {
    assert_eq!(parse_xyz_version(&TESTNET_P2SH_P2WPKH).unwrap(), (Network::Testnet, ScriptType::P2shP2wpkh));
    assert_eq!(parse_xyz_version(&MAINNET_P2PKH).unwrap(), (Network::Mainnet, ScriptType::P2pkh));
    assert_eq!(parse_xyz_version(&[0x04, 0x88, 0xB2]).unwrap_err(), XyzError::InvalidVersion(vec![0x04, 0x88, 0xB2]));
    assert_eq!(get_xpub_p2pkh_version(Network::Mainnet), MAINNET_P2PKH);
    assert_eq!(get_xpub_p2pkh_version(Network::Testnet), TESTNET_P2PKH);
    assert_eq!(get_xpub_p2pkh_version(Network::Regtest), TESTNET_P2PKH);
}

#[test]
fn substitution_rewrites_only_the_prefix() {
    let mut data = master_bytes();
    data.splice(0..4, TESTNET_P2WPKH.iter().cloned());
    let (network, script_type, bytes) = substitute_xyz_version(data.clone()).unwrap();
    assert_eq!(network, Network::Testnet);
    assert_eq!(script_type, ScriptType::P2wpkh);
    assert_eq!(&bytes[..4], &TESTNET_P2PKH);
    assert_eq!(&bytes[4..], &data[4..]);
    assert_eq!(substitute_xyz_version(vec![0u8; 10]).unwrap_err(), XyzError::InvalidLength(10));
}

#[test]
fn xpub_string_is_the_substituted_text() {
    let zpub = with_prefix(&MAINNET_P2WPKH);
    let key = XyzPubKey::parse(&zpub).unwrap();
    assert_eq!(key.xpub_string(), MASTER_XPUB);
    let plain = XyzPubKey::parse(MASTER_XPUB).unwrap();
    assert_eq!(key.extended_pubkey, plain.extended_pubkey);
    let upub = with_prefix(&TESTNET_P2SH_P2WPKH);
    let key = XyzPubKey::parse(&upub).unwrap();
    assert_eq!(key.xpub_string(), with_prefix(&TESTNET_P2PKH));
    assert_eq!(key.extended_pubkey.network, bitcoin::Network::Testnet);
}

#[test]
fn codec_and_parser_errors_pass_unchanged() {
    let zpub = with_prefix(&MAINNET_P2WPKH);
    let mut raw = base58::from(&zpub).unwrap();
    raw[XPUB_LEN] ^= 0x80;
    let bad = base58::encode_slice(&raw);
    assert_eq!(
        XyzPubKey::parse(&bad).unwrap_err(),
        XyzError::Encoding(base58::from_check(&bad).unwrap_err())
    );

    let mut data = master_bytes();
    data.splice(0..4, TESTNET_P2WPKH.iter().cloned());
    for b in data[45..78].iter_mut() {
        *b = 0;
    }
    let text = base58::check_encode_slice(&data);
    let mut faux = data.clone();
    faux.splice(0..4, TESTNET_P2PKH.iter().cloned());
    let expected = bitcoin::util::bip32::ExtendedPubKey::from_str(&base58::check_encode_slice(&faux)).unwrap_err();
    assert_eq!(XyzPubKey::parse(&text).unwrap_err(), XyzError::KeyParse(expected));
}
