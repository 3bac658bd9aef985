use xcm_adapter::currency::{ChainId, PHAXCurrencyId};
use xcm_adapter::location::{Junction, MultiLocation};

#[test]
fn new_keeps_its_arguments() {
    let c = PHAXCurrencyId::new(ChainId::ParaChain(5), vec![1, 2]);
    assert_eq!(c.chain_id, ChainId::ParaChain(5));
    assert_eq!(c.currency_id, vec![1, 2]);
}

#[test]
fn the_relay_chain_currency_is_dot() {
    assert_eq!(PHAXCurrencyId::relay_chain(), PHAXCurrencyId::new(ChainId::RelayChain, b"DOT".to_vec()));
}

#[test]
fn chain_id_bytes() {
    assert_eq!(ChainId::RelayChain.encode(), vec![0]);
    assert_eq!(ChainId::ParaChain(0).encode(), vec![1, 0, 0, 0, 0]);
    assert_eq!(ChainId::ParaChain(1).encode(), vec![1, 1, 0, 0, 0]);
    assert_eq!(ChainId::ParaChain(2000).encode(), vec![1, 0xd0, 0x07, 0, 0]);
    assert_eq!(ChainId::ParaChain(0x0102_0304).encode(), vec![1, 4, 3, 2, 1]);
    assert_eq!(ChainId::ParaChain(u32::MAX).encode(), vec![1, 0xff, 0xff, 0xff, 0xff]);
}

#[test]
fn relay_currency_bytes() {
    let c = PHAXCurrencyId::new(ChainId::RelayChain, b"DOT".to_vec());
    let bytes: Vec<u8> = c.clone().into();
    assert_eq!(bytes, vec![0, b'D', b'O', b'T']);
    assert_eq!(PHAXCurrencyId::decode(&bytes), Some(c));
}

#[test]
fn parachain_currency_bytes() {
    let c = PHAXCurrencyId::new(ChainId::ParaChain(2000), b"XYZ".to_vec());
    let bytes: Vec<u8> = c.clone().into();
    assert_eq!(bytes, vec![1, 0xd0, 0x07, 0, 0, b'X', b'Y', b'Z']);
    assert_eq!(c.encode(), bytes);
    assert_eq!(PHAXCurrencyId::decode(&bytes), Some(c));
}

#[test]
fn bytes_are_read_back_as_they_were_written() {
    let chains = [
        ChainId::RelayChain,
        ChainId::ParaChain(0),
        ChainId::ParaChain(1),
        ChainId::ParaChain(255),
        ChainId::ParaChain(256),
        ChainId::ParaChain(0x0102_0304),
        ChainId::ParaChain(u32::MAX),
    ];
    let keys: [&[u8]; 5] = [b"", b"\x00", b"\x01\x00\x00\x00\x00", b"DOT", b"a key that is rather long"];
    for chain in chains {
        for key in keys {
            let c = PHAXCurrencyId::new(chain, key.to_vec());
            assert_eq!(PHAXCurrencyId::decode(&c.encode()), Some(c));
        }
    }
}

#[test]
fn an_empty_key_is_read_back() {
    let relay = PHAXCurrencyId::new(ChainId::RelayChain, Vec::new());
    let para = PHAXCurrencyId::new(ChainId::ParaChain(7), Vec::new());
    assert_eq!(relay.encode(), vec![0]);
    assert_eq!(para.encode(), vec![1, 7, 0, 0, 0]);
    assert_eq!(PHAXCurrencyId::decode(&[0]), Some(relay));
    assert_eq!(PHAXCurrencyId::decode(&[1, 7, 0, 0, 0]), Some(para));
}

#[test]
fn bytes_that_spell_no_currency() {
    assert_eq!(PHAXCurrencyId::decode(&[]), None);
    assert_eq!(PHAXCurrencyId::decode(&[2]), None);
    assert_eq!(PHAXCurrencyId::decode(&[2, 0, 0, 0, 0, 1]), None);
    assert_eq!(PHAXCurrencyId::decode(&[255, b'D', b'O', b'T']), None);
    assert_eq!(PHAXCurrencyId::decode(&[1]), None);
    assert_eq!(PHAXCurrencyId::decode(&[1, 0xd0]), None);
    assert_eq!(PHAXCurrencyId::decode(&[1, 0xd0, 0x07, 0]), None);
}

#[test]
fn every_byte_string_is_read_as_what_writes_it() {
    let samples: [&[u8]; 6] =
        [&[0], &[0, 0], &[0, 1, 2, 3], &[1, 1, 2, 3, 4], &[1, 0, 0, 0, 0, 0], &[1, 0xff, 0xff, 0xff, 0xff, 9, 9]];
    for bytes in samples {
        let c = PHAXCurrencyId::decode(bytes);
        assert!(c.is_some());
        assert_eq!(c.map(|c| c.encode()), Some(bytes.to_vec()));
    }
}

#[test]
fn currency_into_location_keeps_the_key_only() {
    let c = PHAXCurrencyId::new(ChainId::ParaChain(2000), b"XYZ".to_vec());
    let location: MultiLocation = c.into();
    assert_eq!(location, MultiLocation { junctions: vec![Junction::GeneralKey(b"XYZ".to_vec())] });
    let d = PHAXCurrencyId::new(ChainId::RelayChain, b"XYZ".to_vec());
    let same: MultiLocation = d.into();
    assert_eq!(same, location);
}

#[test]
fn a_clone_is_equal() {
    let c = PHAXCurrencyId::new(ChainId::ParaChain(2000), b"XYZ".to_vec());
    assert_eq!(c.clone(), c);
}
