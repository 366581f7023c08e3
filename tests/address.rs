use flop_chain::address::AddressError;
use flop_chain::chain::Chain;

fn p2pkh_zero() -> Vec<u8> {
    let mut script = vec![0x76, 0xa9, 0x14];
    script.extend([0u8; 20]);
    script.extend([0x88, 0xac]);
    script
}

#[test]
fn key_hash_script_has_an_address() {
    let address = Chain::Mainnet.address_from_script(&p2pkh_zero()).unwrap();
    assert_eq!(address.to_string(), "1111111111111111111114oLvT2");
    assert_eq!(address.network, bitcoin::Network::Bitcoin);
    let address = Chain::Regtest.address_from_script(&p2pkh_zero()).unwrap();
    assert_eq!(address.network, bitcoin::Network::Regtest);
}

#[test]
fn script_hash_and_witness_scripts_have_addresses() {
    let mut p2sh = vec![0xa9, 0x14];
    p2sh.extend([7u8; 20]);
    p2sh.push(0x87);
    assert!(Chain::Signet.address_from_script(&p2sh).is_ok());
    let mut p2wpkh = vec![0x00, 0x14];
    p2wpkh.extend([1u8; 20]);
    assert!(Chain::Testnet.address_from_script(&p2wpkh).is_ok());
    let mut p2tr = vec![0x51, 0x20];
    p2tr.extend([2u8; 32]);
    assert!(Chain::Mainnet.address_from_script(&p2tr).is_ok());
}

#[test]
fn bad_version_zero_program() {
    assert!(matches!(
        Chain::Mainnet.address_from_script(&[0x00, 0x03, 1, 2, 3]),
        Err(AddressError::InvalidSegwitV0ProgramLength(3))
    ));
}

#[test]
fn unrecognized_scripts() {
    assert!(matches!(Chain::Mainnet.address_from_script(&[]), Err(AddressError::UnrecognizedScript)));
    assert!(matches!(
        Chain::Mainnet.address_from_script(&[0x6a, 0x04, 1, 2, 3, 4]),
        Err(AddressError::UnrecognizedScript)
    ));
    let mut truncated = p2pkh_zero();
    truncated.pop();
    assert!(matches!(Chain::Mainnet.address_from_script(&truncated), Err(AddressError::UnrecognizedScript)));
}
