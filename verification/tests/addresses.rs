use solana_anchor::pubkey::{Pubkey, PUBKEY_BYTES};

#[test]
fn address_keeps_its_bytes() {
    let mut bytes = [0u8; 32];
    for (i, byte) in bytes.iter_mut().enumerate() {
        *byte = i as u8;
    }
    assert_eq!(Pubkey::new_from_array(bytes).to_bytes(), bytes);
    assert_eq!(PUBKEY_BYTES, 32);
}

#[test]
fn same_compares_all_thirty_two_bytes() {
    let a = Pubkey::new_from_array([7; 32]);
    assert!(a.same(&Pubkey::new_from_array([7; 32])));
    for i in 0..32 {
        let mut bytes = [7u8; 32];
        bytes[i] = 8;
        assert!(!a.same(&Pubkey::new_from_array(bytes)));
    }
}
