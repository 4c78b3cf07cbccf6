use pp_fee_updater::u256::U256;

fn bytes_of(high: u128, low: u128) -> [u8; 32] {
    let mut bytes = [0u8; 32];
    bytes[..16].copy_from_slice(&high.to_be_bytes());
    bytes[16..].copy_from_slice(&low.to_be_bytes());
    bytes
}

#[test]
fn word_from_u128_has_no_high_half() {
    assert_eq!(U256::from_u128(1210), U256 { high: 0, low: 1210 });
    assert_eq!(U256::from_u128(u128::MAX), U256 { high: 0, low: u128::MAX });
    assert_eq!(U256::zero(), U256 { high: 0, low: 0 });
    assert_eq!(U256::zero(), U256::from_u128(0));
}

#[test]
fn word_to_u128_refuses_what_does_not_fit() {
    assert_eq!(U256 { high: 0, low: 7 }.to_u128(), Some(7));
    assert_eq!(U256 { high: 0, low: u128::MAX }.to_u128(), Some(u128::MAX));
    assert_eq!(U256 { high: 1, low: 0 }.to_u128(), None);
    assert_eq!(U256 { high: 1, low: 7 }.to_u128(), None);
    assert_eq!(U256 { high: u128::MAX, low: u128::MAX }.to_u128(), None);
}

#[test]
fn word_reads_big_endian_bytes() {
    let mut bytes = [0u8; 32];
    bytes[31] = 1;
    assert_eq!(U256::from_bytes_be(&bytes), U256 { high: 0, low: 1 });
    bytes[31] = 0;
    bytes[30] = 1;
    assert_eq!(U256::from_bytes_be(&bytes), U256 { high: 0, low: 256 });
    bytes[30] = 0;
    bytes[15] = 1;
    assert_eq!(U256::from_bytes_be(&bytes), U256 { high: 1, low: 0 });
    bytes[15] = 0;
    bytes[0] = 0x80;
    assert_eq!(U256::from_bytes_be(&bytes), U256 { high: 1 << 127, low: 0 });
    assert_eq!(U256::from_bytes_be(&[0xff; 32]), U256 { high: u128::MAX, low: u128::MAX });
}

#[test]
fn word_writes_big_endian_bytes() {
    let word = U256 { high: 0x0102030405060708090a0b0c0d0e0f10, low: 0x1112131415161718191a1b1c1d1e1f20 };
    let bytes = word.to_bytes_be();
    for i in 0..32 {
        assert_eq!(bytes[i], (i + 1) as u8);
    }
    assert_eq!(U256::zero().to_bytes_be(), [0u8; 32]);
    assert_eq!(U256::from_u128(1).to_bytes_be()[31], 1);
}

#[test]
fn word_and_bytes_round_trip() {
    let samples: [(u128, u128); 6] = [
        (0, 0),
        (0, 1),
        (0, u128::MAX),
        (1, 0),
        (0x0800000000000011_0000000000000000, 0),
        (u128::MAX, u128::MAX - 5),
    ];
    for (high, low) in samples {
        let word = U256 { high, low };
        assert_eq!(word.to_bytes_be(), bytes_of(high, low));
        assert_eq!(U256::from_bytes_be(&word.to_bytes_be()), word);
        assert_eq!(U256::from_bytes_be(&bytes_of(high, low)).to_bytes_be(), bytes_of(high, low));
    }
}

#[test]
fn word_agrees_with_the_chain_s_field_elements() {
    let felt = starknet::core::types::Felt::from(1210u128);
    assert_eq!(U256::from_bytes_be(&felt.to_bytes_be()), U256::from_u128(1210));
    let back = starknet::core::types::Felt::from_bytes_be(&U256::from_u128(902).to_bytes_be());
    assert_eq!(back, starknet::core::types::Felt::from(902u128));
    let large = starknet::core::types::Felt::MAX;
    assert_eq!(U256::from_bytes_be(&large.to_bytes_be()).to_u128(), None);
}
