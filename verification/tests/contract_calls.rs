use pp_fee_updater::calls::{call_for, contract_call, read_price_call, set_price_call};
use pp_fee_updater::engine::Action;
use pp_fee_updater::u256::U256;
use pp_fee_updater::updater::UpdaterError;

fn selector(name: &str) -> U256 {
    U256::from_bytes_be(&starknet::core::utils::get_selector_from_name(name).unwrap().to_bytes_be())
}

#[test]
fn read_call_names_the_getter_and_has_no_arguments() {
    let address = U256::from_u128(0x1234);
    let call = read_price_call(address).unwrap();
    assert_eq!(call.to, address);
    assert_eq!(call.selector, selector("get_current_gas_price"));
    assert_eq!(call.calldata, Vec::<U256>::new());
}

#[test]
fn set_call_names_the_setter_and_carries_the_price() {
    let address = U256 { high: 7, low: 0x1234 };
    let call = set_price_call(address, U256::from_u128(1210)).unwrap();
    assert_eq!(call.to, address);
    assert_eq!(call.selector, selector("set_current_gas_price"));
    assert_eq!(call.calldata, vec![U256::from_u128(1210), U256::zero()]);
}

#[test]
fn selector_is_the_hash_and_not_the_name() {
    // A known selector: the one of `transfer`.
    let call = contract_call(U256::zero(), "transfer", Vec::new()).unwrap();
    let expected =
        starknet::core::types::Felt::from_hex("0x83afd3f4caedc6eebf44246fe54e38c95e3179a5ec9ea81740eca5b482d12e").unwrap();
    assert_eq!(call.selector, U256::from_bytes_be(&expected.to_bytes_be()));
    assert_ne!(call.selector, U256::zero());
    assert_ne!(
        read_price_call(U256::zero()).unwrap().selector,
        set_price_call(U256::zero(), U256::zero()).unwrap().selector
    );
}

#[test]
fn default_entry_points_have_selector_zero() {
    let call = contract_call(U256::zero(), "__default__", Vec::new()).unwrap();
    assert_eq!(call.selector, U256::zero());
}

#[test]
fn entry_point_outside_ascii_is_a_conversion_error() {
    let result = contract_call(U256::zero(), "prix_du_gaz_é", Vec::new());
    assert_eq!(
        result,
        Err(UpdaterError::Conversion(
            "Invalid selector: the provided name contains non-ASCII characters".to_string()
        ))
    );
}

#[test]
fn calls_follow_the_engine_s_actions() {
    let address = U256::from_u128(0x99);
    assert_eq!(
        call_for(&Action::ReadContractPrice, address),
        Some(read_price_call(address).unwrap())
    );
    assert_eq!(
        call_for(&Action::Submit { new_price: U256::from_u128(902) }, address),
        Some(set_price_call(address, U256::from_u128(902)).unwrap())
    );
    assert_eq!(call_for(&Action::ReadLatestBlock, address), None);
    assert_eq!(call_for(&Action::LookupReceipt { tx_hash: U256::from_u128(1) }, address), None);
    assert_eq!(call_for(&Action::Ignore, address), None);
}
