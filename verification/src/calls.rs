//! The two calls that the agent makes on the contract: one that reads the
//! cached price and one that sets it.
//!
//! A call names its entry point by a selector, a hash of the entry point's
//! name that `starknet` computes. The hash is not spelled out here: it is
//! given a name, and the calls are described over that name.

use crate::engine::Action;
use crate::u256::{be_value, U256};
use crate::updater::{UpdaterError, UpdaterErrorView};
use vstd::prelude::*;
use vstd::utf8::is_ascii_chars;

verus! {

/// The selector that `starknet` derives from an entry point's name, as 32
/// bytes with the most significant first; `None` for a name that it refuses.
pub uninterp spec fn entry_point_selector(name: Seq<char>) -> Option<Seq<u8>>;

/// Calls `starknet::core::utils::get_selector_from_name` and writes the
/// field element that it returns as bytes, with `Felt::to_bytes_be`.
///
/// Trusted, not proved: the selector depends on the name alone, and the
/// function refuses exactly the names that hold a character outside ASCII.
#[verifier::external_body]
fn selector_from_name(name: &str) -> (r: Option<[u8; 32]>)
    ensures
        (r is Some) == is_ascii_chars(name@),
        match r {
            Some(bytes) => entry_point_selector(name@) == Some(bytes@),
            None => entry_point_selector(name@) is None,
        },
{
    match starknet::core::utils::get_selector_from_name(name) {
        Ok(selector) => Some(selector.to_bytes_be()),
        Err(_) => None,
    }
}

/// A call on a contract: the contract's address, the selector of the entry
/// point, and the arguments.
#[derive(Debug, PartialEq, Eq)]
pub struct ContractCall {
    pub to: U256,
    pub selector: U256,
    pub calldata: Vec<U256>,
}

/// Name of the entry point that returns the cached price.
pub open spec fn read_price_entry_point() -> Seq<char> {
    "get_current_gas_price"@
}

/// Name of the entry point that sets the cached price.
pub open spec fn set_price_entry_point() -> Seq<char> {
    "set_current_gas_price"@
}

/// Text of the error for an entry point's name that has no selector.
pub open spec fn invalid_selector_text() -> Seq<char> {
    "Invalid selector: the provided name contains non-ASCII characters"@
}

/// Whether `call` goes to `to`, at the entry point called `name`, with
/// `calldata` as its arguments.
pub open spec fn is_call(call: ContractCall, to: U256, name: Seq<char>, calldata: Seq<U256>) -> bool {
    &&& call.to == to
    &&& entry_point_selector(name) matches Some(bytes) && call.selector@ == be_value(bytes)
    &&& call.calldata@ == calldata
}

/// Both entry points have names in ASCII.
pub proof fn lemma_entry_points_are_ascii()
    ensures
        is_ascii_chars(read_price_entry_point()),
        is_ascii_chars(set_price_entry_point()),
{
    reveal_strlit("get_current_gas_price");
    reveal_strlit("set_current_gas_price");
}

/// Builds the call of the entry point called `entry_point` on the contract
/// at `to`. A name that holds a character outside ASCII has no selector and
/// is an error; every other name gives a call.
pub fn contract_call(to: U256, entry_point: &str, calldata: Vec<U256>) -> (r: Result<
    ContractCall,
    UpdaterError,
>)
    ensures
        is_ascii_chars(entry_point@) ==> r is Ok,
        match r {
            Ok(call) => is_call(call, to, entry_point@, calldata@),
            Err(error) => !is_ascii_chars(entry_point@) && error@ == UpdaterErrorView::Conversion(
                invalid_selector_text(),
            ),
        },
{
    match selector_from_name(entry_point) {
        Some(bytes) => Ok(ContractCall { to, selector: U256::from_bytes_be(&bytes), calldata }),
        None => Err(
            UpdaterError::Conversion(
                "Invalid selector: the provided name contains non-ASCII characters".to_owned(),
            ),
        ),
    }
}

/// The call that reads the price cached in the contract at
/// `contract_address`. It takes no arguments and always comes about.
pub fn read_price_call(contract_address: U256) -> (r: Result<ContractCall, UpdaterError>)
    ensures
        r matches Ok(call) && is_call(
            call,
            contract_address,
            read_price_entry_point(),
            Seq::empty(),
        ),
{
    proof {
        lemma_entry_points_are_ascii();
    }
    contract_call(contract_address, "get_current_gas_price", Vec::new())
}

/// The call that sets the price cached in the contract at `contract_address`
/// to `gas_price`. The contract takes the price as a 256-bit number in two
/// arguments, the low half first; the high half is zero. The call always
/// comes about.
pub fn set_price_call(contract_address: U256, gas_price: U256) -> (r: Result<
    ContractCall,
    UpdaterError,
>)
    ensures
        r matches Ok(call) && is_call(
            call,
            contract_address,
            set_price_entry_point(),
            seq![gas_price, U256 { high: 0, low: 0 }],
        ),
{
    proof {
        lemma_entry_points_are_ascii();
    }
    let mut calldata: Vec<U256> = Vec::new();
    calldata.push(gas_price);
    calldata.push(U256::zero());
    assert(calldata@ =~= seq![gas_price, U256 { high: 0, low: 0 }]);
    contract_call(contract_address, "set_current_gas_price", calldata)
}

/// Whether `call` is the call that carries out `action` on the contract at
/// `contract_address`; `None` stands for no call at all. Reading the price
/// and submitting one are the two actions that are calls.
pub open spec fn carries_out(call: Option<ContractCall>, action: Action, contract_address: U256) -> bool {
    match action {
        Action::ReadContractPrice => call matches Some(made) && is_call(
            made,
            contract_address,
            read_price_entry_point(),
            Seq::empty(),
        ),
        Action::Submit { new_price } => call matches Some(made) && is_call(
            made,
            contract_address,
            set_price_entry_point(),
            seq![new_price, U256 { high: 0, low: 0 }],
        ),
        _ => call is None,
    }
}

/// The call on the contract at `contract_address` that carries out what the
/// engine asks for, or `None` when it asks for something that is no call.
pub fn call_for(action: &Action, contract_address: U256) -> (r: Option<ContractCall>)
    ensures
        carries_out(r, *action, contract_address),
{
    let built: Result<ContractCall, UpdaterError> = match action {
        Action::ReadContractPrice => read_price_call(contract_address),
        Action::Submit { new_price } => set_price_call(contract_address, *new_price),
        _ => {
            return None;
        },
    };
    match built {
        Ok(call) => Some(call),
        Err(_) => None,
    }
}

} // verus!
