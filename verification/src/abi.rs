//! Decoding of calls to the fixed deposit contract.
//!
//! A transaction input is a deposit registration when it decodes, under
//! the deposit contract's interface, as a call to the `deposit` function;
//! its first argument is the validator public key.  The decoder itself is
//! an outside library; what it returns for a given input is named by
//! `abi_decoded_input`, and everything the indexer concludes from a
//! decoded input is verified from that name.
//!
//! The decoder reads three parameter-offset words and, through each, a
//! length word, converting every one to a machine word; an oversized
//! value there makes it abort instead of returning an error.  Inputs are
//! therefore admitted to the decoder only after `deposit_params_safe`
//! has bounded those words; an input that fails the bound is treated as
//! no deposit call, like any other input that does not decode.

use vstd::prelude::*;

use crate::primitives::Hash160;

verus! {

/// The address of the fixed deposit contract: twenty `0x42` bytes.
pub open spec fn deposit_contract_address() -> Seq<u8> {
    Seq::new(20, |i: int| 0x42u8)
}

/// The deposit contract address as a plain value.
pub fn deposit_contract_address_bytes() -> (r: Hash160)
    ensures
        r@ == deposit_contract_address(),
        r.wf(),
{
    let bytes: Vec<u8> = vec![0x42u8; 20];
    proof {
        assert forall|i: int| 0 <= i < bytes@.len() implies bytes@[i] == 0x42u8 by {
            assert(vstd::pervasive::cloned::<u8>(0x42u8, bytes[i]));
        }
        assert(bytes@ =~= deposit_contract_address());
    }
    Hash160::new(bytes)
}

/// The interface description of the deposit contract, as contract ABI
/// JSON.
fn deposit_contract_abi_json() -> &'static str {
    r#"[{"inputs":[],"stateMutability":"nonpayable","type":"constructor"},{"anonymous":false,"inputs":[{"indexed":false,"internalType":"bytes","name":"pubkey","type":"bytes"},{"indexed":false,"internalType":"bytes","name":"withdrawal_credentials","type":"bytes"},{"indexed":false,"internalType":"bytes","name":"amount","type":"bytes"},{"indexed":false,"internalType":"bytes","name":"signature","type":"bytes"},{"indexed":false,"internalType":"bytes","name":"index","type":"bytes"}],"name":"DepositEvent","type":"event"},{"inputs":[{"internalType":"bytes","name":"pubkey","type":"bytes"},{"internalType":"bytes","name":"withdrawal_credentials","type":"bytes"},{"internalType":"bytes","name":"signature","type":"bytes"},{"internalType":"bytes32","name":"deposit_data_root","type":"bytes32"}],"name":"deposit","outputs":[],"stateMutability":"payable","type":"function"},{"inputs":[],"name":"get_deposit_count","outputs":[{"internalType":"bytes","name":"","type":"bytes"}],"stateMutability":"view","type":"function"},{"inputs":[],"name":"get_deposit_root","outputs":[{"internalType":"bytes32","name":"","type":"bytes32"}],"stateMutability":"view","type":"function"},{"inputs":[{"internalType":"bytes4","name":"interfaceId","type":"bytes4"}],"name":"supportsInterface","outputs":[{"internalType":"bool","name":"","type":"bool"}],"stateMutability":"pure","type":"function"}]"#
}

/// The 32-byte word starting at `i` is small: its first 29 bytes are
/// zero, so its value (below 2^24) and every index derived from it fit
/// comfortably in a machine word.
pub open spec fn abi_word_fits(input: Seq<u8>, i: int) -> bool {
    forall|k: int| i <= k < i + 29 ==> input[k] == 0
}

/// The value of a small 32-byte word starting at `i`: its last three
/// bytes, big-endian.
pub open spec fn abi_word_value(input: Seq<u8>, i: int) -> int {
    input[i + 29] * 0x10000 + input[i + 30] * 0x100 + input[i + 31]
}

/// One parameter slot is safe to hand to the decoder: when the input
/// reaches the slot, the offset word there is small, and when the length
/// word that offset points at lies inside the input, it is small too.
/// (The decoder reports a plain error by itself whenever either word
/// falls beyond the input's end.)
pub open spec fn abi_head_slot_safe(input: Seq<u8>, i: int) -> bool {
    i + 32 <= input.len() ==> {
        &&& abi_word_fits(input, i)
        &&& (4 + abi_word_value(input, i) + 32 <= input.len() ==> abi_word_fits(
            input,
            4 + abi_word_value(input, i),
        ))
    }
}

/// The input's three dynamic-parameter slots (at bytes 4, 36 and 68,
/// after the four selector bytes) are safe to hand to the decoder.
pub open spec fn deposit_params_safe(input: Seq<u8>) -> bool {
    &&& abi_head_slot_safe(input, 4)
    &&& abi_head_slot_safe(input, 36)
    &&& abi_head_slot_safe(input, 68)
}

/// Check that the 32-byte word at `i` is small.
fn word_fits_check(input: &Vec<u8>, i: usize) -> (r: bool)
    requires
        i + 32 <= input@.len(),
    ensures
        r == abi_word_fits(input@, i as int),
{
    let n = input.len();
    let mut k = i;
    while k < i + 29
        invariant
            i + 32 <= input@.len(),
            n == input@.len(),
            i <= k <= i + 29,
            forall|m: int| i <= m < k ==> input@[m] == 0,
        decreases i + 29 - k,
    {
        if input[k] != 0 {
            proof {
                assert(input@[k as int] != 0);
            }
            return false;
        }
        k += 1;
    }
    true
}

/// Read the value of a small 32-byte word at `i`.
fn word_value_read(input: &Vec<u8>, i: usize) -> (r: u64)
    requires
        i + 32 <= input@.len(),
    ensures
        r == abi_word_value(input@, i as int),
        r < 0x1000000,
{
    let n = input.len();
    (input[i + 29] as u64) * 0x10000 + (input[i + 30] as u64) * 0x100 + (input[i + 31] as u64)
}

/// Check that one parameter slot is safe to hand to the decoder.
fn head_slot_safe_check(input: &Vec<u8>, i: usize) -> (r: bool)
    requires
        i <= 68,
    ensures
        r == abi_head_slot_safe(input@, i as int),
{
    let n = input.len();
    if i + 32 > n {
        return true;
    }
    if !word_fits_check(input, i) {
        return false;
    }
    let v = word_value_read(input, i);
    if 4 + v + 32 <= (n as u64) {
        let pos = (4 + v) as usize;
        word_fits_check(input, pos)
    } else {
        true
    }
}

/// Check that the input is safe to hand to the decoder.
pub fn deposit_params_safe_check(input: &Vec<u8>) -> (r: bool)
    ensures
        r == deposit_params_safe(input@),
{
    head_slot_safe_check(input, 4) && head_slot_safe_check(input, 36) && head_slot_safe_check(
        input,
        68,
    )
}

/// What decoding a safe input under the deposit contract's interface
/// yields: nothing when the input does not decode, otherwise the matched
/// function's name (as bytes) and, when the first decoded argument is a
/// byte string, those bytes.
pub uninterp spec fn abi_decoded_input(input: Seq<u8>) -> Option<(Seq<u8>, Option<Seq<u8>>)>;

/// Relies on `ethereum_abi::Abi::decode_input_from_slice` under the fixed
/// deposit-contract interface (built by `serde_json::from_str` from the
/// constant JSON above): the outcome is a function of the input alone.
/// The decoder reads the input's first four bytes unconditionally, hence
/// the length bound; it converts the dynamic parameters' offset and
/// length words to machine words and aborts on oversized values, hence
/// the word bound (under this interface those words are read only while
/// decoding the deposit function's three `bytes` parameters, at the
/// slots `deposit_params_safe` covers; every other read reports a plain
/// error when it falls outside the input).
#[verifier::external_body]
fn abi_decode_input(input: &Vec<u8>) -> (r: Option<(Vec<u8>, Option<Vec<u8>>)>)
    requires
        input@.len() >= 4,
        deposit_params_safe(input@),
    ensures
        match r {
            Some(p) => abi_decoded_input(input@) == Some((p.0@, p.1.deep_view())),
            None => abi_decoded_input(input@) is None,
        },
{
    let abi: ethereum_abi::Abi = serde_json::from_str(deposit_contract_abi_json()).expect(
        "the fixed interface parses",
    );
    match abi.decode_input_from_slice(input) {
        Ok((f, params)) => {
            let first = params.get(0).and_then(
                |p| match &p.value {
                    ethereum_abi::Value::Bytes(b) => Some(b.clone()),
                    _ => None,
                },
            );
            Some((f.name.clone().into_bytes(), first))
        },
        Err(_) => None,
    }
}

/// The name of the deposit function, as bytes: `deposit`.
pub open spec fn deposit_function_name() -> Seq<u8> {
    seq![100u8, 101u8, 112u8, 111u8, 115u8, 105u8, 116u8]
}

/// Whether `name` spells `deposit`.
fn is_deposit_name(name: &Vec<u8>) -> (r: bool)
    ensures
        r == (name@ == deposit_function_name()),
{
    let r = name.len() == 7 && name[0] == 100 && name[1] == 101 && name[2] == 112 && name[3] == 111
        && name[4] == 115 && name[5] == 105 && name[6] == 116;
    proof {
        if r {
            assert(name@ =~= deposit_function_name());
        } else {
            if name@ == deposit_function_name() {
                assert(name@.len() == 7);
                assert(name@[0] == 100 && name@[1] == 101 && name@[2] == 112 && name@[3] == 111
                    && name@[4] == 115 && name@[5] == 105 && name@[6] == 116);
            }
        }
    }
    r
}

/// The input is a call to the deposit function: long enough for a method
/// id, safe to decode, and decoded as the function named `deposit`.
pub open spec fn spec_is_deposit_call(input: Seq<u8>) -> bool {
    &&& input.len() >= 4
    &&& deposit_params_safe(input)
    &&& match abi_decoded_input(input) {
        Some(p) => p.0 == deposit_function_name(),
        None => false,
    }
}

/// The validator public key a deposit call registers: present when the
/// input is a deposit call whose first decoded argument is a byte
/// string.
pub open spec fn spec_deposit_pubkey(input: Seq<u8>) -> Option<Seq<u8>> {
    if spec_is_deposit_call(input) {
        abi_decoded_input(input).unwrap().1
    } else {
        None
    }
}

/// Decode a transaction input against the deposit contract's interface.
///
/// Returns nothing when the input is not a call to the deposit function
/// (an unknown selector, a failed decode, or an input the decoder cannot
/// be handed safely); otherwise returns the registered public key, when
/// the first decoded argument carries one.
pub fn decode_deposit_call(input: &Vec<u8>) -> (r: Option<Option<Vec<u8>>>)
    ensures
        r is Some <==> spec_is_deposit_call(input@),
        match r {
            Some(p) => p.deep_view() == spec_deposit_pubkey(input@),
            None => spec_deposit_pubkey(input@) is None,
        },
{
    if input.len() < 4 {
        return None;
    }
    if !deposit_params_safe_check(input) {
        return None;
    }
    match abi_decode_input(input) {
        Some((name, first)) => {
            if is_deposit_name(&name) {
                Some(first)
            } else {
                None
            }
        },
        None => None,
    }
}

/// Decode a transaction input as a deposit call, returning the registered
/// validator public key, or nothing when the input is not a canonical
/// deposit call carrying one.
pub fn decode_deposit_pubkey(input: &Vec<u8>) -> (r: Option<Vec<u8>>)
    ensures
        r.deep_view() == spec_deposit_pubkey(input@),
{
    match decode_deposit_call(input) {
        Some(first) => first,
        None => None,
    }
}

} // verus!
