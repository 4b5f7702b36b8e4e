use std::str::FromStr;

use rgb_schemas::reader::{
    amounts_of_globals, contract_terms_of_globals, evm_chain_id_of_globals,
    evm_claim_mint_contract_of_globals, extract_global_single_val, reject_list_url_of_globals,
    spec_of_globals, total_of_globals, LinkError, ReadError,
};
use rgbstd::stl::{AssetSpec, Details, RejectListUrl};
use rgbstd::{Amount, ContractId, Precision};
use strict_types::encoding::StrictSerialize;

fn ser<T: StrictSerialize>(v: &T) -> Vec<u8> {
    v.to_strict_serialized::<0xFFFF>().unwrap().release()
}

fn amount(v: u64) -> Vec<u8> { ser(&Amount::from(v)) }

#[test]
fn an_absent_reject_list_url_is_none() {
    let empty: Vec<Vec<u8>> = Vec::new();
    assert!(matches!(reject_list_url_of_globals(&empty), Ok(None)));
}

#[test]
fn single_items_are_the_first_item() {
    let spec = AssetSpec::new("BIFA", "Bridged asset", Precision::CentiMicro);
    assert_eq!(spec_of_globals(&vec![ser(&spec)]), Ok(spec));
    assert_eq!(evm_chain_id_of_globals(&vec![amount(8453), amount(1)]), Ok(8453));
    let details = Details::from_str("0x00000000000000000000000000000000000000a1").unwrap();
    assert_eq!(evm_claim_mint_contract_of_globals(&vec![ser(&details)]), Ok(details));
    let url = RejectListUrl::from_str("https://example.com/rejected").unwrap();
    assert_eq!(reject_list_url_of_globals(&vec![ser(&url)]), Ok(Some(url)));
}

#[test]
fn amounts_are_eight_little_endian_bytes() {
    assert_eq!(amount(0x0102_0304_0506_0708), vec![8u8, 7, 6, 5, 4, 3, 2, 1]);
    assert_eq!(evm_chain_id_of_globals(&vec![vec![8u8, 7, 6, 5, 4, 3, 2, 1]]), Ok(0x0102_0304_0506_0708));
    assert_eq!(evm_chain_id_of_globals(&vec![vec![0u8; 9]]), Err(ReadError::Malformed(0)));
    assert_eq!(evm_chain_id_of_globals(&vec![vec![0u8; 7]]), Err(ReadError::Malformed(0)));
}

#[test]
fn malformed_items_are_errors() {
    let bad = vec![vec![1u8, 2, 3]];
    assert_eq!(evm_chain_id_of_globals(&bad), Err(ReadError::Malformed(0)));
    assert!(matches!(spec_of_globals(&bad), Err(ReadError::Malformed(0))));
    assert!(matches!(contract_terms_of_globals(&bad), Err(ReadError::Malformed(0))));
    assert!(matches!(reject_list_url_of_globals(&vec![Vec::new()]), Err(ReadError::Malformed(0))));
}

#[test]
fn amounts_and_total() {
    let vals = vec![amount(2), amount(3), amount(40)];
    assert_eq!(
        amounts_of_globals(&vals),
        Ok(vec![Amount::from(2u64), Amount::from(3u64), Amount::from(40u64)])
    );
    assert_eq!(total_of_globals(&vals).unwrap().value(), 45);
    assert_eq!(total_of_globals(&Vec::new()).unwrap().value(), 0);
    let broken = vec![amount(2), vec![9u8], amount(1)];
    assert_eq!(amounts_of_globals(&broken), Err(ReadError::Malformed(1)));
    assert!(matches!(total_of_globals(&broken), Err(ReadError::Malformed(1))));
}

#[test]
fn total_saturates() {
    let vals = vec![amount(u64::MAX - 1), amount(5), amount(1)];
    assert_eq!(total_of_globals(&vals).unwrap().value(), u64::MAX);
}

#[test]
fn link_has_at_most_one_value() {
    assert_eq!(extract_global_single_val(&Vec::new()), Ok(None));
    let id = ContractId::copy_from_slice([7u8; 32]).unwrap();
    assert_eq!(extract_global_single_val(&vec![ser(&id)]), Ok(Some(id)));
    let other = ContractId::copy_from_slice([8u8; 32]).unwrap();
    assert_eq!(extract_global_single_val(&vec![ser(&id), ser(&other)]), Err(LinkError::MultipleValues));
    assert_eq!(extract_global_single_val(&vec![vec![7u8; 31]]), Err(LinkError::Invalid));
    assert_eq!(extract_global_single_val(&vec![vec![7u8; 33]]), Err(LinkError::Invalid));
    assert_eq!(extract_global_single_val(&vec![vec![7u8; 32]]), Ok(Some(id)));
}
