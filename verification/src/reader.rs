//! Reading the global state of a BIFA contract.
//!
//! A contract's global state of a given name is a list of items, each held as its strict
//! serialization. These functions decide what a BIFA contract reports from such a list: the
//! first item of a single-item state, the amounts of the issuances and their total, and the
//! contract linked to. An item that does not decode as the expected type is reported as an
//! error.

use vstd::prelude::*;

use amplify::confinement::Confined;
use rgbstd::stl::{AssetSpec, ContractTerms, Details, RejectListUrl};
use rgbstd::{Amount, ContractId};
use strict_types::encoding::StrictDeserialize;

use crate::execution::le_value;

verus! {

/// The longest serialized item that the decoders accept: the size limit of a global state
/// value.
pub const MAX_ITEM_LEN: usize = 0xFFFF;

/// `AssetSpec::from_strict_serialized`: the asset specification these bytes encode, if any.
pub uninterp spec fn asset_spec_decoded(b: Seq<u8>) -> Option<AssetSpec>;

/// `ContractTerms::from_strict_serialized`.
pub uninterp spec fn contract_terms_decoded(b: Seq<u8>) -> Option<ContractTerms>;

/// `RejectListUrl::from_strict_serialized`.
pub uninterp spec fn reject_list_url_decoded(b: Seq<u8>) -> Option<RejectListUrl>;

/// `Details::from_strict_serialized`.
pub uninterp spec fn details_decoded(b: Seq<u8>) -> Option<Details>;

/// `Amount::from_strict_serialized`.
pub uninterp spec fn amount_decoded(b: Seq<u8>) -> Option<Amount>;

/// `ContractId::from_strict_serialized`.
pub uninterp spec fn contract_id_decoded(b: Seq<u8>) -> Option<ContractId>;

/// `Amount::value`: the 64-bit value of an amount.
pub uninterp spec fn amount_u64(a: Amount) -> u64;

/// `AssetSpec::from_strict_serialized`; a decoding error gives `None`.
#[verifier::external_body]
fn decode_asset_spec(b: &Vec<u8>) -> (r: Option<AssetSpec>)
    requires
        b@.len() <= MAX_ITEM_LEN,
    ensures
        r == asset_spec_decoded(b@),
{
    AssetSpec::from_strict_serialized::<MAX_ITEM_LEN>(Confined::from_checked(b.clone())).ok()
}

/// `ContractTerms::from_strict_serialized`; a decoding error gives `None`.
#[verifier::external_body]
fn decode_contract_terms(b: &Vec<u8>) -> (r: Option<ContractTerms>)
    requires
        b@.len() <= MAX_ITEM_LEN,
    ensures
        r == contract_terms_decoded(b@),
{
    ContractTerms::from_strict_serialized::<MAX_ITEM_LEN>(Confined::from_checked(b.clone())).ok()
}

/// `RejectListUrl::from_strict_serialized`; a decoding error gives `None`.
#[verifier::external_body]
fn decode_reject_list_url(b: &Vec<u8>) -> (r: Option<RejectListUrl>)
    requires
        b@.len() <= MAX_ITEM_LEN,
    ensures
        r == reject_list_url_decoded(b@),
{
    RejectListUrl::from_strict_serialized::<MAX_ITEM_LEN>(Confined::from_checked(b.clone())).ok()
}

/// `Details::from_strict_serialized`; a decoding error gives `None`.
#[verifier::external_body]
fn decode_details(b: &Vec<u8>) -> (r: Option<Details>)
    requires
        b@.len() <= MAX_ITEM_LEN,
    ensures
        r == details_decoded(b@),
{
    Details::from_strict_serialized::<MAX_ITEM_LEN>(Confined::from_checked(b.clone())).ok()
}

/// `Amount::from_strict_serialized`; a decoding error gives `None`.
///
/// An amount is strictly encoded as its 64-bit value in eight little-endian bytes: decoding
/// succeeds exactly on eight bytes (fewer cannot be read, more are not consumed) and gives
/// their value.
#[verifier::external_body]
fn decode_amount(b: &Vec<u8>) -> (r: Option<Amount>)
    requires
        b@.len() <= MAX_ITEM_LEN,
    ensures
        r == amount_decoded(b@),
        r is Some <==> b@.len() == 8,
        r is Some ==> amount_u64(r->Some_0) == le_value(b@),
{
    Amount::from_strict_serialized::<MAX_ITEM_LEN>(Confined::from_checked(b.clone())).ok()
}

/// `ContractId::from_strict_serialized`; a decoding error gives `None`.
///
/// A contract id is strictly encoded as its 32 bytes: decoding succeeds exactly on 32 bytes.
#[verifier::external_body]
fn decode_contract_id(b: &Vec<u8>) -> (r: Option<ContractId>)
    requires
        b@.len() <= MAX_ITEM_LEN,
    ensures
        r == contract_id_decoded(b@),
        r is Some <==> b@.len() == 32,
{
    ContractId::from_strict_serialized::<MAX_ITEM_LEN>(Confined::from_checked(b.clone())).ok()
}

/// `Amount::value`.
#[verifier::external_body]
fn amount_value(a: Amount) -> (r: u64)
    ensures
        r == amount_u64(a),
{
    a.value()
}

/// `Amount::from`: the amount of a 64-bit value, whose value it gives back.
#[verifier::external_body]
fn amount_from(v: u64) -> (r: Amount)
    ensures
        amount_u64(r) == v,
{
    Amount::from(v)
}

/// An item of global state that does not hold a value of the expected type.
#[derive(Clone, Copy, PartialEq, Eq, Debug, Structural)]
pub enum ReadError {
    /// The item at this position does not decode as the expected type.
    Malformed(usize),
}

/// Why the link of a contract cannot be read.
#[derive(Clone, Copy, PartialEq, Eq, Debug, Structural)]
pub enum LinkError {
    /// The contract links to more than one contract.
    MultipleValues,
    /// The contract does not link to a contract.
    NoValue,
    /// The link between parent and child contract is broken.
    ValueMismatch,
    /// The value is not a valid contract id.
    Invalid,
}

/// The decoding of item `b` by decoder `d`, where `b` is not too long.
pub open spec fn decoded_item<T>(b: Seq<u8>, d: spec_fn(Seq<u8>) -> Option<T>) -> Option<T> {
    if b.len() <= MAX_ITEM_LEN { d(b) } else { None }
}

/// The amount that item `b` holds, if it holds one.
pub open spec fn amount_item(b: Seq<u8>) -> Option<Amount> {
    if b.len() <= MAX_ITEM_LEN { amount_decoded(b) } else { None }
}

/// What a single-item global state reports: nothing when it is empty, else its first item
/// decoded by `d`, or an error when that item does not decode.
pub open spec fn first_item<T>(values: Seq<Seq<u8>>, d: spec_fn(Seq<u8>) -> Option<T>) -> Result<Option<T>, ReadError> {
    if values.len() == 0 {
        Ok(None)
    } else {
        match decoded_item(values[0], d) {
            Some(v) => Ok(Some(v)),
            None => Err(ReadError::Malformed(0)),
        }
    }
}

/// What a global state that has an item reports: its first item decoded by `d`, or an error
/// when that item does not decode.
pub open spec fn first_decoded<T>(values: Seq<Seq<u8>>, d: spec_fn(Seq<u8>) -> Option<T>) -> Result<T, ReadError> {
    match decoded_item(values[0], d) {
        Some(v) => Ok(v),
        None => Err(ReadError::Malformed(0)),
    }
}

/// The views of a list of items.
pub open spec fn items(values: Seq<Vec<u8>>) -> Seq<Seq<u8>> {
    values.map_values(|v: Vec<u8>| v@)
}

/// The asset specification: the first item of global state `spec`.
///
/// The state must have an item: a BIFA contract always has one.
pub fn spec_of_globals(values: &Vec<Vec<u8>>) -> (r: Result<AssetSpec, ReadError>)
    requires
        values@.len() > 0,
    ensures
        r == first_decoded(items(values@), |b: Seq<u8>| asset_spec_decoded(b)),
        values@[0]@.len() <= MAX_ITEM_LEN && asset_spec_decoded(values@[0]@) is Some
            ==> r == Ok::<AssetSpec, ReadError>(asset_spec_decoded(values@[0]@)->Some_0),
        !(values@[0]@.len() <= MAX_ITEM_LEN && asset_spec_decoded(values@[0]@) is Some)
            ==> r == Err::<AssetSpec, ReadError>(ReadError::Malformed(0)),
{
    assert(items(values@)[0] == values@[0]@);
    if values[0].len() > MAX_ITEM_LEN {
        return Err(ReadError::Malformed(0));
    }
    match decode_asset_spec(&values[0]) {
        Some(v) => Ok(v),
        None => Err(ReadError::Malformed(0)),
    }
}

/// The contract terms: the first item of global state `terms`.
///
/// The state must have an item: a BIFA contract always has one.
pub fn contract_terms_of_globals(values: &Vec<Vec<u8>>) -> (r: Result<ContractTerms, ReadError>)
    requires
        values@.len() > 0,
    ensures
        r == first_decoded(items(values@), |b: Seq<u8>| contract_terms_decoded(b)),
        values@[0]@.len() <= MAX_ITEM_LEN && contract_terms_decoded(values@[0]@) is Some
            ==> r == Ok::<ContractTerms, ReadError>(contract_terms_decoded(values@[0]@)->Some_0),
        !(values@[0]@.len() <= MAX_ITEM_LEN && contract_terms_decoded(values@[0]@) is Some)
            ==> r == Err::<ContractTerms, ReadError>(ReadError::Malformed(0)),
{
    assert(items(values@)[0] == values@[0]@);
    if values[0].len() > MAX_ITEM_LEN {
        return Err(ReadError::Malformed(0));
    }
    match decode_contract_terms(&values[0]) {
        Some(v) => Ok(v),
        None => Err(ReadError::Malformed(0)),
    }
}

/// The reject list URL: the first item of global state `rejectListUrl`.
pub fn reject_list_url_of_globals(values: &Vec<Vec<u8>>) -> (r: Result<Option<RejectListUrl>, ReadError>)
    ensures
        r == first_item(items(values@), |b: Seq<u8>| reject_list_url_decoded(b)),
        values@.len() == 0 ==> r == Ok::<Option<RejectListUrl>, ReadError>(None),
        values@.len() > 0 ==> r != Ok::<Option<RejectListUrl>, ReadError>(None),
        values@.len() > 0 && values@[0]@.len() <= MAX_ITEM_LEN
            && reject_list_url_decoded(values@[0]@) is Some
            ==> r == Ok::<Option<RejectListUrl>, ReadError>(Some(reject_list_url_decoded(values@[0]@)->Some_0)),
        values@.len() > 0 && !(values@[0]@.len() <= MAX_ITEM_LEN
            && reject_list_url_decoded(values@[0]@) is Some)
            ==> r == Err::<Option<RejectListUrl>, ReadError>(ReadError::Malformed(0)),
{
    if values.len() == 0 {
        return Ok(None);
    }
    assert(items(values@)[0] == values@[0]@);
    if values[0].len() > MAX_ITEM_LEN {
        return Err(ReadError::Malformed(0));
    }
    match decode_reject_list_url(&values[0]) {
        Some(v) => Ok(Some(v)),
        None => Err(ReadError::Malformed(0)),
    }
}

/// The EVM claim-mint contract: the first item of global state `evmClaimMintContract`.
///
/// The state must have an item: a BIFA contract always has one.
pub fn evm_claim_mint_contract_of_globals(values: &Vec<Vec<u8>>) -> (r: Result<Details, ReadError>)
    requires
        values@.len() > 0,
    ensures
        r == first_decoded(items(values@), |b: Seq<u8>| details_decoded(b)),
        values@[0]@.len() <= MAX_ITEM_LEN && details_decoded(values@[0]@) is Some
            ==> r == Ok::<Details, ReadError>(details_decoded(values@[0]@)->Some_0),
        !(values@[0]@.len() <= MAX_ITEM_LEN && details_decoded(values@[0]@) is Some)
            ==> r == Err::<Details, ReadError>(ReadError::Malformed(0)),
{
    assert(items(values@)[0] == values@[0]@);
    if values[0].len() > MAX_ITEM_LEN {
        return Err(ReadError::Malformed(0));
    }
    match decode_details(&values[0]) {
        Some(v) => Ok(v),
        None => Err(ReadError::Malformed(0)),
    }
}

/// The EVM chain id: the value of the first amount of global state `evmChainId`, which is an
/// amount exactly when it has eight bytes.
///
/// The state must have an item: a BIFA contract always has one.
pub fn evm_chain_id_of_globals(values: &Vec<Vec<u8>>) -> (r: Result<u64, ReadError>)
    requires
        values@.len() > 0,
    ensures
        r == (match first_decoded(items(values@), |b: Seq<u8>| amount_decoded(b)) {
            Ok(a) => Ok(amount_u64(a)),
            Err(e) => Err(e),
        }),
        r is Ok <==> values@[0]@.len() == 8,
        r is Ok ==> r->Ok_0 == le_value(values@[0]@),
{
    assert(items(values@)[0] == values@[0]@);
    if values[0].len() > MAX_ITEM_LEN {
        return Err(ReadError::Malformed(0));
    }
    match decode_amount(&values[0]) {
        Some(a) => Ok(amount_value(a)),
        None => Err(ReadError::Malformed(0)),
    }
}

/// All items decode as amounts.
pub open spec fn all_amounts(values: Seq<Seq<u8>>) -> bool {
    forall|i: int| 0 <= i < values.len() ==> #[trigger] amount_item(values[i]) is Some
}

/// The amounts of a list of items that all decode as amounts.
pub open spec fn amounts(values: Seq<Seq<u8>>) -> Seq<Amount> {
    values.map_values(|b: Seq<u8>| amount_item(b)->Some_0)
}

/// The position of the first item that does not decode as an amount.
pub open spec fn first_malformed_amount(values: Seq<Seq<u8>>, i: int) -> bool {
    &&& 0 <= i < values.len()
    &&& amount_item(values[i]) is None
    &&& forall|j: int| 0 <= j < i ==> #[trigger] amount_item(values[j]) is Some
}

/// The amounts of a global state of amounts, in order; an error names the first item that
/// is not an amount.
pub fn amounts_of_globals(values: &Vec<Vec<u8>>) -> (r: Result<Vec<Amount>, ReadError>)
    ensures
        match r {
            Ok(v) => all_amounts(items(values@)) && v@ == amounts(items(values@)),
            Err(ReadError::Malformed(i)) => first_malformed_amount(items(values@), i as int),
        },
{
    let ghost its = items(values@);
    let mut r: Vec<Amount> = Vec::new();
    let mut i: usize = 0;
    while i < values.len()
        invariant
            i <= values.len(),
            its == items(values@),
            all_amounts(its.take(i as int)),
            r@ == amounts(its.take(i as int)),
        decreases values.len() - i,
    {
        assert(its[i as int] == values@[i as int]@);
        if values[i].len() > MAX_ITEM_LEN {
            assert forall|j: int| 0 <= j < i implies #[trigger] amount_item(its[j]) is Some by {
                assert(its.take(i as int)[j] == its[j]);
            }
            return Err(ReadError::Malformed(i));
        }
        match decode_amount(&values[i]) {
            Some(a) => r.push(a),
            None => {
                assert forall|j: int| 0 <= j < i implies #[trigger] amount_item(its[j]) is Some by {
                    assert(its.take(i as int)[j] == its[j]);
                }
                return Err(ReadError::Malformed(i));
            },
        }
        proof {
            assert(its.take(i as int + 1) =~= its.take(i as int).push(its[i as int]));
            assert(amounts(its.take(i as int + 1)) =~= amounts(its.take(i as int)).push(
                amount_item(its[i as int])->Some_0));
            assert forall|j: int| 0 <= j < i + 1 implies #[trigger] amount_item(its.take(i as int + 1)[j]) is Some by {
                if j < i {
                    assert(its.take(i as int + 1)[j] == its.take(i as int)[j]);
                }
            }
        }
        i += 1;
    }
    proof {
        assert(its.take(values.len() as int) =~= its);
    }
    Ok(r)
}

/// The sum of a sequence of values.
pub open spec fn sum(s: Seq<u64>) -> int
    decreases s.len(),
{
    if s.len() == 0 {
        0
    } else {
        sum(s.drop_last()) + s.last()
    }
}

/// The values of a sequence of amounts.
pub open spec fn amount_values(a: Seq<Amount>) -> Seq<u64> {
    a.map_values(|x: Amount| amount_u64(x))
}

/// The sum of the values, or `u64::MAX` where it exceeds it.
pub open spec fn saturated(s: Seq<u64>) -> int {
    if sum(s) <= u64::MAX { sum(s) } else { u64::MAX as int }
}

/// The total of a global state of amounts: the sum of their values, or `u64::MAX` where the
/// sum exceeds it (amounts add up saturating); an error names the first item that is not an
/// amount.
pub fn total_of_globals(values: &Vec<Vec<u8>>) -> (r: Result<Amount, ReadError>)
    ensures
        match r {
            Ok(t) => all_amounts(items(values@))
                && amount_u64(t) == saturated(amount_values(amounts(items(values@)))),
            Err(ReadError::Malformed(i)) => first_malformed_amount(items(values@), i as int),
        },
{
    let all = amounts_of_globals(values);
    match all {
        Err(e) => Err(e),
        Ok(list) => {
            let ghost vals = amount_values(list@);
            let mut total: u64 = 0;
            let mut i: usize = 0;
            while i < list.len()
                invariant
                    i <= list.len(),
                    vals == amount_values(list@),
                    total == saturated(vals.take(i as int)),
                decreases list.len() - i,
            {
                let v = amount_value(list[i]);
                proof {
                    assert(vals.take(i as int + 1).drop_last() =~= vals.take(i as int));
                    assert(vals[i as int] == v);
                    lemma_sum_nonneg(vals.take(i as int));
                }
                total = total.saturating_add(v);
                i += 1;
            }
            proof {
                assert(vals.take(list.len() as int) =~= vals);
            }
            Ok(amount_from(total))
        },
    }
}

proof fn lemma_sum_nonneg(s: Seq<u64>)
    ensures
        sum(s) >= 0,
    decreases s.len(),
{
    if s.len() > 0 {
        lemma_sum_nonneg(s.drop_last());
    }
}

/// An item is decoded by `d` exactly when it is at most [`MAX_ITEM_LEN`] bytes long, and then
/// as `d` decodes it.
pub proof fn an_item_decodes_as_its_decoder_says<T>(b: Seq<u8>, d: spec_fn(Seq<u8>) -> Option<T>)
    ensures
        b.len() <= MAX_ITEM_LEN ==> decoded_item(b, d) == d(b),
        b.len() > MAX_ITEM_LEN ==> decoded_item(b, d) is None,
        b.len() <= MAX_ITEM_LEN ==> amount_item(b) == amount_decoded(b),
        b.len() > MAX_ITEM_LEN ==> amount_item(b) is None,
{
}

/// A global state that must have an item reports its first item when that item, of at most
/// [`MAX_ITEM_LEN`] bytes, decodes, whatever its length and whatever follows it; otherwise it
/// reports the first item as malformed. Nothing else is ever reported.
pub proof fn a_required_state_reports_its_first_item<T>(values: Seq<Seq<u8>>, d: spec_fn(Seq<u8>) -> Option<T>)
    requires
        values.len() > 0,
    ensures
        values[0].len() <= MAX_ITEM_LEN && d(values[0]) is Some
            ==> first_decoded(values, d) == Ok::<T, ReadError>(d(values[0])->Some_0),
        !(values[0].len() <= MAX_ITEM_LEN && d(values[0]) is Some)
            ==> first_decoded(values, d) == Err::<T, ReadError>(ReadError::Malformed(0)),
        forall|rest: Seq<Seq<u8>>| #[trigger] first_decoded(seq![values[0]] + rest, d) == first_decoded(values, d),
{
    assert forall|rest: Seq<Seq<u8>>| #[trigger] first_decoded(seq![values[0]] + rest, d) == first_decoded(values, d) by {
        assert((seq![values[0]] + rest)[0] == values[0]);
    }
}

/// An optional global state is reported absent exactly when it has no item; otherwise it
/// reports its first item when that item, of at most [`MAX_ITEM_LEN`] bytes, decodes, and the
/// first item as malformed when it does not.
pub proof fn an_optional_state_is_absent_only_when_empty<T>(values: Seq<Seq<u8>>, d: spec_fn(Seq<u8>) -> Option<T>)
    ensures
        (first_item(values, d) == Ok::<Option<T>, ReadError>(None)) <==> values.len() == 0,
        values.len() > 0 && values[0].len() <= MAX_ITEM_LEN && d(values[0]) is Some
            ==> first_item(values, d) == Ok::<Option<T>, ReadError>(Some(d(values[0])->Some_0)),
        values.len() > 0 && !(values[0].len() <= MAX_ITEM_LEN && d(values[0]) is Some)
            ==> first_item(values, d) == Err::<Option<T>, ReadError>(ReadError::Malformed(0)),
{
}

/// The items of a list are the views of its byte vectors, one for one and in order.
pub proof fn items_are_the_byte_strings(values: Seq<Vec<u8>>)
    ensures
        items(values).len() == values.len(),
        forall|i: int| 0 <= i < values.len() ==> #[trigger] items(values)[i] == values[i]@,
{
}

/// The sum of no values is 0, and appending a value adds it: every value counts, repeated or
/// not.
pub proof fn sum_adds_every_value(s: Seq<u64>, v: u64)
    ensures
        sum(Seq::<u64>::empty()) == 0,
        sum(s.push(v)) == sum(s) + v,
        sum(s) >= 0,
{
    assert(s.push(v).drop_last() =~= s);
    lemma_sum_nonneg(s);
}

/// The sum of two sequences put together is the sum of their sums.
pub proof fn sum_of_concatenation(s: Seq<u64>, t: Seq<u64>)
    ensures
        sum(s + t) == sum(s) + sum(t),
    decreases t.len(),
{
    if t.len() == 0 {
        assert(s + t =~= s);
    } else {
        sum_of_concatenation(s, t.drop_last());
        assert((s + t).drop_last() =~= s + t.drop_last());
    }
}

/// The saturated sum is the sum where it fits in 64 bits and `u64::MAX` where it does not.
pub proof fn saturated_is_the_capped_sum(s: Seq<u64>)
    ensures
        sum(s) <= u64::MAX ==> saturated(s) == sum(s),
        sum(s) > u64::MAX ==> saturated(s) == u64::MAX,
        0 <= saturated(s) <= u64::MAX,
{
    lemma_sum_nonneg(s);
}

/// The amounts of a state of amount items, one for each item and in order, and their values.
pub proof fn amounts_are_the_items_decoded(values: Seq<Seq<u8>>)
    requires
        all_amounts(values),
    ensures
        amounts(values).len() == values.len(),
        amount_values(amounts(values)).len() == values.len(),
        forall|i: int| 0 <= i < values.len() ==> #[trigger] amounts(values)[i]
            == amount_item(values[i])->Some_0,
        forall|i: int| 0 <= i < values.len() ==> #[trigger] amount_values(amounts(values))[i]
            == amount_u64(amount_item(values[i])->Some_0),
{
}

/// A state of items either holds only amounts, or has exactly one first item that is not an
/// amount: the error of [`amounts_of_globals`] names an item that is not an amount, with
/// amounts before it.
pub proof fn a_malformed_state_has_one_first_malformed_item(values: Seq<Seq<u8>>)
    ensures
        all_amounts(values) <==> (forall|i: int| 0 <= i < values.len() ==> #[trigger] amount_item(values[i]) is Some),
        all_amounts(values) ==> forall|i: int| !#[trigger] first_malformed_amount(values, i),
        !all_amounts(values) ==> exists|i: int| #[trigger] first_malformed_amount(values, i),
        forall|i: int, j: int| #[trigger] first_malformed_amount(values, i)
            && #[trigger] first_malformed_amount(values, j) ==> i == j,
    decreases values.len(),
{
    if !all_amounts(values) {
        if all_amounts(values.drop_last()) {
            let i = values.len() - 1;
            assert forall|j: int| 0 <= j < i implies #[trigger] amount_item(values[j]) is Some by {
                assert(values.drop_last()[j] == values[j]);
            }
            assert(first_malformed_amount(values, i));
        } else {
            a_malformed_state_has_one_first_malformed_item(values.drop_last());
            let i = choose|i: int| #[trigger] first_malformed_amount(values.drop_last(), i);
            assert forall|j: int| 0 <= j < i implies #[trigger] amount_item(values[j]) is Some by {
                assert(values.drop_last()[j] == values[j]);
                assert(amount_item(values.drop_last()[j]) is Some);
            }
            assert(values.drop_last()[i] == values[i]);
            assert(first_malformed_amount(values, i));
        }
    }
}

/// Issuing one more amount adds its value to the total issued supply, saturating at
/// `u64::MAX`: the total is the saturating sum of every issuance, each counted once.
pub proof fn one_more_issuance_adds_its_value(values: Seq<Seq<u8>>, b: Seq<u8>)
    requires
        all_amounts(values),
        amount_item(b) is Some,
    ensures
        all_amounts(values.push(b)),
        saturated(amount_values(amounts(values.push(b))))
            == if saturated(amount_values(amounts(values))) + amount_u64(amount_item(b)->Some_0)
                <= u64::MAX {
                saturated(amount_values(amounts(values))) + amount_u64(amount_item(b)->Some_0)
            } else {
                u64::MAX as int
            },
{
    let s = amount_values(amounts(values));
    let v = amount_u64(amount_item(b)->Some_0);
    assert forall|i: int| 0 <= i < values.push(b).len() implies #[trigger] amount_item(values.push(b)[i]) is Some by {
        if i < values.len() {
            assert(values.push(b)[i] == values[i]);
        }
    }
    assert(amount_values(amounts(values.push(b))) =~= s.push(v));
    sum_adds_every_value(s, v);
}

/// The total of a global state of amounts adds up exactly the values of the amounts that
/// [`amounts_of_globals`] gives for it.
pub proof fn total_adds_up_the_amounts(values: Seq<Seq<u8>>)
    requires
        all_amounts(values),
    ensures
        amounts(values).len() == values.len(),
        forall|i: int| 0 <= i < values.len() ==> #[trigger] amount_values(amounts(values))[i]
            == amount_u64(amount_item(values[i])->Some_0),
{
}

/// The contract that a global state of contract ids links to: none when the state is empty,
/// the id when it holds one item that decodes as one, `Invalid` when that item does not, and
/// `MultipleValues` when the state holds more than one item.
pub fn extract_global_single_val(values: &Vec<Vec<u8>>) -> (r: Result<Option<ContractId>, LinkError>)
    ensures
        values@.len() == 0 ==> r == Ok::<Option<ContractId>, LinkError>(None),
        values@.len() == 1 ==> r == (match decoded_item(values@[0]@, |b: Seq<u8>| contract_id_decoded(b)) {
            Some(id) => Ok::<Option<ContractId>, LinkError>(Some(id)),
            None => Err(LinkError::Invalid),
        }),
        values@.len() > 1 ==> r == Err::<Option<ContractId>, LinkError>(LinkError::MultipleValues),
        values@.len() == 1 ==> (r == Err::<Option<ContractId>, LinkError>(LinkError::Invalid)
            <==> values@[0]@.len() != 32),
{
    if values.len() == 0 {
        Ok(None)
    } else if values.len() > 1 {
        Err(LinkError::MultipleValues)
    } else if values[0].len() > MAX_ITEM_LEN {
        Err(LinkError::Invalid)
    } else {
        match decode_contract_id(&values[0]) {
            Some(id) => Ok(Some(id)),
            None => Err(LinkError::Invalid),
        }
    }
}

} // verus!
